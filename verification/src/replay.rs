//! Keys of the replay caches that make commands idempotent: a retried
//! request finds the answer its first attempt stored under the same key.
use crate::retention::{newest, retain_recent};
use vstd::prelude::*;
use vstd::string::*;

verus! {

/// The frontier key of a request: `account:request`.
pub open spec fn frontier_key(account: Seq<char>, request_id: Seq<char>) -> Seq<char> {
    account + ":"@ + request_id
}

/// The settlement key of a request: `phase4:account:request`.
pub open spec fn settlement_key(account: Seq<char>, request_id: Seq<char>) -> Seq<char> {
    "phase4:"@ + account + ":"@ + request_id
}

/// The regional prefix of a player's requests: `phase5:identity:`.
pub open spec fn regional_prefix(identity: Seq<char>) -> Seq<char> {
    "phase5:"@ + identity + ":"@
}

pub fn frontier_cache_key(account: &str, request_id: &str) -> (k: String)
    ensures
        k@ == frontier_key(account@, request_id@),
{
    String::from_str(account).concat(":").concat(request_id)
}

pub fn settlement_cache_key(account: &str, request_id: &str) -> (k: String)
    ensures
        k@ == settlement_key(account@, request_id@),
{
    String::from_str("phase4:").concat(account).concat(":").concat(request_id)
}

/// Whether a frontier cache entry under `key`, answering `request_id`,
/// belongs to the identity `identity`.
pub fn is_frontier_cache_for_identity(key: &str, identity: &str, request_id: &str) -> (r: bool)
    ensures
        r == (key@ == frontier_key(identity@, request_id@)),
{
    let expected = frontier_cache_key(identity, request_id);
    let k = String::from_str(key);
    k == expected
}

/// Whether a regional cache entry under `key` belongs to the identity
/// `identity`: the key starts with the identity's regional prefix.
pub fn is_regional_cache_for_identity(key: &str, identity: &str) -> (r: bool)
    ensures
        r == (regional_prefix(identity@).len() <= key@.len() && key@.subrange(
            0,
            regional_prefix(identity@).len() as int,
        ) == regional_prefix(identity@)),
{
    let prefix = String::from_str("phase5:").concat(identity).concat(":");
    let kc = crate::text::chars_of(key);
    let pc = crate::text::chars_of(prefix.as_str());
    if pc.len() > kc.len() {
        return false;
    }
    let m = pc.len();
    for i in 0..m
        invariant
            m == pc@.len(),
            m <= kc@.len(),
            kc@ == key@,
            pc@ == prefix@,
            prefix@ == regional_prefix(identity@),
            forall|q: int| 0 <= q < i ==> kc@[q] == pc@[q],
    {
        if kc[i] != pc[i] {
            assert(key@.subrange(0, m as int)[i as int] != prefix@[i as int]);
            return false;
        }
    }
    assert(key@.subrange(0, m as int) =~= prefix@);
    true
}

// ---------------------------------------------------------------- the cache

/// The most responses one replay cache keeps.
pub const MAX_REPLAY_CACHE: usize = 512;

/// A response kept under the key of the request that produced it.
#[derive(Debug, Clone)]
pub struct CachedResponse<R> {
    pub key: String,
    pub response: R,
}

/// A replay cache: the responses of past commands, oldest first, each key
/// at most once.
#[derive(Debug, Clone)]
pub struct ReplayCache<R> {
    pub entries: Vec<CachedResponse<R>>,
}

/// The position of the first entry under `key`, or `-1`.
pub open spec fn position_of<R>(s: Seq<CachedResponse<R>>, key: Seq<char>) -> int
    decreases s.len(),
{
    if s.len() == 0 {
        -1
    } else if s[0].key@ == key {
        0
    } else {
        let r = position_of(s.drop_first(), key);
        if r < 0 { -1 } else { r + 1 }
    }
}

/// The response the cache holds for `key`, if any.
pub open spec fn cached<R>(s: Seq<CachedResponse<R>>, key: Seq<char>) -> Option<R> {
    let i = position_of(s, key);
    if i < 0 { None } else { Some(s[i].response) }
}

proof fn lemma_position_bounds<R>(s: Seq<CachedResponse<R>>, key: Seq<char>)
    ensures
        -1 <= position_of(s, key) < s.len(),
        position_of(s, key) >= 0 ==> s[position_of(s, key)].key@ == key,
        forall|q: int| 0 <= q < position_of(s, key) ==> (#[trigger] s[q]).key@ != key,
        position_of(s, key) < 0 ==> forall|q: int| 0 <= q < s.len() ==> (#[trigger] s[q]).key@ != key,
    decreases s.len(),
{
    if s.len() > 0 && s[0].key@ != key {
        lemma_position_bounds(s.drop_first(), key);
        assert forall|q: int| 1 <= q < s.len() implies #[trigger] s[q] == s.drop_first()[q - 1] by {}
    }
}

/// The first position is the one that no earlier entry shares.
proof fn lemma_position_unique<R>(s: Seq<CachedResponse<R>>, key: Seq<char>, i: int)
    requires
        0 <= i < s.len(),
        s[i].key@ == key,
        forall|q: int| 0 <= q < i ==> (#[trigger] s[q]).key@ != key,
    ensures
        position_of(s, key) == i,
    decreases i,
{
    if i > 0 {
        assert forall|q: int| 0 <= q < i - 1 implies (#[trigger] s.drop_first()[q]).key@ != key by {
            assert(s.drop_first()[q] == s[q + 1]);
        }
        lemma_position_unique(s.drop_first(), key, i - 1);
    }
}

proof fn lemma_absent<R>(s: Seq<CachedResponse<R>>, key: Seq<char>)
    requires
        forall|q: int| 0 <= q < s.len() ==> (#[trigger] s[q]).key@ != key,
    ensures
        position_of(s, key) == -1,
    decreases s.len(),
{
    if s.len() > 0 {
        assert forall|q: int| 0 <= q < s.len() - 1 implies (#[trigger] s.drop_first()[q]).key@ != key by {
            assert(s.drop_first()[q] == s[q + 1]);
        }
        lemma_absent(s.drop_first(), key);
    }
}

/// The cache after `record(key, response, inspection)`: an inspection is
/// never kept; any other response is what the cache then answers for
/// `key`, and every other key answers as before.
pub open spec fn recorded<R>(
    c: Seq<CachedResponse<R>>,
    c2: Seq<CachedResponse<R>>,
    key: Seq<char>,
    response: R,
    inspection: bool,
) -> bool {
    if inspection {
        c2 == c
    } else {
        &&& cached(c2, key) == Some(response)
        &&& forall|k: Seq<char>| k != key ==> #[trigger] cached(c2, k) == cached(c, k)
        &&& c2.len() <= c.len() + 1
    }
}

impl<R> ReplayCache<R> {
    /// An empty cache.
    pub fn new() -> (c: Self)
        ensures
            c.entries@.len() == 0,
    {
        ReplayCache { entries: Vec::new() }
    }

    /// The response kept for `key`, if any.
    pub fn lookup(&self, key: &String) -> (r: Option<&R>)
        ensures
            match r {
                Some(x) => cached(self.entries@, key@) == Some(*x),
                None => cached(self.entries@, key@) is None,
            },
    {
        proof {
            lemma_position_bounds(self.entries@, key@);
        }
        let n = self.entries.len();
        for i in 0..n
            invariant
                n == self.entries@.len(),
                forall|q: int| 0 <= q < i ==> (#[trigger] self.entries@[q]).key@ != key@,
        {
            if self.entries[i].key == *key {
                proof {
                    lemma_position_unique(self.entries@, key@, i as int);
                }
                return Some(&self.entries[i].response);
            }
        }
        proof {
            lemma_absent(self.entries@, key@);
        }
        None
    }

    /// Keeps the response of a command under its request key so that a
    /// retry is answered with it; an inspection is answered fresh every
    /// time and never kept.
    pub fn record(&mut self, key: String, response: R, inspection: bool)
        ensures
            recorded(old(self).entries@, final(self).entries@, key@, response, inspection),
    {
        if inspection {
            return;
        }
        let ghost s = self.entries@;
        let ghost k = key@;
        let n = self.entries.len();
        let mut i: usize = 0;
        let mut found = false;
        while i < n && !found
            invariant
                n == self.entries@.len(),
                self.entries@ == s,
                k == key@,
                i <= n,
                found ==> i < n && s[i as int].key@ == k,
                forall|q: int| 0 <= q < i ==> (#[trigger] s[q]).key@ != k,
            decreases n - i, if found { 0int } else { 1int },
        {
            if self.entries[i].key == key {
                assert(s[i as int].key@ == k);
                found = true;
            } else {
                assert(s[i as int].key@ != k);
                i = i + 1;
            }
        }
        if found {
            proof {
                lemma_position_unique(s, k, i as int);
            }
            self.entries.set(i, CachedResponse { key, response });
            let ghost s2 = self.entries@;
            proof {
                lemma_position_unique(s2, k, i as int);
                assert forall|other: Seq<char>| other != k implies #[trigger] cached(s2, other) == cached(s, other) by {
                    lemma_position_bounds(s, other);
                    let p = position_of(s, other);
                    if p >= 0 {
                        assert forall|q: int| 0 <= q < p implies (#[trigger] s2[q]).key@ != other by {
                            if q != i {
                                assert(s2[q] == s[q]);
                            }
                        }
                        assert(p != i);
                        lemma_position_unique(s2, other, p);
                    } else {
                        assert forall|q: int| 0 <= q < s2.len() implies (#[trigger] s2[q]).key@ != other by {
                            if q != i {
                                assert(s2[q] == s[q]);
                            }
                        }
                        lemma_absent(s2, other);
                    }
                }
            }
        } else {
            self.entries.push(CachedResponse { key, response });
            let ghost s2 = self.entries@;
            proof {
                assert forall|q: int| 0 <= q < n implies (#[trigger] s2[q]).key@ != k by {
                    assert(s2[q] == s[q]);
                }
                lemma_position_unique(s2, k, n as int);
                assert forall|other: Seq<char>| other != k implies #[trigger] cached(s2, other) == cached(s, other) by {
                    lemma_position_bounds(s, other);
                    let p = position_of(s, other);
                    if p >= 0 {
                        assert forall|q: int| 0 <= q < p implies (#[trigger] s2[q]).key@ != other by {
                            assert(s2[q] == s[q]);
                        }
                        assert(s2[p] == s[p]);
                        lemma_position_unique(s2, other, p);
                    } else {
                        assert forall|q: int| 0 <= q < s2.len() implies (#[trigger] s2[q]).key@ != other by {
                            if q < n {
                                assert(s2[q] == s[q]);
                            }
                        }
                        lemma_absent(s2, other);
                    }
                }
            }
        }
    }
}

/// Bounds a replay cache to `max` entries, dropping the oldest. A saved
/// world may carry more than the bound; whatever is dropped, what stays
/// is a run of the entries it held, at most `max` of them.
pub fn trim_replay_cache<R>(cache: &mut ReplayCache<R>, max: usize)
    ensures
        final(cache).entries@ == newest(old(cache).entries@, max as nat),
        final(cache).entries@.len() == if old(cache).entries@.len() < max {
            old(cache).entries@.len()
        } else {
            max as nat
        },
        forall|i: int|
            0 <= i < final(cache).entries@.len() ==> old(cache).entries@.contains(
                #[trigger] final(cache).entries@[i],
            ),
{
    let ghost s = cache.entries@;
    retain_recent(&mut cache.entries, max);
    proof {
        let t = cache.entries@;
        assert forall|i: int| 0 <= i < t.len() implies s.contains(#[trigger] t[i]) by {
            if s.len() > max {
                assert(t[i] == s[s.len() - max + i]);
            } else {
                assert(t[i] == s[i]);
            }
        }
    }
}

/// A retried command is answered as its first attempt was: once a
/// non-inspection response is recorded under a key, the cache answers that
/// key with it, and recording leaves every other key's answer alone; an
/// inspection changes nothing in the cache.
pub proof fn lemma_replay_idempotent<R>(
    c: Seq<CachedResponse<R>>,
    c2: Seq<CachedResponse<R>>,
    key: Seq<char>,
    response: R,
    inspection: bool,
    other: Seq<char>,
)
    requires
        recorded(c, c2, key, response, inspection),
        other != key,
    ensures
        !inspection ==> cached(c2, key) == Some(response),
        cached(c2, other) == cached(c, other),
        inspection ==> c2 == c,
{
}

} // verus!
