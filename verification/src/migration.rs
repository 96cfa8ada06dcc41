//! Compatibility checks between the server and the stored world: schema
//! migrations, snapshot versions and snapshot metadata.
use vstd::prelude::*;

verus! {

/// The newest database schema migration this server knows.
pub const MIGRATION_VERSION: u32 = 1;

/// The first applied migration that is newer than this server, if any.
pub open spec fn first_unsupported(versions: Seq<u32>) -> Option<u32>
    decreases versions.len(),
{
    if versions.len() == 0 {
        None
    } else if versions[0] > MIGRATION_VERSION {
        Some(versions[0])
    } else {
        first_unsupported(versions.drop_first())
    }
}

/// The first applied schema migration that this server does not know; a
/// database migrated by a newer server must not be opened.
pub fn unsupported_migration_version(versions: &[u32]) -> (r: Option<u32>)
    ensures
        r == first_unsupported(versions@),
        r is None <==> forall|i: int| 0 <= i < versions@.len() ==> versions@[i] <= MIGRATION_VERSION,
{
    let n = versions.len();
    let mut i: usize = 0;
    assert(versions@.skip(0) =~= versions@);
    while i < n
        invariant
            n == versions@.len(),
            i <= n,
            forall|k: int| 0 <= k < i ==> versions@[k] <= MIGRATION_VERSION,
            first_unsupported(versions@) == first_unsupported(versions@.skip(i as int)),
        decreases n - i,
    {
        let v = versions[i];
        if v > MIGRATION_VERSION {
            return Some(v);
        }
        assert(versions@.skip(i as int).drop_first() =~= versions@.skip(i + 1));
        i = i + 1;
    }
    proof {
        lemma_none_when_all_supported(versions@);
    }
    None
}

proof fn lemma_none_when_all_supported(s: Seq<u32>)
    requires
        forall|i: int| 0 <= i < s.len() ==> s[i] <= MIGRATION_VERSION,
    ensures
        first_unsupported(s) is None,
    decreases s.len(),
{
    if s.len() > 0 {
        assert forall|i: int| 0 <= i < s.drop_first().len() implies s.drop_first()[i]
            <= MIGRATION_VERSION by {
            assert(s.drop_first()[i] == s[i + 1]);
        }
        lemma_none_when_all_supported(s.drop_first());
    }
}

/// The metadata stored beside a world snapshot document.
#[derive(Debug, Clone, Copy)]
pub struct SnapshotHeader {
    pub storage_version: u32,
    pub tick: u64,
    pub cursor: u64,
}

/// The columns of a stored snapshot describe the document they hold.
pub fn snapshot_metadata_matches(
    storage_version: u32,
    world_tick: u64,
    event_cursor: u64,
    stored: &SnapshotHeader,
) -> (r: bool)
    ensures
        r == (storage_version == stored.storage_version && world_tick == stored.tick
            && event_cursor == stored.cursor),
{
    storage_version == stored.storage_version && world_tick == stored.tick && event_cursor
        == stored.cursor
}

/// A snapshot was written by a newer server when either its column or its
/// document carries a storage version above the supported one.
pub fn snapshot_is_newer(column_version: u32, document_version: u32, supported: u32) -> (r: bool)
    ensures
        r == (column_version > supported || document_version > supported),
{
    column_version > supported || document_version > supported
}

/// An entry of the identity index: an account and its character.
pub open spec fn pair_view(p: (String, String)) -> (Seq<char>, Seq<char>) {
    (p.0@, p.1@)
}

/// How often the pair `p` occurs in `s`.
pub open spec fn occurrences(s: Seq<(String, String)>, p: (Seq<char>, Seq<char>)) -> nat
    decreases s.len(),
{
    if s.len() == 0 {
        0
    } else {
        occurrences(s.drop_last(), p) + if pair_view(s.last()) == p { 1nat } else { 0nat }
    }
}

/// The two lists hold the same pairs, each as often: the same multiset.
pub open spec fn same_pairs(a: Seq<(String, String)>, b: Seq<(String, String)>) -> bool {
    forall|p: (Seq<char>, Seq<char>)| occurrences(a, p) == occurrences(b, p)
}

fn count_pair(s: &Vec<(String, String)>, p: &(String, String)) -> (r: usize)
    ensures
        r == occurrences(s@, pair_view(*p)),
{
    let mut c: usize = 0;
    for i in 0..s.len()
        invariant
            c == occurrences(s@.take(i as int), pair_view(*p)),
            c <= i,
    {
        assert(s@.take(i + 1).drop_last() =~= s@.take(i as int));
        if s[i].0 == p.0 && s[i].1 == p.1 {
            c = c + 1;
        }
    }
    assert(s@.take(s@.len() as int) =~= s@);
    c
}

proof fn lemma_absent_pair(s: Seq<(String, String)>, p: (Seq<char>, Seq<char>))
    requires
        forall|i: int| 0 <= i < s.len() ==> pair_view(#[trigger] s[i]) != p,
    ensures
        occurrences(s, p) == 0,
    decreases s.len(),
{
    if s.len() > 0 {
        assert forall|i: int| 0 <= i < s.drop_last().len() implies pair_view(#[trigger] s.drop_last()[i]) != p by {
            assert(s.drop_last()[i] == s[i]);
        }
        lemma_absent_pair(s.drop_last(), p);
    }
}

/// Whether the identity index stored beside a snapshot lists exactly the
/// snapshot's (account, character) pairs, in any order.
pub fn identity_index_matches(expected: &Vec<(String, String)>, actual: &Vec<(String, String)>) -> (r: bool)
    ensures
        r == same_pairs(expected@, actual@),
{
    for i in 0..expected.len()
        invariant
            forall|q: int| 0 <= q < i ==> occurrences(expected@, pair_view(#[trigger] expected@[q])) == occurrences(actual@, pair_view(expected@[q])),
    {
        if count_pair(expected, &expected[i]) != count_pair(actual, &expected[i]) {
            return false;
        }
    }
    for i in 0..actual.len()
        invariant
            forall|q: int| 0 <= q < expected@.len() ==> occurrences(expected@, pair_view(#[trigger] expected@[q])) == occurrences(actual@, pair_view(expected@[q])),
            forall|q: int| 0 <= q < i ==> occurrences(expected@, pair_view(#[trigger] actual@[q])) == occurrences(actual@, pair_view(actual@[q])),
    {
        if count_pair(expected, &actual[i]) != count_pair(actual, &actual[i]) {
            return false;
        }
    }
    proof {
        assert forall|p: (Seq<char>, Seq<char>)| occurrences(expected@, p) == occurrences(actual@, p) by {
            if exists|q: int| 0 <= q < expected@.len() && pair_view(expected@[q]) == p {
                let q = choose|q: int| 0 <= q < expected@.len() && pair_view(expected@[q]) == p;
                assert(occurrences(expected@, pair_view(expected@[q])) == occurrences(actual@, pair_view(expected@[q])));
            } else if exists|q: int| 0 <= q < actual@.len() && pair_view(actual@[q]) == p {
                let q = choose|q: int| 0 <= q < actual@.len() && pair_view(actual@[q]) == p;
                assert(occurrences(expected@, pair_view(actual@[q])) == occurrences(actual@, pair_view(actual@[q])));
            } else {
                lemma_absent_pair(expected@, p);
                lemma_absent_pair(actual@, p);
            }
        }
    }
    true
}

} // verus!
