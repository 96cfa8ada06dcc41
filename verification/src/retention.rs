//! Bounded histories: ledgers and queues keep their newest records, and a
//! chronicle moves its oldest entries into an archive.
use vstd::prelude::*;
use std::collections::VecDeque;

verus! {

/// The newest `max` records of `s` (all of them when there are fewer).
pub open spec fn newest<T>(s: Seq<T>, max: nat) -> Seq<T> {
    if s.len() > max {
        s.subrange(s.len() - max, s.len() as int)
    } else {
        s
    }
}

/// Drops the oldest records of a ledger so that at most `max` remain.
pub fn retain_recent<T>(records: &mut Vec<T>, max: usize)
    ensures
        final(records)@ == newest(old(records)@, max as nat),
{
    if records.len() > max {
        let excess = records.len() - max;
        let kept = records.split_off(excess);
        *records = kept;
    }
}

/// Pops the oldest entries of a queue until at most `max` remain.
pub fn trim_back<T>(queue: &mut VecDeque<T>, max: usize)
    ensures
        final(queue)@ == newest(old(queue)@, max as nat),
{
    let ghost initial = queue@;
    while queue.len() > max
        invariant
            max < queue@.len() ==> max < initial.len(),
            queue@.len() <= initial.len(),
            queue@ == initial.subrange(initial.len() - queue@.len(), initial.len() as int),
            initial.len() > max ==> queue@.len() >= max,
            initial.len() <= max ==> queue@ == initial,
        decreases queue@.len(),
    {
        queue.pop_front();
    }
    proof {
        if initial.len() > max {
            assert(queue@.len() == max);
        }
    }
}

/// A queue trimmed to its newest `max` entries.
pub fn trim_queue<T>(queue: VecDeque<T>, max: usize) -> (r: VecDeque<T>)
    ensures
        r@ == newest(queue@, max as nat),
{
    let mut queue = queue;
    trim_back(&mut queue, max);
    queue
}

/// Moves the oldest entries of `live` to the end of `archive` until at most
/// `max` entries stay live; nothing is lost and the order is kept.
pub fn archive_excess<T>(live: &mut VecDeque<T>, archive: &mut Vec<T>, max: usize)
    ensures
        final(live)@ == newest(old(live)@, max as nat),
        final(archive)@ + final(live)@ == old(archive)@ + old(live)@,
{
    let ghost initial = live@;
    let ghost before = archive@;
    while live.len() > max
        invariant
            live@.len() <= initial.len(),
            initial.len() > max ==> live@.len() >= max,
            initial.len() <= max ==> live@ == initial,
            live@ == initial.subrange(initial.len() - live@.len(), initial.len() as int),
            archive@ == before + initial.subrange(0, initial.len() - live@.len()),
        decreases live@.len(),
    {
        let ghost moved = initial.len() - live@.len();
        let ghost prev = live@;
        match live.pop_front() {
            Some(entry) => {
                assert(entry == initial[moved]);
                archive.push(entry);
                assert(live@ =~= initial.subrange(moved + 1, initial.len() as int));
                assert(initial.subrange(0, moved + 1) =~= initial.subrange(0, moved).push(
                    initial[moved],
                ));
            },
            None => {},
        }
    }
    assert(archive@ + live@ =~= before + initial);
}

/// Records that can leave a bounded ledger once they are settled
/// (completed, cancelled, rejected or reclaimed).
pub trait Settles {
    spec fn is_settled(&self) -> bool;

    fn settled(&self) -> (r: bool)
        ensures
            r == self.is_settled(),
    ;
}

/// The index of the oldest settled record, or the length when none is.
pub open spec fn first_settled<T: Settles>(s: Seq<T>) -> nat
    decreases s.len(),
{
    if s.len() == 0 {
        0
    } else if s[0].is_settled() {
        0
    } else {
        1 + first_settled(s.drop_first())
    }
}

/// `s` after evicting its oldest settled records until at most `max`
/// remain or no settled record is left.
pub open spec fn trimmed_settled<T: Settles>(s: Seq<T>, max: nat) -> Seq<T>
    decreases s.len(),
{
    if s.len() > max && first_settled(s) < s.len() {
        trimmed_settled(s.remove(first_settled(s) as int), max)
    } else {
        s
    }
}

/// The first settled record of a ledger is settled, and none before it is.
pub proof fn lemma_first_settled<T: Settles>(s: Seq<T>)
    ensures
        first_settled(s) <= s.len(),
        first_settled(s) < s.len() ==> s[first_settled(s) as int].is_settled(),
        forall|k: int| 0 <= k < first_settled(s) ==> !(#[trigger] s[k]).is_settled(),
    decreases s.len(),
{
    if s.len() > 0 && !s[0].is_settled() {
        lemma_first_settled(s.drop_first());
        assert forall|k: int| 0 <= k < first_settled(s) implies !(#[trigger] s[k]).is_settled() by {
            if k > 0 {
                assert(s[k] == s.drop_first()[k - 1]);
            }
        }
    }
}

/// The position of the oldest settled record, or the length when none is.
pub fn find_first_settled<T: Settles>(records: &Vec<T>) -> (i: usize)
    ensures
        i == first_settled(records@),
{
    let n = records.len();
    let mut i: usize = 0;
    assert(records@.skip(0) =~= records@);
    while i < n
        invariant
            n == records@.len(),
            i <= n,
            first_settled(records@) == i + first_settled(records@.skip(i as int)),
        decreases n - i,
    {
        if records[i].settled() {
            return i;
        }
        assert(records@.skip(i as int).drop_first() =~= records@.skip(i + 1));
        i = i + 1;
    }
    i
}

/// Evicts the oldest settled records while the ledger holds more than `max`.
pub fn trim_settled<T: Settles>(records: &mut Vec<T>, max: usize)
    ensures
        final(records)@ == trimmed_settled(old(records)@, max as nat),
{
    loop
        invariant
            trimmed_settled(records@, max as nat) == trimmed_settled(old(records)@, max as nat),
        decreases records@.len(),
    {
        if records.len() <= max {
            return;
        }
        let i = find_first_settled(records);
        if i >= records.len() {
            return;
        }
        records.remove(i);
    }
}

/// Makes room for one more record: trims the ledger, then evicts one more
/// settled record when it is still full; false when it stays full.
pub fn make_room<T: Settles>(records: &mut Vec<T>, max: usize) -> (room: bool)
    ensures
        ({
            let t = trimmed_settled(old(records)@, max as nat);
            if t.len() < max {
                room && final(records)@ == t
            } else if first_settled(t) < t.len() {
                room && final(records)@ == t.remove(first_settled(t) as int)
            } else {
                !room && final(records)@ == t
            }
        }),
{
    trim_settled(records, max);
    if records.len() < max {
        return true;
    }
    let i = find_first_settled(records);
    if i >= records.len() {
        return false;
    }
    records.remove(i);
    true
}

/// A trimmed ledger holds at most `max` records, or only unsettled ones;
/// no unsettled record is ever evicted.
pub proof fn lemma_trimmed_settled<T: Settles>(s: Seq<T>, max: nat)
    ensures
        trimmed_settled(s, max).len() <= max || first_settled(trimmed_settled(s, max))
            == trimmed_settled(s, max).len(),
        trimmed_settled(s, max).len() <= s.len(),
        s.len() <= max ==> trimmed_settled(s, max) == s,
    decreases s.len(),
{
    lemma_first_settled(s);
    if s.len() > max && first_settled(s) < s.len() {
        lemma_trimmed_settled(s.remove(first_settled(s) as int), max);
    }
}

/// Every record a trimmed ledger keeps was in the initial ledger.
pub proof fn lemma_trimmed_settled_subset<T: Settles>(s: Seq<T>, max: nat)
    ensures
        forall|i: int|
            0 <= i < trimmed_settled(s, max).len() ==> s.contains(
                #[trigger] trimmed_settled(s, max)[i],
            ),
    decreases s.len(),
{
    lemma_first_settled(s);
    if s.len() > max && first_settled(s) < s.len() {
        let k = first_settled(s) as int;
        let s2 = s.remove(k);
        lemma_trimmed_settled_subset(s2, max);
        assert forall|i: int| 0 <= i < trimmed_settled(s, max).len() implies s.contains(
            #[trigger] trimmed_settled(s, max)[i],
        ) by {
            let x = trimmed_settled(s2, max)[i];
            let j = choose|j: int| 0 <= j < s2.len() && s2[j] == x;
            if j < k {
                assert(s[j] == x);
            } else {
                assert(s[j + 1] == x);
            }
        }
    }
}

} // verus!
