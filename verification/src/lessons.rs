//! The school's lesson window: expired lessons leave, the rest are kept in
//! the order they started (a stable order, so lessons that started on the
//! same beat keep their order), and only the newest are kept.
use crate::retention::{newest, retain_recent};
use vstd::prelude::*;

verus! {

/// The most lessons the school keeps.
pub const MAX_SCHOOL_LESSONS: usize = 128;

/// A lesson's schedule, with the rest of its record carried along.
#[derive(Debug, Clone)]
pub struct SchoolLesson<D> {
    pub lesson_id: String,
    pub started_tick: u64,
    pub expires_tick: u64,
    pub details: D,
}

// ---------------------------------------------------------------- specs

/// The lessons still running on beat `tick`, in order.
pub open spec fn running<D>(s: Seq<SchoolLesson<D>>, tick: u64) -> Seq<SchoolLesson<D>>
    decreases s.len(),
{
    if s.len() == 0 {
        Seq::empty()
    } else {
        let rest = running(s.drop_last(), tick);
        if s.last().expires_tick > tick { rest.push(s.last()) } else { rest }
    }
}

/// `sorted` with `x` placed after every lesson that started no later.
pub open spec fn insert_by_start<D>(sorted: Seq<SchoolLesson<D>>, x: SchoolLesson<D>) -> Seq<SchoolLesson<D>>
    decreases sorted.len(),
{
    if sorted.len() == 0 {
        seq![x]
    } else if sorted.last().started_tick <= x.started_tick {
        sorted.push(x)
    } else {
        insert_by_start(sorted.drop_last(), x).push(sorted.last())
    }
}

/// The lessons in the order they started, stably.
pub open spec fn by_start<D>(s: Seq<SchoolLesson<D>>) -> Seq<SchoolLesson<D>>
    decreases s.len(),
{
    if s.len() == 0 {
        Seq::empty()
    } else {
        insert_by_start(by_start(s.drop_last()), s.last())
    }
}

/// The school's window on beat `tick`.
pub open spec fn lesson_window<D>(s: Seq<SchoolLesson<D>>, tick: u64) -> Seq<SchoolLesson<D>> {
    newest(by_start(running(s, tick)), MAX_SCHOOL_LESSONS as nat)
}

pub open spec fn ordered<D>(s: Seq<SchoolLesson<D>>) -> bool {
    forall|i: int, j: int| 0 <= i <= j < s.len() ==> s[i].started_tick <= s[j].started_tick
}

// ---------------------------------------------------------------- proofs

proof fn lemma_insert_len<D>(sorted: Seq<SchoolLesson<D>>, x: SchoolLesson<D>)
    ensures
        insert_by_start(sorted, x).len() == sorted.len() + 1,
    decreases sorted.len(),
{
    if sorted.len() > 0 && sorted.last().started_tick > x.started_tick {
        lemma_insert_len(sorted.drop_last(), x);
    }
}

/// Inserting at `j`, the first place from the back after which every
/// lesson started later, is what [`insert_by_start`] does.
proof fn lemma_insert_at<D>(sorted: Seq<SchoolLesson<D>>, x: SchoolLesson<D>, j: int)
    requires
        0 <= j <= sorted.len(),
        j == 0 || sorted[j - 1].started_tick <= x.started_tick,
        forall|q: int| j <= q < sorted.len() ==> sorted[q].started_tick > x.started_tick,
    ensures
        insert_by_start(sorted, x) == sorted.insert(j, x),
    decreases sorted.len(),
{
    if sorted.len() == 0 {
        assert(sorted.insert(j, x) =~= seq![x]);
    } else if sorted.last().started_tick <= x.started_tick {
        assert(j == sorted.len());
        assert(sorted.insert(j, x) =~= sorted.push(x));
    } else {
        lemma_insert_at(sorted.drop_last(), x, j);
        assert(sorted.drop_last().insert(j, x).push(sorted.last()) =~= sorted.insert(j, x));
    }
}

proof fn lemma_insert_keeps_order<D>(sorted: Seq<SchoolLesson<D>>, x: SchoolLesson<D>)
    requires
        ordered(sorted),
    ensures
        ordered(insert_by_start(sorted, x)),
    decreases sorted.len(),
{
    if sorted.len() > 0 && sorted.last().started_tick > x.started_tick {
        lemma_insert_keeps_order(sorted.drop_last(), x);
        lemma_insert_len(sorted.drop_last(), x);
        let r = insert_by_start(sorted.drop_last(), x);
        lemma_insert_members(sorted.drop_last(), x);
        assert forall|i: int, j: int| 0 <= i <= j < r.push(sorted.last()).len() implies r.push(
            sorted.last(),
        )[i].started_tick <= r.push(sorted.last())[j].started_tick by {
            if j == r.len() && i < j {
                let e = r[i];
                if e == x {
                } else {
                    let k = choose|k: int| 0 <= k < sorted.drop_last().len() && sorted.drop_last()[k] == e;
                    assert(sorted[k] == e);
                }
            }
        }
    }
}

proof fn lemma_insert_members<D>(sorted: Seq<SchoolLesson<D>>, x: SchoolLesson<D>)
    ensures
        forall|i: int|
            0 <= i < insert_by_start(sorted, x).len() ==> #[trigger] insert_by_start(sorted, x)[i] == x
                || exists|k: int| 0 <= k < sorted.len() && sorted[k] == insert_by_start(sorted, x)[i],
    decreases sorted.len(),
{
    lemma_insert_len(sorted, x);
    if sorted.len() > 0 && sorted.last().started_tick > x.started_tick {
        lemma_insert_members(sorted.drop_last(), x);
        let r = insert_by_start(sorted.drop_last(), x);
        assert forall|i: int| 0 <= i < r.push(sorted.last()).len() implies #[trigger] r.push(
            sorted.last(),
        )[i] == x || exists|k: int| 0 <= k < sorted.len() && sorted[k] == r.push(sorted.last())[i] by {
            if i == r.len() {
                assert(sorted[sorted.len() - 1] == sorted.last());
            } else if r[i] != x {
                let k = choose|k: int| 0 <= k < sorted.drop_last().len() && sorted.drop_last()[k] == r[i];
                assert(sorted[k] == r[i]);
            }
        }
    } else if sorted.len() > 0 {
        assert forall|i: int| 0 <= i < sorted.push(x).len() implies #[trigger] sorted.push(x)[i] == x
            || exists|k: int| 0 <= k < sorted.len() && sorted[k] == sorted.push(x)[i] by {
            if i < sorted.len() {
                assert(sorted[i] == sorted.push(x)[i]);
            }
        }
    }
}

/// The window is in start order.
pub proof fn lemma_by_start_is_ordered<D>(s: Seq<SchoolLesson<D>>)
    ensures
        ordered(by_start(s)),
    decreases s.len(),
{
    if s.len() > 0 {
        lemma_by_start_is_ordered(s.drop_last());
        lemma_insert_keeps_order(by_start(s.drop_last()), s.last());
    }
}

// ---------------------------------------------------------------- exec

/// Trims the lessons to the school's window for beat `tick`.
pub fn trim_school_lessons<D>(lessons: &mut Vec<SchoolLesson<D>>, tick: u64)
    ensures
        final(lessons)@ == lesson_window(old(lessons)@, tick),
{
    let mut rest: Vec<SchoolLesson<D>> = Vec::new();
    std::mem::swap(&mut rest, lessons);
    let ghost all = rest@;
    let n = rest.len();
    let mut sorted: Vec<SchoolLesson<D>> = Vec::new();
    let mut k: usize = 0;
    while k < n
        invariant
            n == all.len(),
            k <= n,
            rest@ == all.subrange(k as int, n as int),
            sorted@ == by_start(running(all.take(k as int), tick)),
        decreases n - k,
    {
        assert(all.take(k + 1).drop_last() =~= all.take(k as int));
        let x = rest.remove(0);
        assert(rest@ =~= all.subrange(k + 1, n as int));
        if x.expires_tick > tick {
            let ghost before = sorted@;
            assert(running(all.take(k + 1), tick).drop_last() =~= running(all.take(k as int), tick));
            let mut j = sorted.len();
            while j > 0 && sorted[j - 1].started_tick > x.started_tick
                invariant
                    j <= sorted@.len(),
                    sorted@ == before,
                    forall|q: int| j <= q < sorted@.len() ==> sorted@[q].started_tick > x.started_tick,
                decreases j,
            {
                j = j - 1;
            }
            proof {
                lemma_insert_at(before, x, j as int);
            }
            sorted.insert(j, x);
        }
        k = k + 1;
    }
    assert(all.take(n as int) =~= all);
    retain_recent(&mut sorted, MAX_SCHOOL_LESSONS);
    *lessons = sorted;
}

/// Whether the school can take another lesson on beat `tick`, once the
/// window is trimmed.
pub fn school_lesson_room<D>(lessons: &mut Vec<SchoolLesson<D>>, tick: u64) -> (r: bool)
    ensures
        final(lessons)@ == lesson_window(old(lessons)@, tick),
        r == (final(lessons)@.len() < MAX_SCHOOL_LESSONS),
{
    trim_school_lessons(lessons, tick);
    lessons.len() < MAX_SCHOOL_LESSONS
}

// ---------------------------------------------------------------- laws

/// The window holds no expired lesson and at most the school's bound.
pub proof fn lemma_window_is_bounded_and_current<D>(s: Seq<SchoolLesson<D>>, tick: u64)
    ensures
        lesson_window(s, tick).len() <= MAX_SCHOOL_LESSONS,
        forall|i: int| 0 <= i < lesson_window(s, tick).len() ==> #[trigger] lesson_window(s, tick)[i].expires_tick > tick,
        ordered(lesson_window(s, tick)),
{
    lemma_running_current(s, tick);
    lemma_by_start_members(running(s, tick));
    lemma_by_start_is_ordered(running(s, tick));
    let b = by_start(running(s, tick));
    let w = lesson_window(s, tick);
    assert forall|i: int| 0 <= i < w.len() implies #[trigger] w[i].expires_tick > tick by {
        let off = if b.len() > MAX_SCHOOL_LESSONS { b.len() - MAX_SCHOOL_LESSONS } else { 0 };
        assert(w[i] == b[i + off]);
        let k = choose|k: int| 0 <= k < running(s, tick).len() && running(s, tick)[k] == b[i + off];
    }
    assert forall|i: int, j: int| 0 <= i <= j < w.len() implies w[i].started_tick <= w[j].started_tick by {
        let off = if b.len() > MAX_SCHOOL_LESSONS { b.len() - MAX_SCHOOL_LESSONS } else { 0 };
        assert(w[i] == b[i + off]);
        assert(w[j] == b[j + off]);
    }
}

proof fn lemma_running_current<D>(s: Seq<SchoolLesson<D>>, tick: u64)
    ensures
        forall|i: int| 0 <= i < running(s, tick).len() ==> #[trigger] running(s, tick)[i].expires_tick > tick,
    decreases s.len(),
{
    if s.len() > 0 {
        lemma_running_current(s.drop_last(), tick);
        let rest = running(s.drop_last(), tick);
        if s.last().expires_tick > tick {
            assert forall|i: int| 0 <= i < rest.push(s.last()).len() implies #[trigger] rest.push(s.last())[i].expires_tick > tick by {
                if i < rest.len() {
                    assert(rest.push(s.last())[i] == rest[i]);
                }
            }
        }
    }
}

proof fn lemma_by_start_members<D>(s: Seq<SchoolLesson<D>>)
    ensures
        by_start(s).len() == s.len(),
        forall|i: int| 0 <= i < by_start(s).len() ==> exists|k: int| 0 <= k < s.len() && s[k] == #[trigger] by_start(s)[i],
    decreases s.len(),
{
    if s.len() > 0 {
        lemma_by_start_members(s.drop_last());
        lemma_insert_len(by_start(s.drop_last()), s.last());
        lemma_insert_members(by_start(s.drop_last()), s.last());
        let b = by_start(s);
        assert forall|i: int| 0 <= i < b.len() implies exists|k: int| 0 <= k < s.len() && s[k] == #[trigger] b[i] by {
            if b[i] == s.last() {
                assert(s[s.len() - 1] == s.last());
            } else {
                let k1 = choose|k: int| 0 <= k < by_start(s.drop_last()).len() && by_start(s.drop_last())[k] == b[i];
                let k2 = choose|k: int| 0 <= k < s.drop_last().len() && s.drop_last()[k] == by_start(s.drop_last())[k1];
                assert(s[k2] == b[i]);
            }
        }
    }
}

} // verus!
