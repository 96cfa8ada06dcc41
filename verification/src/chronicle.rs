//! The settlement chronicle: numbered entries whose older part moves to an
//! archive, and a summary of what happened since a cursor: its span, the
//! kinds of entry seen (first twelve, each once) and the last three
//! titles.
use crate::events::{EventLog, EventRecord};
use crate::ledger::views;
use crate::retention::{archive_excess, newest};
use crate::text::{contains_text, decimal, has_infix, numbered};
use std::collections::VecDeque;
use vstd::prelude::*;
use vstd::string::*;

verus! {

/// The most entries the live chronicle keeps; older ones move to the
/// archive.
pub const MAX_CHRONICLE: usize = 64;

/// The most kinds a summary lists.
pub const MAX_CHRONICLE_SUMMARY_KINDS: usize = 12;

/// The most recent titles a summary highlights.
pub const SUMMARY_HIGHLIGHTS: usize = 3;

#[derive(Debug, Clone)]
pub struct ChronicleEntry {
    pub event_id: String,
    pub kind: String,
    pub title: String,
    pub text: String,
    pub created_tick: u64,
    pub cursor: u64,
}

#[derive(Debug, Clone)]
pub struct ChronicleSummary {
    pub from_tick: u64,
    pub to_tick: u64,
    pub from_cursor: u64,
    pub to_cursor: u64,
    pub entry_count: u32,
    pub kinds: Vec<String>,
    pub highlights: Vec<String>,
}

// ---------------------------------------------------------------- specs

/// The entries after cursor `since`, in order.
pub open spec fn after(s: Seq<ChronicleEntry>, since: u64) -> Seq<ChronicleEntry>
    decreases s.len(),
{
    if s.len() == 0 {
        Seq::empty()
    } else {
        let rest = after(s.drop_last(), since);
        if s.last().cursor > since { rest.push(s.last()) } else { rest }
    }
}

/// The first `max` distinct kinds of the entries, in order.
pub open spec fn kinds_of(s: Seq<ChronicleEntry>, max: nat) -> Seq<Seq<char>>
    decreases s.len(),
{
    if s.len() == 0 {
        Seq::empty()
    } else {
        let k = kinds_of(s.drop_last(), max);
        if k.len() < max && !k.contains(s.last().kind@) { k.push(s.last().kind@) } else { k }
    }
}

pub open spec fn titles(s: Seq<ChronicleEntry>) -> Seq<Seq<char>> {
    s.map_values(|e: ChronicleEntry| e.title@)
}

/// The summary of the entries after `since`: `None` when there are none.
pub open spec fn summarises(r: Option<ChronicleSummary>, s: Seq<ChronicleEntry>, since: u64) -> bool {
    let a = after(s, since);
    if a.len() == 0 {
        r is None
    } else {
        r matches Some(m) && {
            &&& m.from_tick == a[0].created_tick
            &&& m.to_tick == a.last().created_tick
            &&& m.from_cursor == a[0].cursor
            &&& m.to_cursor == a.last().cursor
            &&& m.entry_count == if a.len() > u32::MAX { u32::MAX as int } else { a.len() as int }
            &&& views(m.kinds@) == kinds_of(a, MAX_CHRONICLE_SUMMARY_KINDS as nat)
            &&& views(m.highlights@) == titles(newest(a, SUMMARY_HIGHLIGHTS as nat))
        }
    }
}

// ---------------------------------------------------------------- exec

fn contains_kind(kinds: &Vec<String>, kind: &String) -> (r: bool)
    ensures
        r == views(kinds@).contains(kind@),
{
    crate::ledger::contains_name(kinds, kind)
}

/// The summary of the entries after cursor `since`.
pub fn chronicle_summary(entries: &Vec<ChronicleEntry>, since: u64) -> (r: Option<ChronicleSummary>)
    ensures
        summarises(r, entries@, since),
{
    let mut count: u64 = 0;
    let mut first: Option<(u64, u64)> = None;
    let mut last: (u64, u64) = (0, 0);
    let mut kinds: Vec<String> = Vec::new();
    let mut highlights: Vec<String> = Vec::new();
    let n = entries.len();
    for i in 0..n
        invariant
            n == entries@.len(),
            count == after(entries@.take(i as int), since).len(),
            count <= i,
            after(entries@.take(i as int), since).len() == 0 <==> first is None,
            first matches Some(f) ==> f == (after(entries@.take(i as int), since)[0].created_tick, after(entries@.take(i as int), since)[0].cursor),
            first is Some ==> last == (after(entries@.take(i as int), since).last().created_tick, after(entries@.take(i as int), since).last().cursor),
            views(kinds@) == kinds_of(after(entries@.take(i as int), since), MAX_CHRONICLE_SUMMARY_KINDS as nat),
            views(highlights@) == titles(newest(after(entries@.take(i as int), since), SUMMARY_HIGHLIGHTS as nat)),
            highlights@.len() <= SUMMARY_HIGHLIGHTS,
    {
        let ghost prev = after(entries@.take(i as int), since);
        assert(entries@.take(i + 1).drop_last() =~= entries@.take(i as int));
        let e = &entries[i];
        if e.cursor > since {
            let ghost a = prev.push(entries@[i as int]);
            assert(after(entries@.take(i + 1), since) == a);
            assert(a.drop_last() =~= prev);
            count = count + 1;
            if first.is_none() {
                first = Some((e.created_tick, e.cursor));
            }
            last = (e.created_tick, e.cursor);
            if kinds.len() < MAX_CHRONICLE_SUMMARY_KINDS && !contains_kind(&kinds, &e.kind) {
                let ghost kb = kinds@;
                kinds.push(e.kind.clone());
                assert(views(kinds@) =~= views(kb).push(e.kind@));
            }
            let ghost hb = highlights@;
            highlights.push(e.title.clone());
            assert(views(highlights@) =~= views(hb).push(e.title@));
            if highlights.len() > SUMMARY_HIGHLIGHTS {
                let ghost hp = highlights@;
                highlights.remove(0);
                assert(highlights@ =~= hp.subrange(1, hp.len() as int));
                assert(views(highlights@) =~= views(hp).subrange(1, hp.len() as int));
            }
            proof {
                let np = newest(prev, SUMMARY_HIGHLIGHTS as nat);
                let na = newest(a, SUMMARY_HIGHLIGHTS as nat);
                if prev.len() >= SUMMARY_HIGHLIGHTS {
                    assert(na =~= np.subrange(1, np.len() as int).push(a.last()));
                    assert(titles(na) =~= titles(np).subrange(1, titles(np).len() as int).push(a.last().title@));
                } else {
                    assert(na =~= np.push(a.last()));
                    assert(titles(na) =~= titles(np).push(a.last().title@));
                }
            }
        }
    }
    assert(entries@.take(n as int) =~= entries@);
    match first {
        None => None,
        Some((from_tick, from_cursor)) => Some(
            ChronicleSummary {
                from_tick,
                to_tick: last.0,
                from_cursor,
                to_cursor: last.1,
                entry_count: if count > 0xffff_ffff { 0xffff_ffff } else { count as u32 },
                kinds,
                highlights,
            },
        ),
    }
}

/// The entries after cursor `since`, copied out in order.
pub fn entries_after(entries: &VecDeque<ChronicleEntry>, since: u64) -> (r: Vec<ChronicleEntry>)
    ensures
        r@.len() == after(entries@, since).len(),
        forall|i: int| 0 <= i < r@.len() ==> same_entry(#[trigger] r@[i], after(entries@, since)[i]),
{
    let mut r: Vec<ChronicleEntry> = Vec::new();
    let n = entries.len();
    for i in 0..n
        invariant
            n == entries@.len(),
            r@.len() == after(entries@.take(i as int), since).len(),
            forall|q: int| 0 <= q < r@.len() ==> same_entry(#[trigger] r@[q], after(entries@.take(i as int), since)[q]),
    {
        assert(entries@.take(i + 1).drop_last() =~= entries@.take(i as int));
        let e = &entries[i];
        if e.cursor > since {
            r.push(copy_entry(e));
        }
    }
    assert(entries@.take(n as int) =~= entries@);
    r
}

/// `a` and `b` hold the same entry.
pub open spec fn same_entry(a: ChronicleEntry, b: ChronicleEntry) -> bool {
    a == b
}

/// An exact copy of an entry.
pub fn copy_entry(e: &ChronicleEntry) -> (r: ChronicleEntry)
    ensures
        r == *e,
{
    ChronicleEntry {
        event_id: e.event_id.clone(),
        kind: e.kind.clone(),
        title: e.title.clone(),
        text: e.text.clone(),
        created_tick: e.created_tick,
        cursor: e.cursor,
    }
}

/// A new chronicle entry, numbered `chronicle-N` by `*next_event_id`,
/// which then moves on (saturating).
pub fn new_entry(next_event_id: &mut u64, kind: &str, title: &str, text: &str, tick: u64) -> (e: ChronicleEntry)
    ensures
        e.event_id@ == "chronicle-"@ + decimal(*old(next_event_id) as nat),
        *final(next_event_id) == if *old(next_event_id) == u64::MAX { u64::MAX } else { (*old(next_event_id) + 1) as u64 },
        e.kind@ == kind@,
        e.title@ == title@,
        e.text@ == text@,
        e.created_tick == tick,
        e.cursor == 0,
{
    let id = numbered("chronicle-", *next_event_id);
    *next_event_id = next_event_id.saturating_add(1);
    ChronicleEntry {
        event_id: id,
        kind: kind.to_owned(),
        title: title.to_owned(),
        text: text.to_owned(),
        created_tick: tick,
        cursor: 0,
    }
}

/// Files an entry that was published at `cursor` into the live chronicle,
/// moving the oldest live entries past `max_live` to the archive.
pub fn file_entry(
    live: &mut VecDeque<ChronicleEntry>,
    archive: &mut Vec<ChronicleEntry>,
    entry: ChronicleEntry,
    cursor: u64,
    max_live: usize,
)
    ensures
        ({
            let e = ChronicleEntry { cursor, ..entry };
            &&& final(live)@ == newest(old(live)@.push(e), max_live as nat)
            &&& final(archive)@ + final(live)@ == old(archive)@ + old(live)@.push(e)
        }),
{
    let mut e = entry;
    e.cursor = cursor;
    live.push_back(e);
    archive_excess(live, archive, max_live);
}

/// What an accepted command writes into the chronicle.
#[derive(Debug, Clone)]
pub struct EntryText {
    pub kind: String,
    pub title: String,
    pub text: String,
}

/// The entry text made of three literals.
pub fn entry_text(kind: &str, title: &str, text: &str) -> (t: EntryText)
    ensures
        t.kind@ == kind@,
        t.title@ == title@,
        t.text@ == text@,
{
    EntryText { kind: kind.to_owned(), title: title.to_owned(), text: text.to_owned() }
}

/// `t` reads `kind`, `title` and `text`.
pub open spec fn reads(t: EntryText, kind: Seq<char>, title: Seq<char>, text: Seq<char>) -> bool {
    t.kind@ == kind && t.title@ == title && t.text@ == text
}

/// The settlement chronicle: the live entries, the archive that older ones
/// move to, and the number the next entry takes.
#[derive(Debug, Clone)]
pub struct Chronicle {
    pub live: VecDeque<ChronicleEntry>,
    pub archive: Vec<ChronicleEntry>,
    pub next_event_id: u64,
    pub max_live: usize,
}

/// Writes an entry of `kind` into the chronicle on beat `tick`: it takes
/// the next chronicle number, is published on the event stream as the event
/// `announce` makes of it, carries that event's cursor, and joins the live
/// chronicle, whose oldest entries move to the archive past its bound.
pub fn record<E, F: Fn(ChronicleEntry) -> E>(
    chronicle: &mut Chronicle,
    log: &mut EventLog<E>,
    announce: F,
    kind: &str,
    title: &str,
    text: &str,
    tick: u64,
) -> (e: ChronicleEntry)
    requires
        forall|x: ChronicleEntry| call_requires(announce, (x,)),
    ensures
        e.event_id@ == "chronicle-"@ + decimal(old(chronicle).next_event_id as nat),
        e.kind@ == kind@,
        e.title@ == title@,
        e.text@ == text@,
        e.created_tick == tick,
        e.cursor == EventLog::<E>::next_cursor(old(log).cursor),
        final(chronicle).next_event_id == EventLog::<E>::next_cursor(old(chronicle).next_event_id),
        final(chronicle).max_live == old(chronicle).max_live,
        final(chronicle).live@ == newest(old(chronicle).live@.push(e), old(chronicle).max_live as nat),
        final(chronicle).archive@ + final(chronicle).live@ == old(chronicle).archive@ + old(chronicle).live@.push(e),
        final(log).cursor == e.cursor,
        final(log).max_events == old(log).max_events,
        exists|ev: E|
            call_ensures(announce, (e,), ev) && #[trigger] final(log).events@ == newest(
                old(log).events@.push(EventRecord { cursor: e.cursor, event: ev }),
                old(log).max_events as nat,
            ),
{
    let mut entry = new_entry(&mut chronicle.next_event_id, kind, title, text, tick);
    entry.cursor = log.cursor.saturating_add(1);
    let published = copy_entry(&entry);
    let event = announce(published);
    let c = log.push_event(event);
    assert(c == entry.cursor);
    let shown = copy_entry(&entry);
    let cursor = entry.cursor;
    file_entry(&mut chronicle.live, &mut chronicle.archive, entry, cursor, chronicle.max_live);
    assert(ChronicleEntry { cursor, ..shown } == shown);
    shown
}

/// Writes the entry text `t` into the chronicle on beat `tick`, as
/// [`record`] does.
pub fn record_entry<E, F: Fn(ChronicleEntry) -> E>(
    chronicle: &mut Chronicle,
    log: &mut EventLog<E>,
    announce: F,
    t: &EntryText,
    tick: u64,
) -> (e: ChronicleEntry)
    requires
        forall|x: ChronicleEntry| call_requires(announce, (x,)),
    ensures
        e.event_id@ == "chronicle-"@ + decimal(old(chronicle).next_event_id as nat),
        reads(EntryText { kind: e.kind, title: e.title, text: e.text }, t.kind@, t.title@, t.text@),
        e.created_tick == tick,
        e.cursor == EventLog::<E>::next_cursor(old(log).cursor),
        final(chronicle).next_event_id == EventLog::<E>::next_cursor(old(chronicle).next_event_id),
        final(chronicle).max_live == old(chronicle).max_live,
        final(chronicle).live@ == newest(old(chronicle).live@.push(e), old(chronicle).max_live as nat),
        final(chronicle).archive@ + final(chronicle).live@ == old(chronicle).archive@ + old(chronicle).live@.push(e),
        final(log).cursor == e.cursor,
        final(log).max_events == old(log).max_events,
        exists|ev: E|
            call_ensures(announce, (e,), ev) && #[trigger] final(log).events@ == newest(
                old(log).events@.push(EventRecord { cursor: e.cursor, event: ev }),
                old(log).max_events as nat,
            ),
{
    record(chronicle, log, announce, t.kind.as_str(), t.title.as_str(), t.text.as_str(), tick)
}

/// Recording an accepted command adds exactly one entry to the chronicle,
/// at its end, and loses none: whatever moves to the archive, the archive
/// and the live entries together read as before, followed by the new one.
pub proof fn lemma_record_appends_one(
    archive: Seq<ChronicleEntry>,
    live: Seq<ChronicleEntry>,
    archive2: Seq<ChronicleEntry>,
    live2: Seq<ChronicleEntry>,
    e: ChronicleEntry,
)
    requires
        archive2 + live2 == archive + live.push(e),
    ensures
        (archive2 + live2).len() == archive.len() + live.len() + 1,
        (archive2 + live2).last() == e,
        (archive2 + live2).drop_last() == archive + live,
{
    assert((archive + live.push(e)).drop_last() =~= archive + live);
}

// ---------------------------------------------------------------- search

/// An entry a search for `query` finds: after `since`, with the query in
/// its title or its text.
pub open spec fn found_by(e: ChronicleEntry, query: Seq<char>, since: u64) -> bool {
    e.cursor > since && (has_infix(e.title@, query) || has_infix(e.text@, query))
}

/// The entries of `s` a search finds, in order.
pub open spec fn search_hits(s: Seq<ChronicleEntry>, query: Seq<char>, since: u64) -> Seq<ChronicleEntry>
    decreases s.len(),
{
    if s.len() == 0 {
        Seq::empty()
    } else {
        let rest = search_hits(s.drop_last(), query, since);
        if found_by(s.last(), query, since) { rest.push(s.last()) } else { rest }
    }
}

proof fn lemma_hits_after(s: Seq<ChronicleEntry>, query: Seq<char>, since: u64)
    ensures
        after(search_hits(s, query, since), since) == search_hits(s, query, since),
    decreases s.len(),
{
    if s.len() > 0 {
        lemma_hits_after(s.drop_last(), query, since);
        let rest = search_hits(s.drop_last(), query, since);
        if found_by(s.last(), query, since) {
            assert(rest.push(s.last()).drop_last() =~= rest);
        }
    }
}

fn collect_hits(
    from: &Vec<ChronicleEntry>,
    query: &str,
    since: u64,
    hits: &mut Vec<ChronicleEntry>,
)
    ensures
        final(hits)@ == old(hits)@ + search_hits(from@, query@, since),
{
    let ghost start = hits@;
    let n = from.len();
    for i in 0..n
        invariant
            n == from@.len(),
            hits@ == start + search_hits(from@.take(i as int), query@, since),
    {
        assert(from@.take(i + 1).drop_last() =~= from@.take(i as int));
        let e = &from[i];
        if e.cursor > since && (contains_text(e.title.as_str(), query) || contains_text(e.text.as_str(), query)) {
            let ghost before = hits@;
            hits.push(copy_entry(e));
            assert(hits@ =~= before.push(from@[i as int]));
        }
    }
    assert(from@.take(n as int) =~= from@);
}

/// Searches the whole chronicle, archive first, for entries after `since`
/// whose title or text holds `query`; returns them in order with their
/// summary.
pub fn chronicle_search(
    archive: &Vec<ChronicleEntry>,
    live: &VecDeque<ChronicleEntry>,
    query: &str,
    since: u64,
) -> (r: (Vec<ChronicleEntry>, Option<ChronicleSummary>))
    ensures
        r.0@ == search_hits(archive@ + live@, query@, since),
        summarises(r.1, r.0@, since),
{
    let mut hits: Vec<ChronicleEntry> = Vec::new();
    collect_hits(archive, query, since, &mut hits);
    let mut rest: Vec<ChronicleEntry> = Vec::new();
    let n = live.len();
    for i in 0..n
        invariant
            n == live@.len(),
            rest@ == live@.take(i as int),
    {
        rest.push(copy_entry(&live[i]));
        assert(rest@ =~= live@.take(i + 1));
    }
    assert(rest@ =~= live@);
    collect_hits(&rest, query, since, &mut hits);
    proof {
        lemma_hits_concat(archive@, live@, query@, since);
        lemma_hits_after(archive@ + live@, query@, since);
    }
    let summary = chronicle_summary(&hits, since);
    (hits, summary)
}

proof fn lemma_hits_concat(a: Seq<ChronicleEntry>, b: Seq<ChronicleEntry>, query: Seq<char>, since: u64)
    ensures
        search_hits(a + b, query, since) == search_hits(a, query, since) + search_hits(b, query, since),
    decreases b.len(),
{
    if b.len() == 0 {
        assert(a + b =~= a);
        assert(search_hits(a, query, since) + search_hits(b, query, since) =~= search_hits(a, query, since));
    } else {
        lemma_hits_concat(a, b.drop_last(), query, since);
        assert((a + b).drop_last() =~= a + b.drop_last());
        assert((a + b).last() == b.last());
        let ha = search_hits(a, query, since);
        let hb = search_hits(b.drop_last(), query, since);
        if found_by(b.last(), query, since) {
            assert(ha + hb.push(b.last()) =~= (ha + hb).push(b.last()));
        }
    }
}

// ---------------------------------------------------------------- laws

/// A summary's span is ordered whenever the chronicle's cursors are: it
/// starts after the asked cursor and ends no earlier than it starts.
pub proof fn lemma_summary_span_ordered(s: Seq<ChronicleEntry>, since: u64, r: Option<ChronicleSummary>)
    requires
        summarises(r, s, since),
        forall|i: int, j: int| 0 <= i <= j < s.len() ==> s[i].cursor <= s[j].cursor,
    ensures
        r matches Some(m) ==> since < m.from_cursor <= m.to_cursor,
{
    lemma_after_props(s, since);
}

proof fn lemma_after_props(s: Seq<ChronicleEntry>, since: u64)
    ensures
        forall|q: int| 0 <= q < after(s, since).len() ==> #[trigger] after(s, since)[q].cursor > since,
        forall|q: int| 0 <= q < after(s, since).len() ==> exists|p: int| 0 <= p < s.len() && s[p] == #[trigger] after(s, since)[q],
        (forall|i: int, j: int| 0 <= i <= j < s.len() ==> s[i].cursor <= s[j].cursor) ==> (forall|i: int, j: int|
            0 <= i <= j < after(s, since).len() ==> after(s, since)[i].cursor <= after(s, since)[j].cursor),
    decreases s.len(),
{
    if s.len() > 0 {
        lemma_after_props(s.drop_last(), since);
        let rest = after(s.drop_last(), since);
        let a = after(s, since);
        if s.last().cursor > since {
            assert forall|q: int| 0 <= q < a.len() implies #[trigger] a[q].cursor > since by {
                if q < rest.len() {
                    assert(a[q] == rest[q]);
                }
            }
            assert forall|q: int| 0 <= q < a.len() implies exists|p: int| 0 <= p < s.len() && s[p] == #[trigger] a[q] by {
                if q < rest.len() {
                    let p = choose|p: int| 0 <= p < s.drop_last().len() && s.drop_last()[p] == rest[q];
                    assert(s[p] == a[q]);
                } else {
                    assert(s[s.len() - 1] == a[q]);
                }
            }
            if forall|i: int, j: int| 0 <= i <= j < s.len() ==> s[i].cursor <= s[j].cursor {
                assert forall|i: int, j: int| 0 <= i <= j < a.len() implies a[i].cursor <= a[j].cursor by {
                    if j < rest.len() {
                        assert(a[i] == rest[i] && a[j] == rest[j]);
                    } else if i < rest.len() {
                        let p = choose|p: int| 0 <= p < s.drop_last().len() && s.drop_last()[p] == rest[i];
                        assert(s[p] == a[i]);
                        assert(s[s.len() - 1] == a[j]);
                    }
                }
            }
        } else {
            assert forall|q: int| 0 <= q < a.len() implies exists|p: int| 0 <= p < s.len() && s[p] == #[trigger] a[q] by {
                let p = choose|p: int| 0 <= p < s.drop_last().len() && s.drop_last()[p] == rest[q];
                assert(s[p] == a[q]);
            }
        }
    }
}

} // verus!
