//! The world event stream: every change gets the next cursor, the stream
//! keeps a bounded window of the newest records, and clients resume from a
//! cursor that must lie inside that window.
use vstd::prelude::*;
use vstd::string::*;
use std::collections::VecDeque;
use crate::errors::RepositoryError;
use crate::retention::{newest, trim_back};

verus! {

/// One event and the cursor it was published at.
#[derive(Debug, Clone)]
pub struct EventRecord<E> {
    pub cursor: u64,
    pub event: E,
}

/// The bounded event stream of the world.
#[derive(Debug, Clone)]
pub struct EventLog<E> {
    pub cursor: u64,
    pub max_events: usize,
    pub events: VecDeque<EventRecord<E>>,
}

/// The message of a refused cursor, built from the stream's name.
pub open spec fn cursor_message(prefix: Seq<char>, stream: Seq<char>, suffix: Seq<char>) -> Seq<
    char,
> {
    prefix + stream + suffix
}

impl<E> EventLog<E> {
    /// An empty stream that retains at most `max_events` records.
    pub fn new(max_events: usize) -> (r: Self)
        ensures
            r.cursor == 0,
            r.max_events == max_events,
            r.events@.len() == 0,
    {
        EventLog { cursor: 0, max_events, events: VecDeque::new() }
    }

    /// The cursor after `cursor`, held at the numeric ceiling.
    pub open spec fn next_cursor(cursor: u64) -> u64 {
        if cursor == u64::MAX {
            u64::MAX
        } else {
            (cursor + 1) as u64
        }
    }

    /// Publishes `event` at the next cursor and drops the oldest records
    /// beyond the retained window; returns the new cursor.
    pub fn push_event(&mut self, event: E) -> (c: u64)
        ensures
            c == Self::next_cursor(old(self).cursor),
            final(self).cursor == c,
            final(self).max_events == old(self).max_events,
            final(self).events@ == newest(
                old(self).events@.push(EventRecord { cursor: c, event }),
                old(self).max_events as nat,
            ),
    {
        self.cursor = self.cursor.saturating_add(1);
        let c = self.cursor;
        self.events.push_back(EventRecord { cursor: c, event });
        trim_back(&mut self.events, self.max_events);
        c
    }

    /// A client at cursor `since` is ahead of the world.
    pub open spec fn cursor_ahead(self, since: u64) -> bool {
        since > self.cursor
    }

    /// A client at cursor `since` missed records that are no longer
    /// retained: the oldest retained record is more than one step past it.
    pub open spec fn cursor_stale(self, since: u64) -> bool {
        self.events@.len() > 0 && (if since == u64::MAX {
            u64::MAX
        } else {
            (since + 1) as u64
        }) < self.events@[0].cursor
    }

    /// Checks that a client can resume the `stream` from cursor `since`.
    pub fn validate_event_cursor(&self, since: u64, stream: &str) -> (r: Result<(), RepositoryError>)
        ensures
            self.cursor_ahead(since) ==> (r matches Err(e) && e.spec_is(
                409,
                "cursor_ahead"@,
                cursor_message("The "@, stream@, " event cursor is ahead of the settlement."@),
            )),
            !self.cursor_ahead(since) && self.cursor_stale(since) ==> (r matches Err(e)
                && e.spec_is(
                409,
                "cursor_stale"@,
                cursor_message(
                    "The "@,
                    stream@,
                    " event history is no longer retained; reload authoritative state."@,
                ),
            )),
            !self.cursor_ahead(since) && !self.cursor_stale(since) ==> r is Ok,
    {
        if since > self.cursor {
            let message = String::from_str("The ").concat(stream).concat(
                " event cursor is ahead of the settlement.",
            );
            return Err(RepositoryError::with_message(409, "cursor_ahead", message));
        }
        if self.events.len() > 0 && since.saturating_add(1) < self.events[0].cursor {
            let message = String::from_str("The ").concat(stream).concat(
                " event history is no longer retained; reload authoritative state.",
            );
            return Err(RepositoryError::with_message(409, "cursor_stale", message));
        }
        Ok(())
    }
}

/// A notice on the tavern board, published on the event stream.
#[derive(Debug, Clone)]
pub struct TavernNotice {
    pub notice_id: u64,
    pub kind: String,
    pub text: String,
    pub created_tick: u64,
    pub cursor: u64,
}

/// The tavern noticeboard: its newest notices and the number the next one
/// takes.
#[derive(Debug, Clone)]
pub struct NoticeBoard {
    pub notices: VecDeque<TavernNotice>,
    pub next_notice: u64,
    pub max_notices: usize,
}

fn copy_notice(n: &TavernNotice) -> (r: TavernNotice)
    ensures
        r == *n,
{
    TavernNotice {
        notice_id: n.notice_id,
        kind: n.kind.clone(),
        text: n.text.clone(),
        created_tick: n.created_tick,
        cursor: n.cursor,
    }
}

/// Posts a notice of `kind` on beat `tick`: it takes the board's next
/// number, is published on the event stream as the event `announce` makes
/// of it, carries that event's cursor, and joins the board, which keeps its
/// newest notices.
pub fn add_notice<E, F: Fn(TavernNotice) -> E>(
    board: &mut NoticeBoard,
    log: &mut EventLog<E>,
    announce: F,
    kind: &str,
    text: &str,
    tick: u64,
) -> (n: TavernNotice)
    requires
        forall|x: TavernNotice| call_requires(announce, (x,)),
    ensures
        n.notice_id == old(board).next_notice,
        n.kind@ == kind@,
        n.text@ == text@,
        n.created_tick == tick,
        n.cursor == EventLog::<E>::next_cursor(old(log).cursor),
        final(board).next_notice == EventLog::<E>::next_cursor(old(board).next_notice),
        final(board).max_notices == old(board).max_notices,
        final(board).notices@ == newest(old(board).notices@.push(n), old(board).max_notices as nat),
        final(log).cursor == n.cursor,
        final(log).max_events == old(log).max_events,
        exists|e: E|
            call_ensures(announce, (n,), e) && #[trigger] final(log).events@ == newest(
                old(log).events@.push(EventRecord { cursor: n.cursor, event: e }),
                old(log).max_events as nat,
            ),
{
    let id = board.next_notice;
    board.next_notice = board.next_notice.saturating_add(1);
    let notice = TavernNotice {
        notice_id: id,
        kind: kind.to_owned(),
        text: text.to_owned(),
        created_tick: tick,
        cursor: log.cursor.saturating_add(1),
    };
    let published = copy_notice(&notice);
    let event = announce(published);
    let c = log.push_event(event);
    assert(c == notice.cursor);
    let shown = copy_notice(&notice);
    board.notices.push_back(notice);
    trim_back(&mut board.notices, board.max_notices);
    shown
}

/// Regional events a client at cursor `since` has not seen.
pub open spec fn unseen<E>(events: Seq<EventRecord<E>>, since: u64) -> spec_fn(int) -> bool {
    |k: int| events[k].cursor > since
}

/// The positions, in order, of the regional events published after
/// `since`, for a world whose stream stands at `cursor`; a client ahead of
/// the world is refused.
pub fn regional_events_since<E>(events: &Vec<EventRecord<E>>, since: u64, cursor: u64) -> (r: Result<
    Vec<usize>,
    RepositoryError,
>)
    ensures
        since > cursor ==> (r matches Err(e) && e.spec_is(
            409,
            "cursor_ahead"@,
            "The regional event cursor is ahead of this world."@,
        )),
        since <= cursor ==> (r matches Ok(v) && crate::region::lists_exactly(
            v@,
            events@.len() as int,
            unseen(events@, since),
        )),
{
    if since > cursor {
        return Err(
            RepositoryError::new(409, "cursor_ahead", "The regional event cursor is ahead of this world."),
        );
    }
    let mut v: Vec<usize> = Vec::new();
    let n = events.len();
    for k in 0..n
        invariant
            n == events@.len(),
            crate::region::lists_exactly(v@, k as int, unseen(events@, since)),
    {
        let ghost before = v@;
        if events[k].cursor > since {
            v.push(k);
        }
        proof {
            crate::region::lemma_list_step(before, v@, k as int, unseen(events@, since));
        }
    }
    Ok(v)
}

} // verus!
