//! The path a player's command takes around its decision: the request is
//! checked, a retry is answered from the replay cache, a fresh command is
//! decided, an accepted one is written into the chronicle and published on
//! the event stream, the response is kept for retries, and the outcome is
//! counted.
use crate::chronicle::{Chronicle, ChronicleEntry, EntryText, record_entry};
use crate::claims::{
    ClaimContext, ClaimLifecycleAction, ClaimLifecycleRequest, ClaimLifecycleResponse, ClaimNote,
    LandRegistry, claim_entry, claim_entry_spec, claim_lifecycle, claim_post, copy_claim,
    validate_claim_request,
};
use crate::knowledge::{
    KnowledgeAction, KnowledgeItem, KnowledgeOutcome, KnowledgeRequest, LessonTarget, knowledge_command,
    knowledge_entry, knowledge_entry_spec, knowledge_post, validate_knowledge_request,
};
use crate::errors::{RepositoryError, opt_text, request_id_refused, selector_kept, selector_refused, validate_request_id};
use crate::events::{EventLog, EventRecord};
use crate::replay::{ReplayCache, cached, recorded, settlement_cache_key, settlement_key};
use crate::retention::newest;
use crate::text::decimal;
use vstd::prelude::*;
use vstd::string::*;

verus! {

/// How many commands the world has completed and turned down.
#[derive(Debug, Clone, Copy, PartialEq, Eq, Structural)]
pub struct CommandCounters {
    pub completed: u64,
    pub rejected: u64,
}

pub open spec fn sat_inc(n: u64) -> u64 {
    if n == u64::MAX { u64::MAX } else { (n + 1) as u64 }
}

/// The counters after one more outcome.
pub open spec fn counted(c: CommandCounters, accepted: bool) -> CommandCounters {
    if accepted {
        CommandCounters { completed: sat_inc(c.completed), ..c }
    } else {
        CommandCounters { rejected: sat_inc(c.rejected), ..c }
    }
}

/// Counts one command outcome, held at the numeric ceiling.
pub fn count_outcome(c: &mut CommandCounters, accepted: bool)
    ensures
        *final(c) == counted(*old(c), accepted),
{
    if accepted {
        c.completed = c.completed.saturating_add(1);
    } else {
        c.rejected = c.rejected.saturating_add(1);
    }
}

fn copy_opt(s: &Option<String>) -> (r: Option<String>)
    ensures
        r == *s,
{
    match s {
        Some(s) => Some(s.clone()),
        None => None,
    }
}

/// An exact copy of a land-registry response.
pub fn copy_claim_response(r: &ClaimLifecycleResponse) -> (c: ClaimLifecycleResponse)
    ensures
        c == *r,
{
    ClaimLifecycleResponse {
        accepted: r.accepted,
        claim: match &r.claim {
            Some(x) => Some(copy_claim(x)),
            None => None,
        },
        reason: copy_opt(&r.reason),
        note: r.note,
    }
}

/// The chronicle after `e` is written into it.
pub open spec fn chronicled(c: Chronicle, c2: Chronicle, e: ChronicleEntry) -> bool {
    &&& e.event_id@ == "chronicle-"@ + decimal(c.next_event_id as nat)
    &&& c2.next_event_id == EventLog::<()>::next_cursor(c.next_event_id)
    &&& c2.max_live == c.max_live
    &&& c2.live@ == newest(c.live@.push(e), c.max_live as nat)
    &&& c2.archive@ + c2.live@ == c.archive@ + c.live@.push(e)
}

/// The event stream after `e` is published on it as one of the events
/// `announce` makes.
pub open spec fn published<E, F: Fn(ChronicleEntry) -> E>(l: EventLog<E>, l2: EventLog<E>, announce: F, e: ChronicleEntry) -> bool {
    &&& e.cursor == EventLog::<E>::next_cursor(l.cursor)
    &&& l2.cursor == e.cursor
    &&& l2.max_events == l.max_events
    &&& exists|ev: E|
        call_ensures(announce, (e,), ev) && #[trigger] l2.events@ == newest(
            l.events@.push(EventRecord { cursor: e.cursor, event: ev }),
            l.max_events as nat,
        )
}

/// The outcome of a land-registry command with request id `request_id`.
pub open spec fn claim_run_post<E, F: Fn(ChronicleEntry) -> E>(
    g: LandRegistry,
    g2: LandRegistry,
    cache: Seq<crate::replay::CachedResponse<ClaimLifecycleResponse>>,
    cache2: Seq<crate::replay::CachedResponse<ClaimLifecycleResponse>>,
    ch: Chronicle,
    ch2: Chronicle,
    log: EventLog<E>,
    log2: EventLog<E>,
    announce: F,
    n: CommandCounters,
    n2: CommandCounters,
    ctx: ClaimContext,
    grace_ticks: u64,
    request_id: Seq<char>,
    action: ClaimLifecycleAction,
    claim_id: Option<Seq<char>>,
    target: Option<Seq<char>>,
    r: Result<ClaimLifecycleResponse, RepositoryError>,
) -> bool {
    let key = settlement_key(ctx.actor_id@, request_id);
    let unchanged = g2 == g && cache2 == cache && ch2 == ch && log2 == log && n2 == n;
    if request_id_refused(request_id) {
        &&& r matches Err(e) && e.spec_is(
            400,
            "invalid_request_id"@,
            "Request IDs must contain 1 to 64 characters and no control characters."@,
        )
        &&& unchanged
    } else if selector_refused(claim_id) {
        &&& r matches Err(e) && e.spec_is(
            400,
            "invalid_claim_id"@,
            "A claim selector must be bounded and contain no control characters."@,
        )
        &&& unchanged
    } else if selector_refused(target) {
        &&& r matches Err(e) && e.spec_is(
            400,
            "invalid_target_account_id"@,
            "A target account selector must be bounded and contain no control characters."@,
        )
        &&& unchanged
    } else if cached(cache, key) is Some {
        r == Ok::<ClaimLifecycleResponse, RepositoryError>(cached(cache, key)->0) && unchanged
    } else {
        &&& r matches Ok(resp) && {
            &&& exists|q: ClaimLifecycleRequest|
                #![trigger claim_post(g, g2, ctx, grace_ticks, q, resp)]
                q.action == action && selector_kept(claim_id, q.claim_id) && selector_kept(
                    target,
                    q.target_account_id,
                ) && claim_post(g, g2, ctx, grace_ticks, q, resp)
            &&& recorded(cache, cache2, key, resp, false)
            &&& n2 == counted(n, resp.accepted)
            &&& if resp.accepted && resp.note is Some {
                exists|e: ChronicleEntry|
                    #![trigger chronicled(ch, ch2, e)]
                    chronicled(ch, ch2, e) && published(log, log2, announce, e) && (e.kind@, e.title@, e.text@)
                        == claim_entry_spec(resp.note->0, ctx.actor_name@) && e.created_tick == ctx.tick
            } else {
                ch2 == ch && log2 == log
            }
        }
    }
}

/// Carries out a land-registry command for the actor of `ctx`: the request
/// id and selectors are checked, a retry is answered with the response its
/// first attempt kept, and a fresh command is decided by
/// [`claim_lifecycle`]; an accepted command with a chronicle note is written
/// into the chronicle and published as the event `announce` makes, the
/// response is kept under `phase4:account:request`, and the outcome counted.
pub fn run_claim_command<E, F: Fn(ChronicleEntry) -> E>(
    registry: &mut LandRegistry,
    cache: &mut ReplayCache<ClaimLifecycleResponse>,
    chronicle: &mut Chronicle,
    log: &mut EventLog<E>,
    announce: F,
    counters: &mut CommandCounters,
    ctx: &ClaimContext,
    grace_ticks: u64,
    request_id: &str,
    action: ClaimLifecycleAction,
    claim_id: Option<&str>,
    target_account_id: Option<&str>,
) -> (r: Result<ClaimLifecycleResponse, RepositoryError>)
    requires
        forall|x: ChronicleEntry| call_requires(announce, (x,)),
    ensures
        claim_run_post(
            *old(registry),
            *final(registry),
            old(cache).entries@,
            final(cache).entries@,
            *old(chronicle),
            *final(chronicle),
            *old(log),
            *final(log),
            announce,
            *old(counters),
            *final(counters),
            *ctx,
            grace_ticks,
            request_id@,
            action,
            opt_text(claim_id),
            opt_text(target_account_id),
            r,
        ),
{
    match validate_request_id(request_id) {
        Ok(()) => {},
        Err(e) => return Err(e),
    }
    let request = match validate_claim_request(action, claim_id, target_account_id) {
        Ok(q) => q,
        Err(e) => return Err(e),
    };
    let key = settlement_cache_key(ctx.actor_id.as_str(), request_id);
    match cache.lookup(&key) {
        Some(kept) => {
            return Ok(copy_claim_response(kept));
        },
        None => {},
    }
    let response = claim_lifecycle(registry, ctx, grace_ticks, &request);
    if response.accepted {
        match response.note {
            Some(note) => {
                let text: EntryText = claim_entry(note, ctx.actor_name.as_str());
                let e = record_entry(chronicle, log, announce, &text, ctx.tick);
                proof {
                    assert(chronicled(*old(chronicle), *chronicle, e));
                }
            },
            None => {},
        }
    }
    cache.record(key, copy_claim_response(&response), false);
    count_outcome(counters, response.accepted);
    Ok(response)
}

/// An exact copy of a knowledge response.
pub fn copy_knowledge_outcome(r: &KnowledgeOutcome) -> (c: KnowledgeOutcome)
    ensures
        c == *r,
{
    KnowledgeOutcome {
        accepted: r.accepted,
        message: r.message.clone(),
        reason: copy_opt(&r.reason),
        note: r.note,
    }
}

/// The outcome of a knowledge command with request id `request_id`: an
/// inspection is answered fresh, and neither cached nor counted.
pub open spec fn knowledge_run_post<E, F: Fn(ChronicleEntry) -> E>(
    items: Seq<KnowledgeItem>,
    items2: Seq<KnowledgeItem>,
    known: Seq<String>,
    known2: Seq<String>,
    target: LessonTarget,
    target_known: Seq<String>,
    target_known2: Seq<String>,
    cache: Seq<crate::replay::CachedResponse<KnowledgeOutcome>>,
    cache2: Seq<crate::replay::CachedResponse<KnowledgeOutcome>>,
    ch: Chronicle,
    ch2: Chronicle,
    log: EventLog<E>,
    log2: EventLog<E>,
    announce: F,
    n: CommandCounters,
    n2: CommandCounters,
    actor_id: Seq<char>,
    tick: u64,
    request_id: Seq<char>,
    action: KnowledgeAction,
    knowledge_id: Option<Seq<char>>,
    target_id: Option<Seq<char>>,
    r: Result<KnowledgeOutcome, RepositoryError>,
) -> bool {
    let key = settlement_key(actor_id, request_id);
    let unchanged = items2 == items && known2 == known && target_known2 == target_known && cache2 == cache
        && ch2 == ch && log2 == log && n2 == n;
    let decided = |resp: KnowledgeOutcome|
        exists|q: KnowledgeRequest|
            #![trigger knowledge_post(items, items2, actor_id, known, known2, target, target_known, target_known2, q, resp)]
            q.action == action && selector_kept(knowledge_id, q.knowledge_id) && selector_kept(
                target_id,
                q.target_account_id,
            ) && knowledge_post(items, items2, actor_id, known, known2, target, target_known, target_known2, q, resp);
    if request_id_refused(request_id) {
        &&& r matches Err(e) && e.spec_is(
            400,
            "invalid_request_id"@,
            "Request IDs must contain 1 to 64 characters and no control characters."@,
        )
        &&& unchanged
    } else if selector_refused(knowledge_id) {
        &&& r matches Err(e) && e.spec_is(
            400,
            "invalid_knowledge_id"@,
            "A knowledge selector must be bounded and contain no control characters."@,
        )
        &&& unchanged
    } else if selector_refused(target_id) {
        &&& r matches Err(e) && e.spec_is(
            400,
            "invalid_target_account_id"@,
            "A target account selector must be bounded and contain no control characters."@,
        )
        &&& unchanged
    } else if action == KnowledgeAction::Inspect {
        &&& r matches Ok(resp) && decided(resp)
        &&& cache2 == cache && ch2 == ch && log2 == log && n2 == n
    } else if cached(cache, key) is Some {
        r == Ok::<KnowledgeOutcome, RepositoryError>(cached(cache, key)->0) && unchanged
    } else {
        &&& r matches Ok(resp) && {
            &&& decided(resp)
            &&& recorded(cache, cache2, key, resp, false)
            &&& n2 == counted(n, resp.accepted)
            &&& if resp.accepted && resp.note is Some {
                exists|e: ChronicleEntry|
                    #![trigger chronicled(ch, ch2, e)]
                    chronicled(ch, ch2, e) && published(log, log2, announce, e) && (e.kind@, e.title@, e.text@)
                        == knowledge_entry_spec(resp.note->0, resp.message@) && e.created_tick == tick
            } else {
                ch2 == ch && log2 == log
            }
        }
    }
}

/// Carries out a knowledge command for `actor_id`: the request id and
/// selectors are checked; an inspection is answered fresh every time and
/// never cached or counted; a retry of any other command is answered with
/// the response its first attempt kept; a fresh command is decided by
/// [`knowledge_command`], written into the chronicle when accepted with a
/// note, kept for retries, and counted.
pub fn run_knowledge_command<E, F: Fn(ChronicleEntry) -> E>(
    items: &mut Vec<KnowledgeItem>,
    known: &mut Vec<String>,
    target: LessonTarget,
    target_known: &mut Vec<String>,
    cache: &mut ReplayCache<KnowledgeOutcome>,
    chronicle: &mut Chronicle,
    log: &mut EventLog<E>,
    announce: F,
    counters: &mut CommandCounters,
    actor_id: &String,
    tick: u64,
    request_id: &str,
    action: KnowledgeAction,
    knowledge_id: Option<&str>,
    target_account_id: Option<&str>,
) -> (r: Result<KnowledgeOutcome, RepositoryError>)
    requires
        forall|x: ChronicleEntry| call_requires(announce, (x,)),
    ensures
        knowledge_run_post(
            old(items)@,
            final(items)@,
            old(known)@,
            final(known)@,
            target,
            old(target_known)@,
            final(target_known)@,
            old(cache).entries@,
            final(cache).entries@,
            *old(chronicle),
            *final(chronicle),
            *old(log),
            *final(log),
            announce,
            *old(counters),
            *final(counters),
            actor_id@,
            tick,
            request_id@,
            action,
            opt_text(knowledge_id),
            opt_text(target_account_id),
            r,
        ),
{
    match validate_request_id(request_id) {
        Ok(()) => {},
        Err(e) => return Err(e),
    }
    let request = match validate_knowledge_request(action, knowledge_id, target_account_id) {
        Ok(q) => q,
        Err(e) => return Err(e),
    };
    if action == KnowledgeAction::Inspect {
        let response = knowledge_command(items, actor_id, known, target, target_known, &request);
        return Ok(response);
    }
    let key = settlement_cache_key(actor_id.as_str(), request_id);
    match cache.lookup(&key) {
        Some(kept) => {
            return Ok(copy_knowledge_outcome(kept));
        },
        None => {},
    }
    let response = knowledge_command(items, actor_id, known, target, target_known, &request);
    if response.accepted {
        match response.note {
            Some(note) => {
                let text: EntryText = knowledge_entry(note, response.message.as_str());
                let e = record_entry(chronicle, log, announce, &text, tick);
                proof {
                    assert(chronicled(*old(chronicle), *chronicle, e));
                }
            },
            None => {},
        }
    }
    cache.record(key, copy_knowledge_outcome(&response), false);
    count_outcome(counters, response.accepted);
    Ok(response)
}

} // verus!
