//! Restoring a saved world: a snapshot written by an older or a larger
//! server is brought within today's bounds and rules before play resumes.
//! Counters restart at one at the least, ledgers keep their newest or live
//! records, lost journeys start over, the Bellweather goat returns to its
//! pen, leases gain the configured term, and only live sessions survive.
use crate::chronicle::Chronicle;
use crate::events::{EventLog, NoticeBoard};
use crate::replay::{MAX_REPLAY_CACHE, ReplayCache, trim_replay_cache};
use crate::claims::{ClaimRecord, restore_claims, restored_claim, trim_claim_history};
use crate::farming::{FarmAnimal, restore_animals};
use crate::frontier::{
    Expedition, ExpeditionStatus, Frontier, MAX_EXPEDITION_MEMBERS, Position,
    backfill_expedition_credentials, credited, trim_expedition_members,
};
use crate::governance::{
    Governance, MAX_GOVERNANCE_DECISIONS, MAX_INFRASTRUCTURE_RECORDS, MAX_PROPOSALS, default_tax_rate,
    trim_proposals,
};
use crate::journey::{JourneyProgress, ready, restore_progress};
use crate::ledger::views;
use crate::lessons::{SchoolLesson, lesson_window, trim_school_lessons};
use crate::professions::{MAX_SERVICE_ORDERS, ServiceOrder, trim_service_orders};
use crate::retention::{archive_excess, newest, retain_recent, trim_back, trimmed_settled};
use crate::taxes::MAX_TAX_COLLECTIONS;
use crate::watch::{OpportunitySignal, normalize_opportunity_score};
use vstd::prelude::*;

verus! {

/// A session as the snapshot keeps it.
#[derive(Debug, Clone)]
pub struct StoredSession {
    pub token: String,
    pub identity_key: String,
    pub revoked: bool,
    pub expires_at_tick: u64,
}

/// The parts of a saved world that restoring brings back within bounds.
#[derive(Debug, Clone)]
pub struct WorldState<D, E, R> {
    pub tick: u64,
    pub day: u32,
    pub next_guest: u64,
    pub next_message: u64,
    pub next_token: u64,
    pub next_trade: u64,
    pub next_property: u64,
    pub events: EventLog<E>,
    pub notices: NoticeBoard,
    pub replay_caches: Vec<ReplayCache<R>>,
    pub journeys: Vec<JourneyProgress>,
    pub chronicle: Chronicle,
    pub frontier: Frontier,
    pub households: Vec<OpportunitySignal>,
    pub governance: Governance,
    pub service_orders: Vec<ServiceOrder>,
    pub claims: Vec<ClaimRecord>,
    pub lessons: Vec<SchoolLesson<D>>,
    pub animals: Vec<FarmAnimal>,
    pub sessions: Vec<StoredSession>,
}

// ---------------------------------------------------------------- specs

pub open spec fn at_least_one(n: u64) -> u64 {
    if n < 1 { 1 } else { n }
}

/// A session that survives a restore on beat `tick`.
pub open spec fn live_session(s: StoredSession, tick: u64) -> bool {
    !s.revoked && s.expires_at_tick > tick
}

/// The sessions that survive, in order.
pub open spec fn live_sessions(s: Seq<StoredSession>, tick: u64) -> Seq<StoredSession>
    decreases s.len(),
{
    if s.len() == 0 {
        Seq::empty()
    } else {
        let rest = live_sessions(s.drop_last(), tick);
        if live_session(s.last(), tick) { rest.push(s.last()) } else { rest }
    }
}

pub open spec fn clamped_score(s: i16) -> i16 {
    if s < 0 { 0 } else if s > 100 { 100 } else { s }
}

/// The expedition after its member list is cut to today's limit.
pub open spec fn trimmed_party(e: Expedition, e2: Expedition) -> bool {
    let kept = if e.members@.len() > MAX_EXPEDITION_MEMBERS {
        e.members@.take(MAX_EXPEDITION_MEMBERS as int)
    } else {
        e.members@
    };
    &&& e2.members@ == kept
    &&& e2.expedition_id == e.expedition_id
    &&& e2.status == e.status
    &&& e2.food == e.food && e2.tools == e.tools && e2.materials == e.materials && e2.safety == e.safety
    &&& e2.outpost_position == e.outpost_position
    &&& crate::frontier::leader_in_party(e2)
}

/// The frontier after a restore: the party within its limit, and every
/// member of a succeeded party credited.
pub open spec fn frontier_restored(f: Frontier, f2: Frontier) -> bool {
    &&& f2.outpost == f.outpost
    &&& (f.expedition is None ==> f2.expedition is None)
    &&& (f.expedition matches Some(e) ==> (f2.expedition matches Some(e2) && trimmed_party(e, e2)))
    &&& views(f2.credentials@) == (match f2.expedition {
        Some(e2) => if e2.status == ExpeditionStatus::Succeeded {
            credited(f.credentials@, e2)
        } else {
            views(f.credentials@)
        },
        None => views(f.credentials@),
    })
}

/// The town hall after a restore: closed proposals beyond the limit
/// evicted, the newest decisions, receipts and structures kept, and a tax
/// rate in force.
pub open spec fn governance_restored(g: Governance, g2: Governance) -> bool {
    &&& g2 == Governance {
        proposals: g2.proposals,
        decisions: g2.decisions,
        tax_ledger: g2.tax_ledger,
        infrastructure: g2.infrastructure,
        tax_rate_percent: g2.tax_rate_percent,
        ..g
    }
    &&& g2.proposals@ == trimmed_settled(g.proposals@, MAX_PROPOSALS as nat)
    &&& g2.decisions@ == newest(g.decisions@, MAX_GOVERNANCE_DECISIONS as nat)
    &&& g2.tax_ledger@ == newest(g.tax_ledger@, MAX_TAX_COLLECTIONS as nat)
    &&& g2.infrastructure@ == newest(g.infrastructure@, MAX_INFRASTRUCTURE_RECORDS as nat)
    &&& g2.tax_rate_percent == (match g.tax_rate_percent {
        Some(r) => Some(r),
        None => Some(default_tax_rate()),
    })
}

// ---------------------------------------------------------------- exec

fn restore_sessions(sessions: &mut Vec<StoredSession>, tick: u64)
    ensures
        final(sessions)@ == live_sessions(old(sessions)@, tick),
{
    let mut rest: Vec<StoredSession> = Vec::new();
    std::mem::swap(&mut rest, sessions);
    let ghost all = rest@;
    let n = rest.len();
    let mut k: usize = 0;
    while k < n
        invariant
            n == all.len(),
            all == old(sessions)@,
            k <= n,
            rest@ == all.subrange(k as int, n as int),
            sessions@ == live_sessions(all.take(k as int), tick),
        decreases n - k,
    {
        assert(all.take(k + 1).drop_last() =~= all.take(k as int));
        let s = rest.remove(0);
        assert(rest@ =~= all.subrange(k + 1, n as int));
        if !s.revoked && s.expires_at_tick > tick {
            sessions.push(s);
        }
        k = k + 1;
    }
    assert(all.take(n as int) =~= all);
}

fn restore_journeys(journeys: &mut Vec<JourneyProgress>, journey_id: &String)
    ensures
        final(journeys)@.len() == old(journeys)@.len(),
        forall|i: int|
            0 <= i < old(journeys)@.len() ==> ready(
                old(journeys)@[i],
                #[trigger] final(journeys)@[i],
                journey_id@,
            ),
{
    let mut rest: Vec<JourneyProgress> = Vec::new();
    std::mem::swap(&mut rest, journeys);
    let ghost all = rest@;
    let n = rest.len();
    let mut k: usize = 0;
    while k < n
        invariant
            n == all.len(),
            all == old(journeys)@,
            k <= n,
            rest@ == all.subrange(k as int, n as int),
            journeys@.len() == k,
            forall|q: int| 0 <= q < k ==> ready(all[q], #[trigger] journeys@[q], journey_id@),
        decreases n - k,
    {
        let mut p = rest.remove(0);
        assert(rest@ =~= all.subrange(k + 1, n as int));
        restore_progress(&mut p, journey_id);
        journeys.push(p);
        k = k + 1;
    }
}

fn restore_households(households: &mut Vec<OpportunitySignal>)
    ensures
        final(households)@.len() == old(households)@.len(),
        forall|i: int|
            0 <= i < old(households)@.len() ==> #[trigger] final(households)@[i] == (OpportunitySignal {
                opportunity_score: clamped_score(old(households)@[i].opportunity_score),
                ..old(households)@[i]
            }),
{
    let mut rest: Vec<OpportunitySignal> = Vec::new();
    std::mem::swap(&mut rest, households);
    let ghost all = rest@;
    let n = rest.len();
    let mut k: usize = 0;
    while k < n
        invariant
            n == all.len(),
            all == old(households)@,
            k <= n,
            rest@ == all.subrange(k as int, n as int),
            households@.len() == k,
            forall|q: int|
                0 <= q < k ==> #[trigger] households@[q] == (OpportunitySignal {
                    opportunity_score: clamped_score(all[q].opportunity_score),
                    ..all[q]
                }),
        decreases n - k,
    {
        let mut h = rest.remove(0);
        assert(rest@ =~= all.subrange(k + 1, n as int));
        normalize_opportunity_score(&mut h.opportunity_score);
        households.push(h);
        k = k + 1;
    }
}

fn restore_replay_caches<R>(caches: &mut Vec<ReplayCache<R>>)
    ensures
        final(caches)@.len() == old(caches)@.len(),
        forall|i: int|
            0 <= i < old(caches)@.len() ==> (#[trigger] final(caches)@[i]).entries@ == newest(
                old(caches)@[i].entries@,
                MAX_REPLAY_CACHE as nat,
            ),
{
    let mut rest: Vec<ReplayCache<R>> = Vec::new();
    std::mem::swap(&mut rest, caches);
    let ghost all = rest@;
    let n = rest.len();
    let mut k: usize = 0;
    while k < n
        invariant
            n == all.len(),
            all == old(caches)@,
            k <= n,
            rest@ == all.subrange(k as int, n as int),
            caches@.len() == k,
            forall|q: int|
                0 <= q < k ==> (#[trigger] caches@[q]).entries@ == newest(all[q].entries@, MAX_REPLAY_CACHE as nat),
        decreases n - k,
    {
        let mut c = rest.remove(0);
        assert(rest@ =~= all.subrange(k + 1, n as int));
        trim_replay_cache(&mut c, MAX_REPLAY_CACHE);
        caches.push(c);
        k = k + 1;
    }
}

fn restore_governance(g: &mut Governance)
    ensures
        governance_restored(*old(g), *final(g)),
{
    trim_proposals(&mut g.proposals);
    retain_recent(&mut g.decisions, MAX_GOVERNANCE_DECISIONS);
    retain_recent(&mut g.tax_ledger, MAX_TAX_COLLECTIONS);
    retain_recent(&mut g.infrastructure, MAX_INFRASTRUCTURE_RECORDS);
    if g.tax_rate_percent.is_none() {
        g.tax_rate_percent = Some(5);
    }
}

/// Restores a saved world on beat `w.tick`: every counter is at least one
/// and the day at least the first; the event stream keeps its cursor and
/// its newest `max_events` records, the noticeboard its newest notices, and
/// each replay cache its newest [`MAX_REPLAY_CACHE`] responses; lost journeys restart on `journey_id`;
/// the live chronicle keeps its newest `w.chronicle.max_live` entries and
/// archives the rest; the frontier party is cut to its limit and a
/// succeeded party credited; opportunity scores are brought into 0..=100;
/// the town hall, the service board and the land registry keep their
/// bounds; only running lessons stay; the goat returns to `pen`; leases
/// gain the configured term from `now_unix_seconds`; and a session is kept
/// exactly when it is not revoked and has not expired.
pub fn restore_world<D, E, R>(
    w: &mut WorldState<D, E, R>,
    journey_id: &String,
    pen: Position,
    lease_duration_seconds: u64,
    now_unix_seconds: u64,
)
    ensures
        final(w).tick == old(w).tick,
        final(w).day == (if old(w).day < 1 { 1 } else { old(w).day }),
        final(w).next_guest == at_least_one(old(w).next_guest),
        final(w).next_message == at_least_one(old(w).next_message),
        final(w).next_token == at_least_one(old(w).next_token),
        final(w).next_trade == at_least_one(old(w).next_trade),
        final(w).events.cursor == old(w).events.cursor,
        final(w).events.max_events == old(w).events.max_events,
        final(w).events.events@ == newest(old(w).events.events@, old(w).events.max_events as nat),
        final(w).notices.next_notice == at_least_one(old(w).notices.next_notice),
        final(w).notices.max_notices == old(w).notices.max_notices,
        final(w).notices.notices@ == newest(old(w).notices.notices@, old(w).notices.max_notices as nat),
        final(w).replay_caches@.len() == old(w).replay_caches@.len(),
        forall|i: int|
            0 <= i < old(w).replay_caches@.len() ==> (#[trigger] final(w).replay_caches@[i]).entries@
                == newest(old(w).replay_caches@[i].entries@, MAX_REPLAY_CACHE as nat),
        final(w).next_property == at_least_one(old(w).next_property),
        final(w).journeys@.len() == old(w).journeys@.len(),
        forall|i: int|
            0 <= i < old(w).journeys@.len() ==> ready(
                old(w).journeys@[i],
                #[trigger] final(w).journeys@[i],
                journey_id@,
            ),
        final(w).chronicle.next_event_id == old(w).chronicle.next_event_id,
        final(w).chronicle.max_live == old(w).chronicle.max_live,
        final(w).chronicle.live@ == newest(old(w).chronicle.live@, old(w).chronicle.max_live as nat),
        final(w).chronicle.archive@ + final(w).chronicle.live@ == old(w).chronicle.archive@
            + old(w).chronicle.live@,
        frontier_restored(old(w).frontier, final(w).frontier),
        final(w).households@.len() == old(w).households@.len(),
        forall|i: int|
            0 <= i < old(w).households@.len() ==> #[trigger] final(w).households@[i] == (OpportunitySignal {
                opportunity_score: clamped_score(old(w).households@[i].opportunity_score),
                ..old(w).households@[i]
            }),
        governance_restored(old(w).governance, final(w).governance),
        final(w).service_orders@ == trimmed_settled(old(w).service_orders@, MAX_SERVICE_ORDERS as nat),
        final(w).claims@.len() == trimmed_settled(old(w).claims@, crate::claims::MAX_CLAIMS as nat).len(),
        forall|i: int|
            0 <= i < final(w).claims@.len() ==> restored_claim(
                trimmed_settled(old(w).claims@, crate::claims::MAX_CLAIMS as nat)[i],
                #[trigger] final(w).claims@[i],
                lease_duration_seconds,
                now_unix_seconds,
            ),
        final(w).lessons@ == lesson_window(old(w).lessons@, old(w).tick),
        final(w).animals@.len() == old(w).animals@.len(),
        forall|i: int|
            0 <= i < old(w).animals@.len() ==> #[trigger] final(w).animals@[i] == if old(w).animals@[i].animal_id@
                == "bellweather-goat"@ {
                FarmAnimal { position: pen, ..old(w).animals@[i] }
            } else {
                old(w).animals@[i]
            },
        final(w).sessions@ == live_sessions(old(w).sessions@, old(w).tick),
{
    let tick = w.tick;
    if w.day < 1 {
        w.day = 1;
    }
    if w.next_guest < 1 {
        w.next_guest = 1;
    }
    if w.next_message < 1 {
        w.next_message = 1;
    }
    if w.next_token < 1 {
        w.next_token = 1;
    }
    if w.next_trade < 1 {
        w.next_trade = 1;
    }
    if w.notices.next_notice < 1 {
        w.notices.next_notice = 1;
    }
    let max_events = w.events.max_events;
    trim_back(&mut w.events.events, max_events);
    let max_notices = w.notices.max_notices;
    trim_back(&mut w.notices.notices, max_notices);
    restore_replay_caches(&mut w.replay_caches);
    if w.next_property < 1 {
        w.next_property = 1;
    }
    restore_journeys(&mut w.journeys, journey_id);
    let max_live = w.chronicle.max_live;
    archive_excess(&mut w.chronicle.live, &mut w.chronicle.archive, max_live);
    trim_expedition_members(&mut w.frontier);
    backfill_expedition_credentials(&mut w.frontier);
    restore_households(&mut w.households);
    restore_governance(&mut w.governance);
    trim_service_orders(&mut w.service_orders);
    trim_claim_history(&mut w.claims);
    restore_claims(&mut w.claims, lease_duration_seconds, now_unix_seconds);
    trim_school_lessons(&mut w.lessons, tick);
    restore_animals(&mut w.animals, pen);
    restore_sessions(&mut w.sessions, tick);
}

} // verus!
