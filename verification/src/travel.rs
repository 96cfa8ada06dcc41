//! Regional journeys and route logistics: a player starts a journey along
//! a route that departs from where they stand, a route warning can stop
//! the caravan safely, and a stopped journey is resumed; players repair,
//! escort and improve the routes themselves.
use crate::errors::RepositoryError;
use crate::text::{decimal, numbered};
use vstd::prelude::*;
use vstd::string::*;

verus! {

/// The best condition a route can be in.
pub const MAX_ROUTE_CONDITION: u8 = 100;

/// Beats a resumed journey still needs.
pub const RESUMED_JOURNEY_TICKS: u64 = 3;

#[derive(Debug, Clone, Copy, PartialEq, Eq, Structural)]
pub enum RouteStatus {
    Operational,
    Delayed,
    Closed,
}

#[derive(Debug, Clone)]
pub struct RouteRecord {
    pub route_id: String,
    pub origin_location_id: String,
    pub destination_location_id: String,
    pub travel_ticks: u64,
    pub risk_percent: u8,
    pub status: RouteStatus,
    pub condition: u8,
    pub capacity: u32,
    pub repair_cost: u32,
    pub last_action_tick: u64,
}

#[derive(Debug, Clone, Copy, PartialEq, Eq, Structural)]
pub enum TravelStatus {
    Travelling,
    Interrupted,
    Recovering,
    Arrived,
}

#[derive(Debug, Clone)]
pub struct TravelState {
    pub travel_id: String,
    pub route_id: String,
    pub origin_location_id: String,
    pub destination_location_id: String,
    pub departure_tick: u64,
    pub eta_tick: u64,
    pub progress: u8,
    pub risk_percent: u8,
    pub status: TravelStatus,
    pub interruption: Option<String>,
    pub recovery_note: Option<String>,
}

#[derive(Debug, Clone, Copy, PartialEq, Eq, Structural)]
pub enum TravelAction {
    Start,
    Interrupt,
    Resume,
    Recover,
}

#[derive(Debug, Clone)]
pub struct TravelRequest {
    pub action: TravelAction,
    pub route_id: Option<String>,
}

/// The regional chronicle entry an accepted command asks for.
#[derive(Debug, Clone, Copy, PartialEq, Eq, Structural)]
pub enum TravelNote {
    Started,
    Interrupted,
    Recovered,
}

#[derive(Debug, Clone)]
pub struct TravelOutcome {
    pub accepted: bool,
    pub travel: Option<TravelState>,
    pub reason: Option<String>,
    pub note: Option<TravelNote>,
}

#[derive(Debug, Clone, Copy, PartialEq, Eq, Structural)]
pub enum RouteAction {
    Repair,
    Escort,
    Improve,
}

#[derive(Debug, Clone)]
pub struct RouteRequest {
    pub route_id: String,
    pub action: RouteAction,
}

#[derive(Debug, Clone)]
pub struct RouteOutcome {
    pub accepted: bool,
    pub reason: Option<String>,
}

// ---------------------------------------------------------------- specs

/// The index of the first route with id `id` that departs from `here`, or
/// `-1`.
pub open spec fn departing_route(routes: Seq<RouteRecord>, id: Seq<char>, here: Seq<char>) -> int
    decreases routes.len(),
{
    if routes.len() == 0 {
        -1
    } else if routes[0].route_id@ == id && routes[0].origin_location_id@ == here {
        0
    } else {
        let r = departing_route(routes.drop_first(), id, here);
        if r < 0 { -1 } else { r + 1 }
    }
}

/// The index of the first route with id `id`, or `-1`.
pub open spec fn route_named(routes: Seq<RouteRecord>, id: Seq<char>) -> int
    decreases routes.len(),
{
    if routes.len() == 0 {
        -1
    } else if routes[0].route_id@ == id {
        0
    } else {
        let r = route_named(routes.drop_first(), id);
        if r < 0 { -1 } else { r + 1 }
    }
}

pub open spec fn sat_add_u64(a: u64, b: u64) -> u64 {
    if a + b > u64::MAX { u64::MAX } else { (a + b) as u64 }
}

/// A journey is under way: travelling, stopped, or recovering.
pub open spec fn in_progress(t: TravelState) -> bool {
    t.status == TravelStatus::Travelling || t.status == TravelStatus::Interrupted || t.status
        == TravelStatus::Recovering
}

/// The journey that starting along `route` on beat `tick` begins.
pub open spec fn begun_along(t: TravelState, route: RouteRecord, id: u64, tick: u64) -> bool {
    &&& t.travel_id@ == "travel-"@ + decimal(id as nat)
    &&& t.route_id@ == route.route_id@
    &&& t.origin_location_id@ == route.origin_location_id@
    &&& t.destination_location_id@ == route.destination_location_id@
    &&& t.departure_tick == tick
    &&& t.eta_tick == sat_add_u64(tick, if route.travel_ticks < 1 { 1 } else { route.travel_ticks })
    &&& t.progress == 0
    &&& t.risk_percent == route.risk_percent
    &&& t.status == TravelStatus::Travelling
    &&& t.interruption is None
    &&& t.recovery_note is None
}

pub open spec fn refused_with(
    j: Option<TravelState>,
    j2: Option<TravelState>,
    nid: u64,
    nid2: u64,
    r: TravelOutcome,
    text: Seq<char>,
    shown: Option<TravelState>,
) -> bool {
    &&& !r.accepted
    &&& r.note is None
    &&& r.reason matches Some(s) && s@ == text
    &&& r.travel == shown
    &&& j2 == j
    &&& nid2 == nid
}

/// The outcome of a travel command for a player standing at `here`.
pub open spec fn travel_post(
    j: Option<TravelState>,
    j2: Option<TravelState>,
    routes: Seq<RouteRecord>,
    nid: u64,
    nid2: u64,
    here: Seq<char>,
    knocked_out: bool,
    tick: u64,
    req: TravelRequest,
    r: TravelOutcome,
) -> bool {
    if knocked_out {
        refused_with(
            j,
            j2,
            nid,
            nid2,
            r,
            "You are knocked out; choose a recovery prompt before travelling."@,
            j,
        )
    } else {
        match req.action {
            TravelAction::Start => if j matches Some(t) && in_progress(t) {
                refused_with(
                    j,
                    j2,
                    nid,
                    nid2,
                    r,
                    "Finish or recover the current journey before starting another."@,
                    j,
                )
            } else if req.route_id is None {
                refused_with(
                    j,
                    j2,
                    nid,
                    nid2,
                    r,
                    "Choose a visible route before starting travel."@,
                    None,
                )
            } else {
                let k = departing_route(routes, req.route_id->0@, here);
                if k < 0 {
                    refused_with(
                        j,
                        j2,
                        nid,
                        nid2,
                        r,
                        "That route does not depart from the player's current location."@,
                        None,
                    )
                } else if routes[k].status == RouteStatus::Closed {
                    refused_with(
                        j,
                        j2,
                        nid,
                        nid2,
                        r,
                        "The route is closed; a repair or escort action is required."@,
                        None,
                    )
                } else {
                    &&& r.accepted && r.reason is None && r.note == Some(TravelNote::Started)
                    &&& j2 is Some && begun_along(j2->0, routes[k], nid, tick)
                    &&& r.travel == j2
                    &&& nid2 == sat_add_u64(nid, 1)
                }
            },
            TravelAction::Interrupt => match j {
                None => refused_with(j, j2, nid, nid2, r, "There is no journey to interrupt."@, None),
                Some(t) => if t.status != TravelStatus::Travelling {
                    refused_with(
                        j,
                        j2,
                        nid,
                        nid2,
                        r,
                        "Only a journey in progress can be interrupted."@,
                        j,
                    )
                } else {
                    &&& r.accepted && r.reason is None && r.note == Some(TravelNote::Interrupted)
                    &&& nid2 == nid
                    &&& j2 matches Some(t2) && t2 == TravelState {
                        status: TravelStatus::Interrupted,
                        interruption: t2.interruption,
                        recovery_note: t2.recovery_note,
                        ..t
                    }
                    &&& j2->0.interruption matches Some(s) && s@
                        == "A route warning stopped the caravan safely."@
                    &&& j2->0.recovery_note matches Some(s) && s@
                        == "Tap Recover or Resume to continue; no cargo was lost."@
                    &&& r.travel == j2
                },
            },
            _ => match j {
                None => refused_with(
                    j,
                    j2,
                    nid,
                    nid2,
                    r,
                    "There is no interrupted journey to recover."@,
                    None,
                ),
                Some(t) => if t.status != TravelStatus::Interrupted {
                    refused_with(
                        j,
                        j2,
                        nid,
                        nid2,
                        r,
                        "That journey is not waiting for recovery."@,
                        j,
                    )
                } else {
                    &&& r.accepted && r.reason is None && r.note == Some(TravelNote::Recovered)
                    &&& nid2 == nid
                    &&& j2 matches Some(t2) && t2 == TravelState {
                        status: TravelStatus::Travelling,
                        recovery_note: t2.recovery_note,
                        eta_tick: sat_add_u64(tick, RESUMED_JOURNEY_TICKS),
                        ..t
                    }
                    &&& j2->0.recovery_note matches Some(s) && s@
                        == "The route crew found a safe continuation."@
                    &&& r.travel == j2
                },
            },
        }
    }
}

pub open spec fn clamp_condition(v: int) -> u8 {
    if v > MAX_ROUTE_CONDITION { MAX_ROUTE_CONDITION } else { v as u8 }
}

pub open spec fn sat_sub_u8(a: u8, b: u8) -> u8 {
    if a >= b { (a - b) as u8 } else { 0 }
}

/// What a logistics action does to a route, given the gold a player
/// carries; `None` when the player cannot pay for a repair.
pub open spec fn worked_route(route: RouteRecord, action: RouteAction, gold: u32, tick: u64) -> Option<
    RouteRecord,
> {
    match action {
        RouteAction::Repair => if gold < route.repair_cost {
            None
        } else {
            Some(
                RouteRecord {
                    condition: clamp_condition(route.condition + 24),
                    risk_percent: sat_sub_u8(route.risk_percent, 8),
                    status: RouteStatus::Operational,
                    last_action_tick: tick,
                    ..route
                },
            )
        },
        RouteAction::Escort => Some(
            RouteRecord {
                risk_percent: sat_sub_u8(route.risk_percent, 10),
                status: RouteStatus::Delayed,
                last_action_tick: tick,
                ..route
            },
        ),
        RouteAction::Improve => Some(
            RouteRecord {
                capacity: if route.capacity + 2 > u32::MAX { u32::MAX } else { (route.capacity + 2) as u32 },
                travel_ticks: if route.travel_ticks <= 2 { 1 } else { (route.travel_ticks - 1) as u64 },
                condition: clamp_condition(route.condition + 8),
                last_action_tick: tick,
                ..route
            },
        ),
    }
}

// ---------------------------------------------------------------- helpers

proof fn lemma_departing_route_bounds(routes: Seq<RouteRecord>, id: Seq<char>, here: Seq<char>)
    ensures
        -1 <= departing_route(routes, id, here) < routes.len(),
    decreases routes.len(),
{
    if routes.len() > 0 && !(routes[0].route_id@ == id && routes[0].origin_location_id@ == here) {
        lemma_departing_route_bounds(routes.drop_first(), id, here);
    }
}

proof fn lemma_route_named_bounds(routes: Seq<RouteRecord>, id: Seq<char>)
    ensures
        -1 <= route_named(routes, id) < routes.len(),
        route_named(routes, id) >= 0 ==> routes[route_named(routes, id)].route_id@ == id,
    decreases routes.len(),
{
    if routes.len() > 0 && routes[0].route_id@ != id {
        lemma_route_named_bounds(routes.drop_first(), id);
    }
}

/// The index of the first route with id `id` departing from `here`.
pub fn find_departing_route(routes: &Vec<RouteRecord>, id: &String, here: &String) -> (r: Option<
    usize,
>)
    ensures
        match r {
            Some(k) => k as int == departing_route(routes@, id@, here@),
            None => departing_route(routes@, id@, here@) < 0,
        },
{
    let n = routes.len();
    let mut k: usize = 0;
    assert(routes@.subrange(0, n as int) =~= routes@);
    while k < n
        invariant
            n == routes@.len(),
            k <= n,
            departing_route(routes@, id@, here@) == if departing_route(
                routes@.subrange(k as int, n as int),
                id@,
                here@,
            ) < 0 {
                -1
            } else {
                departing_route(routes@.subrange(k as int, n as int), id@, here@) + k
            },
        decreases n - k,
    {
        let ghost rest = routes@.subrange(k as int, n as int);
        assert(rest.drop_first() =~= routes@.subrange(k + 1, n as int));
        assert(rest[0] == routes@[k as int]);
        if routes[k].route_id == *id && routes[k].origin_location_id == *here {
            return Some(k);
        }
        k = k + 1;
    }
    assert(routes@.subrange(n as int, n as int).len() == 0);
    None
}

/// The index of the first route with id `id`.
pub fn find_route(routes: &Vec<RouteRecord>, id: &String) -> (r: Option<usize>)
    ensures
        match r {
            Some(k) => k as int == route_named(routes@, id@) && k < routes@.len(),
            None => route_named(routes@, id@) < 0,
        },
{
    proof {
        lemma_route_named_bounds(routes@, id@);
    }
    let n = routes.len();
    let mut k: usize = 0;
    assert(routes@.subrange(0, n as int) =~= routes@);
    while k < n
        invariant
            n == routes@.len(),
            k <= n,
            route_named(routes@, id@) == if route_named(routes@.subrange(k as int, n as int), id@)
                < 0 {
                -1
            } else {
                route_named(routes@.subrange(k as int, n as int), id@) + k
            },
        decreases n - k,
    {
        let ghost rest = routes@.subrange(k as int, n as int);
        assert(rest.drop_first() =~= routes@.subrange(k + 1, n as int));
        assert(rest[0] == routes@[k as int]);
        if routes[k].route_id == *id {
            return Some(k);
        }
        k = k + 1;
    }
    assert(routes@.subrange(n as int, n as int).len() == 0);
    None
}

fn copy_opt(s: &Option<String>) -> (r: Option<String>)
    ensures
        r == *s,
{
    match s {
        Some(s) => Some(s.clone()),
        None => None,
    }
}

/// An exact copy of a journey.
pub fn copy_travel(t: &TravelState) -> (r: TravelState)
    ensures
        r == *t,
{
    TravelState {
        travel_id: t.travel_id.clone(),
        route_id: t.route_id.clone(),
        origin_location_id: t.origin_location_id.clone(),
        destination_location_id: t.destination_location_id.clone(),
        departure_tick: t.departure_tick,
        eta_tick: t.eta_tick,
        progress: t.progress,
        risk_percent: t.risk_percent,
        status: t.status,
        interruption: copy_opt(&t.interruption),
        recovery_note: copy_opt(&t.recovery_note),
    }
}

fn copy_journey(j: &Option<TravelState>) -> (r: Option<TravelState>)
    ensures
        r == *j,
{
    match j {
        Some(t) => Some(copy_travel(t)),
        None => None,
    }
}

fn refuse(text: &str, shown: Option<TravelState>) -> (r: TravelOutcome)
    ensures
        !r.accepted && r.note is None && r.travel == shown && (r.reason matches Some(s) && s@
            == text@),
{
    TravelOutcome { accepted: false, travel: shown, reason: Some(text.to_owned()), note: None }
}

// ---------------------------------------------------------------- commands

/// Carries out one travel command for a player standing at `here`, whose
/// journey is `journey`, on beat `tick`; `next_travel_id` numbers the
/// journeys started.
pub fn travel_command(
    journey: &mut Option<TravelState>,
    routes: &Vec<RouteRecord>,
    next_travel_id: &mut u64,
    here: &String,
    knocked_out: bool,
    tick: u64,
    request: &TravelRequest,
) -> (r: TravelOutcome)
    ensures
        travel_post(
            *old(journey),
            *final(journey),
            routes@,
            *old(next_travel_id),
            *final(next_travel_id),
            here@,
            knocked_out,
            tick,
            *request,
            r,
        ),
{
    if knocked_out {
        return refuse(
            "You are knocked out; choose a recovery prompt before travelling.",
            copy_journey(journey),
        );
    }
    match request.action {
        TravelAction::Start => {
            let busy = match journey {
                Some(t) => t.status == TravelStatus::Travelling || t.status
                    == TravelStatus::Interrupted || t.status == TravelStatus::Recovering,
                None => false,
            };
            if busy {
                return refuse(
                    "Finish or recover the current journey before starting another.",
                    copy_journey(journey),
                );
            }
            let Some(route_id) = &request.route_id else {
                return refuse("Choose a visible route before starting travel.", None);
            };
            proof {
                lemma_departing_route_bounds(routes@, route_id@, here@);
            }
            let Some(k) = find_departing_route(routes, route_id, here) else {
                return refuse("That route does not depart from the player's current location.", None);
            };
            let route = &routes[k];
            if route.status == RouteStatus::Closed {
                return refuse("The route is closed; a repair or escort action is required.", None);
            }
            let ticks = if route.travel_ticks < 1 { 1 } else { route.travel_ticks };
            let t = TravelState {
                travel_id: numbered("travel-", *next_travel_id),
                route_id: route.route_id.clone(),
                origin_location_id: route.origin_location_id.clone(),
                destination_location_id: route.destination_location_id.clone(),
                departure_tick: tick,
                eta_tick: tick.saturating_add(ticks),
                progress: 0,
                risk_percent: route.risk_percent,
                status: TravelStatus::Travelling,
                interruption: None,
                recovery_note: None,
            };
            *next_travel_id = next_travel_id.saturating_add(1);
            let shown = copy_travel(&t);
            *journey = Some(t);
            TravelOutcome {
                accepted: true,
                travel: Some(shown),
                reason: None,
                note: Some(TravelNote::Started),
            }
        },
        TravelAction::Interrupt => {
            let Some(mut t) = journey.take() else {
                return refuse("There is no journey to interrupt.", None);
            };
            if t.status != TravelStatus::Travelling {
                let shown = copy_travel(&t);
                *journey = Some(t);
                return refuse("Only a journey in progress can be interrupted.", Some(shown));
            }
            t.status = TravelStatus::Interrupted;
            t.interruption = Some(String::from_str("A route warning stopped the caravan safely."));
            t.recovery_note = Some(
                String::from_str("Tap Recover or Resume to continue; no cargo was lost."),
            );
            let shown = copy_travel(&t);
            *journey = Some(t);
            TravelOutcome {
                accepted: true,
                travel: Some(shown),
                reason: None,
                note: Some(TravelNote::Interrupted),
            }
        },
        _ => {
            let Some(mut t) = journey.take() else {
                return refuse("There is no interrupted journey to recover.", None);
            };
            if t.status != TravelStatus::Interrupted {
                let shown = copy_travel(&t);
                *journey = Some(t);
                return refuse("That journey is not waiting for recovery.", Some(shown));
            }
            t.status = TravelStatus::Travelling;
            t.recovery_note = Some(String::from_str("The route crew found a safe continuation."));
            t.eta_tick = tick.saturating_add(RESUMED_JOURNEY_TICKS);
            let shown = copy_travel(&t);
            *journey = Some(t);
            TravelOutcome {
                accepted: true,
                travel: Some(shown),
                reason: None,
                note: Some(TravelNote::Recovered),
            }
        },
    }
}

/// Applies a logistics action to `route` on beat `tick`, paying a repair
/// from `gold`.
pub fn work_route(route: &mut RouteRecord, gold: &mut u32, tick: u64, action: RouteAction) -> (r:
    RouteOutcome)
    ensures
        match worked_route(*old(route), action, *old(gold), tick) {
            Some(w) => {
                &&& r.accepted && r.reason is None
                &&& *final(route) == w
                &&& *final(gold) == if action == RouteAction::Repair {
                    (*old(gold) - old(route).repair_cost) as u32
                } else {
                    *old(gold)
                }
            },
            None => {
                &&& !r.accepted
                &&& r.reason matches Some(s) && s@
                    == "The repair crew needs more gold than this character carries."@
                &&& *final(route) == RouteRecord { last_action_tick: tick, ..*old(route) }
                &&& *final(gold) == *old(gold)
            },
        },
{
    route.last_action_tick = tick;
    match action {
        RouteAction::Repair => {
            if *gold < route.repair_cost {
                return RouteOutcome {
                    accepted: false,
                    reason: Some(
                        String::from_str(
                            "The repair crew needs more gold than this character carries.",
                        ),
                    ),
                };
            }
            *gold = *gold - route.repair_cost;
            let c: u8 = route.condition.saturating_add(24);
            route.condition = if c > MAX_ROUTE_CONDITION { MAX_ROUTE_CONDITION } else { c };
            route.risk_percent = route.risk_percent.saturating_sub(8);
            route.status = RouteStatus::Operational;
        },
        RouteAction::Escort => {
            route.risk_percent = route.risk_percent.saturating_sub(10);
            route.status = RouteStatus::Delayed;
        },
        RouteAction::Improve => {
            route.capacity = route.capacity.saturating_add(2);
            let t = route.travel_ticks.saturating_sub(1);
            route.travel_ticks = if t < 1 { 1 } else { t };
            let c: u8 = route.condition.saturating_add(8);
            route.condition = if c > MAX_ROUTE_CONDITION { MAX_ROUTE_CONDITION } else { c };
        },
    }
    RouteOutcome { accepted: true, reason: None }
}

/// A logistics command on the route `request.route_id`, from a player at
/// `here` carrying `gold`: the route must exist and depart from here.
pub fn route_action(
    routes: &mut Vec<RouteRecord>,
    here: &String,
    gold: &mut u32,
    tick: u64,
    request: &RouteRequest,
) -> (r: Result<RouteOutcome, RepositoryError>)
    ensures
        ({
            let k = route_named(old(routes)@, request.route_id@);
            if k < 0 {
                &&& r matches Err(e) && e.spec_is(
                    404,
                    "route_not_found"@,
                    "That regional route is not recorded."@,
                )
                &&& final(routes)@ == old(routes)@ && *final(gold) == *old(gold)
            } else if old(routes)@[k].origin_location_id@ != here@ {
                &&& r matches Err(e) && e.spec_is(
                    409,
                    "route_out_of_interest"@,
                    "Travel to the route origin before changing its logistics."@,
                )
                &&& final(routes)@ == old(routes)@ && *final(gold) == *old(gold)
            } else {
                let route = old(routes)@[k];
                &&& r is Ok
                &&& final(routes)@.len() == old(routes)@.len()
                &&& forall|i: int|
                    0 <= i < old(routes)@.len() && i != k ==> final(routes)@[i] == old(routes)@[i]
                &&& match worked_route(route, request.action, *old(gold), tick) {
                    Some(w) => r->Ok_0.accepted && final(routes)@[k] == w && *final(gold) == if request.action
                        == RouteAction::Repair {
                        (*old(gold) - route.repair_cost) as u32
                    } else {
                        *old(gold)
                    },
                    None => !r->Ok_0.accepted && final(routes)@[k] == RouteRecord {
                        last_action_tick: tick,
                        ..route
                    } && *final(gold) == *old(gold),
                }
            }
        }),
{
    let Some(k) = find_route(routes, &request.route_id) else {
        return Err(
            RepositoryError::new(404, "route_not_found", "That regional route is not recorded."),
        );
    };
    if routes[k].origin_location_id != *here {
        return Err(
            RepositoryError::new(
                409,
                "route_out_of_interest",
                "Travel to the route origin before changing its logistics.",
            ),
        );
    }
    let ghost before = routes@;
    let mut route = routes.remove(k);
    let outcome = work_route(&mut route, gold, tick, request.action);
    routes.insert(k, route);
    proof {
        assert forall|i: int| 0 <= i < before.len() && i != k implies routes@[i] == before[i] by {
            if i < k {
                assert(routes@[i] == before.remove(k as int)[i]);
            } else {
                assert(routes@[i] == before.remove(k as int)[i - 1]);
            }
        }
    }
    Ok(outcome)
}

// ---------------------------------------------------------------- laws

/// A player travels one journey at a time: while one is under way, no
/// other starts and the journey is left as it was.
pub proof fn lemma_one_journey_at_a_time(
    j: Option<TravelState>,
    j2: Option<TravelState>,
    routes: Seq<RouteRecord>,
    nid: u64,
    nid2: u64,
    here: Seq<char>,
    knocked_out: bool,
    tick: u64,
    req: TravelRequest,
    r: TravelOutcome,
)
    requires
        travel_post(j, j2, routes, nid, nid2, here, knocked_out, tick, req, r),
        j matches Some(t) && in_progress(t),
        req.action == TravelAction::Start,
    ensures
        !r.accepted,
        j2 == j,
        nid2 == nid,
{
}

/// A knocked-out player's commands change no journey.
pub proof fn lemma_knocked_out_cannot_travel(
    j: Option<TravelState>,
    j2: Option<TravelState>,
    routes: Seq<RouteRecord>,
    nid: u64,
    nid2: u64,
    here: Seq<char>,
    tick: u64,
    req: TravelRequest,
    r: TravelOutcome,
)
    requires
        travel_post(j, j2, routes, nid, nid2, here, true, tick, req, r),
    ensures
        !r.accepted,
        j2 == j,
{
}

/// A journey only ever starts along a route that departs from where the
/// player stands and is not closed.
pub proof fn lemma_journeys_start_where_the_player_is(
    j: Option<TravelState>,
    j2: Option<TravelState>,
    routes: Seq<RouteRecord>,
    nid: u64,
    nid2: u64,
    here: Seq<char>,
    knocked_out: bool,
    tick: u64,
    req: TravelRequest,
    r: TravelOutcome,
)
    requires
        travel_post(j, j2, routes, nid, nid2, here, knocked_out, tick, req, r),
        req.action == TravelAction::Start,
        r.accepted,
    ensures
        j2 matches Some(t) && t.origin_location_id@ == here && exists|k: int|
            0 <= k < routes.len() && (#[trigger] routes[k]).route_id@ == t.route_id@
                && routes[k].status != RouteStatus::Closed,
{
    let k = departing_route(routes, req.route_id->0@, here);
    lemma_departing_route_origin(routes, req.route_id->0@, here);
    assert(routes[k].route_id@ == j2->0.route_id@);
}

proof fn lemma_departing_route_origin(routes: Seq<RouteRecord>, id: Seq<char>, here: Seq<char>)
    ensures
        departing_route(routes, id, here) >= 0 ==> {
            let k = departing_route(routes, id, here);
            &&& k < routes.len()
            &&& routes[k].route_id@ == id
            &&& routes[k].origin_location_id@ == here
        },
    decreases routes.len(),
{
    if routes.len() > 0 && !(routes[0].route_id@ == id && routes[0].origin_location_id@ == here) {
        lemma_departing_route_origin(routes.drop_first(), id, here);
    }
}

/// Logistics keep a route's condition within 100 and its journey at least
/// one beat long.
pub proof fn lemma_route_stays_in_bounds(route: RouteRecord, action: RouteAction, gold: u32, tick: u64)
    requires
        route.condition <= MAX_ROUTE_CONDITION,
        route.travel_ticks >= 1,
    ensures
        worked_route(route, action, gold, tick) matches Some(w) ==> w.condition
            <= MAX_ROUTE_CONDITION && w.travel_ticks >= 1 && w.risk_percent <= route.risk_percent,
{
}

} // verus!
