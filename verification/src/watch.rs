//! The Brambleback watch on the frontier: the repeatable tavern contract,
//! the fight against the threat at Whisperwood Edge, and the pressure an
//! active threat puts on the road, its prices and the household that
//! watches whether the road is worth settling.
use crate::combat::Combatant;
use crate::errors::{RepositoryError, bounded_text_refused, validate_bounded_text};
use crate::frontier::{ExpeditionStatus, Position};
use crate::text::trim_seq;
use vstd::prelude::*;
use vstd::string::*;

verus! {

/// The tavern's one contract.
pub open spec fn contract_id() -> Seq<char> {
    "brambleback-watch"@
}

#[derive(Debug, Clone, Copy, PartialEq, Eq, Structural)]
pub enum ContractStatus {
    Available,
    Accepted,
    Cooldown,
}

#[derive(Debug, Clone, Copy, PartialEq, Eq, Structural)]
pub enum ContractAction {
    Accept,
    Progress,
    Report,
}

/// One adventurer's standing with the contract.
#[derive(Debug, Clone, Copy, PartialEq, Eq, Structural)]
pub struct ContractProgress {
    pub progress: u8,
    pub status: ContractStatus,
    pub completion_count: u32,
    pub available_at_tick: u64,
}

/// What the tavern's ledger asks and pays for the contract.
#[derive(Debug, Clone, Copy, PartialEq, Eq, Structural)]
pub struct ContractTerms {
    pub required_progress: u8,
    pub reward_gold: u32,
}

/// What of an adventurer the contract reads and pays.
#[derive(Debug, Clone, Copy, PartialEq, Eq, Structural)]
pub struct Adventurer {
    pub position: Position,
    pub gold: u32,
    pub skill: u32,
    pub reputation: u32,
}

/// The skill an accepted contract step practises.
#[derive(Debug, Clone, Copy, PartialEq, Eq, Structural)]
pub enum FieldPractice {
    Navigation,
    Survival,
}

/// The chronicle entry an accepted contract step asks for.
#[derive(Debug, Clone, Copy, PartialEq, Eq, Structural)]
pub enum ContractNote {
    Accepted,
    Reported,
}

#[derive(Debug, Clone)]
pub struct ContractOutcome {
    pub accepted: bool,
    pub reason: Option<String>,
    pub note: Option<ContractNote>,
    pub practice: Option<FieldPractice>,
}

/// The threat zone at Whisperwood Edge.
#[derive(Debug, Clone, Copy, PartialEq, Eq, Structural)]
pub struct WildernessZone {
    pub position: Position,
    pub threat_active: bool,
    pub road_open: bool,
    pub monster_health: u8,
    pub price_modifier_percent: i16,
}

#[derive(Debug, Clone, Copy, PartialEq, Eq, Structural)]
pub enum ThreatAction {
    Strike,
    Retreat,
}

#[derive(Debug, Clone, Copy, PartialEq, Eq, Structural)]
pub struct ThreatRequest {
    pub action: ThreatAction,
    /// Whether the fighter carries the iron sword, the one weapon that can
    /// bring the Brambleback down.
    pub with_iron_sword: bool,
}

#[derive(Debug, Clone, Copy, PartialEq, Eq, Structural)]
pub enum ThreatResult {
    Retreated,
    Victory,
    KnockedOut,
}

#[derive(Debug, Clone)]
pub struct ThreatOutcome {
    pub accepted: bool,
    pub result: Option<ThreatResult>,
    pub recovery_prompt: Option<String>,
    pub reason: Option<String>,
}

#[derive(Debug, Clone, Copy, PartialEq, Eq, Structural)]
pub enum HouseholdStatus {
    Travelling,
    Candidate,
    Arrived,
    Departed,
}

/// The household that watches the frontier road.
#[derive(Debug, Clone)]
pub struct OpportunitySignal {
    pub opportunity_score: i16,
    pub status: HouseholdStatus,
    pub clue: String,
}

/// How long the road has gone without its demand met, and in poor
/// condition.
#[derive(Debug, Clone, Copy, PartialEq, Eq, Structural)]
pub struct FrontierPressure {
    pub unmet_demand_ticks: u64,
    pub poor_condition_ticks: u64,
}

/// A decision the household reached on a beat.
#[derive(Debug, Clone, Copy, PartialEq, Eq, Structural)]
pub enum HouseholdTransition {
    ArrivalCandidate,
    Arrival,
    Departure,
}

// ---------------------------------------------------------------- specs

pub open spec fn sat_add_u32(a: u32, b: u32) -> u32 {
    if a + b > u32::MAX { u32::MAX } else { (a + b) as u32 }
}

pub open spec fn sat_add_u64(a: u64, b: u64) -> u64 {
    if a + b > u64::MAX { u64::MAX } else { (a + b) as u64 }
}

/// What a report pays: the base reward and two gold for each earlier
/// completion.
pub open spec fn report_reward(terms: ContractTerms, completions: u32) -> u32 {
    sat_add_u32(
        terms.reward_gold,
        if 2 * completions > u32::MAX { u32::MAX } else { (2 * completions) as u32 },
    )
}

/// Why a contract step is not available in `status`.
pub open spec fn contract_reason_spec(status: ContractStatus, action: ContractAction) -> Seq<char> {
    if status == ContractStatus::Cooldown {
        "The contract is repeatable, but the tavern needs a moment before posting it again."@
    } else if status == ContractStatus::Accepted && action == ContractAction::Accept {
        "You already carry this contract."@
    } else if status == ContractStatus::Available && action == ContractAction::Progress {
        "Accept the contract at the tavern first."@
    } else if status == ContractStatus::Accepted && action == ContractAction::Report {
        "Three signs are needed before the tavern can pay the report."@
    } else {
        "That contract action is not available yet."@
    }
}

pub open spec fn contract_refused(
    c: ContractProgress,
    c2: ContractProgress,
    a: Adventurer,
    a2: Adventurer,
    r: ContractOutcome,
    text: Seq<char>,
) -> bool {
    &&& !r.accepted && r.note is None && r.practice is None
    &&& r.reason matches Some(s) && s@ == text
    &&& c2 == c && a2 == a
}

/// The outcome of a contract step on the contract named `id`.
pub open spec fn contract_post(
    c: ContractProgress,
    c2: ContractProgress,
    a: Adventurer,
    a2: Adventurer,
    terms: ContractTerms,
    id: Seq<char>,
    tick: u64,
    action: ContractAction,
    r: ContractOutcome,
) -> bool {
    if id != contract_id() {
        contract_refused(c, c2, a, a2, r, "That contract is not written in the tavern ledger."@)
    } else if action == ContractAction::Accept && c.status == ContractStatus::Available {
        &&& r.accepted && r.reason is None && r.note == Some(ContractNote::Accepted)
            && r.practice is None
        &&& c2 == ContractProgress { status: ContractStatus::Accepted, progress: 0, ..c }
        &&& a2 == a
    } else if action == ContractAction::Progress && c.status == ContractStatus::Accepted {
        if a.position.x < 10 {
            contract_refused(c, c2, a, a2, r, "Take the north road before reporting field work."@)
        } else {
            &&& r.accepted && r.reason is None && r.note is None
            &&& r.practice == Some(FieldPractice::Navigation)
            &&& c2 == ContractProgress {
                progress: if c.progress + 1 > terms.required_progress {
                    terms.required_progress
                } else {
                    (c.progress + 1) as u8
                },
                ..c
            }
            &&& a2 == a
        }
    } else if action == ContractAction::Report && c.status == ContractStatus::Accepted
        && c.progress >= terms.required_progress {
        &&& r.accepted && r.reason is None && r.note == Some(ContractNote::Reported)
        &&& r.practice == Some(FieldPractice::Survival)
        &&& a2 == Adventurer {
            gold: sat_add_u32(a.gold, report_reward(terms, c.completion_count)),
            skill: sat_add_u32(a.skill, 1),
            reputation: sat_add_u32(a.reputation, 1),
            ..a
        }
        &&& c2 == ContractProgress {
            status: ContractStatus::Cooldown,
            available_at_tick: sat_add_u64(tick, 2),
            completion_count: sat_add_u32(c.completion_count, 1),
            ..c
        }
    } else {
        contract_refused(c, c2, a, a2, r, contract_reason_spec(c.status, action))
    }
}

pub open spec fn abs_diff(a: i32, b: i32) -> int {
    if a >= b { a - b } else { b - a }
}

pub open spec fn near_zone(p: Position, z: Position) -> bool {
    abs_diff(p.x, z.x) + abs_diff(p.y, z.y) <= 2
}

pub open spec fn threat_refused(
    z: WildernessZone,
    z2: WildernessZone,
    p: Combatant,
    p2: Combatant,
    r: ThreatOutcome,
    text: Seq<char>,
) -> bool {
    &&& !r.accepted && r.result is None && r.recovery_prompt is None
    &&& r.reason matches Some(s) && s@ == text
    &&& z2 == z && p2 == p
}

/// The outcome of facing the threat.
pub open spec fn threat_post(
    z: WildernessZone,
    z2: WildernessZone,
    p: Combatant,
    p2: Combatant,
    req: ThreatRequest,
    r: ThreatOutcome,
) -> bool {
    if p.knocked_out {
        threat_refused(z, z2, p, p2, r, "You are knocked out; tap Self, Rescuer, or Healer below."@)
    } else if !near_zone(p.position, z.position) {
        threat_refused(z, z2, p, p2, r, "Stand near Whisperwood Edge before facing the threat."@)
    } else if !z.threat_active {
        threat_refused(z, z2, p, p2, r, "The Brambleback threat is already quiet."@)
    } else {
        &&& r.accepted && r.reason is None
        &&& match req.action {
            ThreatAction::Retreat => r.result == Some(ThreatResult::Retreated) && r.recovery_prompt
                is None && z2 == z && p2 == p,
            ThreatAction::Strike => if req.with_iron_sword {
                &&& r.result == Some(ThreatResult::Victory) && r.recovery_prompt is None
                &&& z2 == WildernessZone {
                    threat_active: false,
                    road_open: true,
                    monster_health: 0,
                    price_modifier_percent: 0,
                    ..z
                }
                &&& p2 == Combatant {
                    gold: sat_add_u32(p.gold, 5),
                    skill: sat_add_u32(p.skill, 2),
                    ..p
                }
            } else {
                &&& r.result == Some(ThreatResult::KnockedOut)
                &&& r.recovery_prompt matches Some(s) && s@
                    == "You were knocked out. Tap Self, Rescuer, or Healer; stored goods remain safe."@
                &&& z2 == z
                &&& p2 == Combatant {
                    knocked_out: true,
                    injuries: if p.injuries >= 3 { 3 } else { (p.injuries + 1) as u8 },
                    recovery_cost: 3,
                    position: Position { x: 8, y: 5 },
                    seeds: if p.seeds > 0 { (p.seeds - 1) as u32 } else { 0 },
                    ..p
                }
            },
        }
    }
}

/// The household's score after a beat: it falls while the threat is
/// active, never below zero, and rises by two otherwise, never above 100.
pub open spec fn next_score(score: i16, threat_active: bool) -> i16 {
    if threat_active {
        if score >= 1 { (score - 1) as i16 } else { 0 }
    } else {
        if score + 2 > 100 { 100 } else { (score + 2) as i16 }
    }
}

/// While the Brambleback threat is active, the road east of Whisperwood
/// Edge is closed to walkers.
pub fn movement_blocked(zone: &WildernessZone, next: Position) -> (r: bool)
    ensures
        r == (zone.threat_active && next.x > zone.position.x),
{
    zone.threat_active && next.x > zone.position.x
}

/// Brings an opportunity score saved by an older world into 0..=100.
pub fn normalize_opportunity_score(score: &mut i16)
    ensures
        *final(score) == if *old(score) < 0 {
            0
        } else if *old(score) > 100 {
            100
        } else {
            *old(score)
        },
{
    if *score < 0 {
        *score = 0;
    } else if *score > 100 {
        *score = 100;
    }
}

/// The decision the household reaches on a beat with the pressure `p`.
pub open spec fn transition_for(status: HouseholdStatus, p: FrontierPressure) -> Option<HouseholdTransition> {
    if p.unmet_demand_ticks >= 3 && status == HouseholdStatus::Travelling {
        Some(HouseholdTransition::ArrivalCandidate)
    } else if p.unmet_demand_ticks >= 5 && status == HouseholdStatus::Candidate {
        Some(HouseholdTransition::Arrival)
    } else if p.poor_condition_ticks >= 12 && status == HouseholdStatus::Arrived {
        Some(HouseholdTransition::Departure)
    } else {
        None
    }
}

pub open spec fn status_after(t: HouseholdTransition) -> HouseholdStatus {
    match t {
        HouseholdTransition::ArrivalCandidate => HouseholdStatus::Candidate,
        HouseholdTransition::Arrival => HouseholdStatus::Arrived,
        HouseholdTransition::Departure => HouseholdStatus::Departed,
    }
}

pub open spec fn clue_after(t: HouseholdTransition) -> Seq<char> {
    match t {
        HouseholdTransition::ArrivalCandidate => "The mender may stay if the road demand remains real."@,
        HouseholdTransition::Arrival => "The Maren household has opened a small repair bench at the Hearth."@,
        HouseholdTransition::Departure => "The repair bench is shuttered; the Marens left for safer roads."@,
    }
}

/// The pressure after a beat.
pub open spec fn pressure_after(p: FrontierPressure, threat_active: bool) -> FrontierPressure {
    if threat_active {
        FrontierPressure {
            unmet_demand_ticks: sat_add_u64(p.unmet_demand_ticks, 1),
            poor_condition_ticks: sat_add_u64(p.poor_condition_ticks, 1),
        }
    } else {
        FrontierPressure { poor_condition_ticks: 0, ..p }
    }
}

// ---------------------------------------------------------------- contract

/// Why a contract step is not available in `status`.
pub fn contract_reason(status: ContractStatus, action: ContractAction) -> (s: String)
    ensures
        s@ == contract_reason_spec(status, action),
{
    if status == ContractStatus::Cooldown {
        String::from_str(
            "The contract is repeatable, but the tavern needs a moment before posting it again.",
        )
    } else if status == ContractStatus::Accepted && action == ContractAction::Accept {
        String::from_str("You already carry this contract.")
    } else if status == ContractStatus::Available && action == ContractAction::Progress {
        String::from_str("Accept the contract at the tavern first.")
    } else if status == ContractStatus::Accepted && action == ContractAction::Report {
        String::from_str("Three signs are needed before the tavern can pay the report.")
    } else {
        String::from_str("That contract action is not available yet.")
    }
}

fn refuse_contract(text: String) -> (r: ContractOutcome)
    ensures
        !r.accepted && r.note is None && r.practice is None && r.reason == Some(text),
{
    ContractOutcome { accepted: false, reason: Some(text), note: None, practice: None }
}

/// Carries out one step of the contract named `contract_id` for `a`.
pub fn contract_step(
    c: &mut ContractProgress,
    a: &mut Adventurer,
    terms: ContractTerms,
    contract_id: &String,
    tick: u64,
    action: ContractAction,
) -> (r: ContractOutcome)
    ensures
        contract_post(*old(c), *final(c), *old(a), *final(a), terms, contract_id@, tick, action, r),
{
    proof {
        reveal_strlit("brambleback-watch");
    }
    let known = String::from_str("brambleback-watch");
    if *contract_id != known {
        return refuse_contract(String::from_str("That contract is not written in the tavern ledger."));
    }
    if action == ContractAction::Accept && c.status == ContractStatus::Available {
        c.status = ContractStatus::Accepted;
        c.progress = 0;
        return ContractOutcome {
            accepted: true,
            reason: None,
            note: Some(ContractNote::Accepted),
            practice: None,
        };
    }
    if action == ContractAction::Progress && c.status == ContractStatus::Accepted {
        if a.position.x < 10 {
            return refuse_contract(
                String::from_str("Take the north road before reporting field work."),
            );
        }
        let next = c.progress.saturating_add(1);
        c.progress = if next > terms.required_progress { terms.required_progress } else { next };
        return ContractOutcome {
            accepted: true,
            reason: None,
            note: None,
            practice: Some(FieldPractice::Navigation),
        };
    }
    if action == ContractAction::Report && c.status == ContractStatus::Accepted && c.progress
        >= terms.required_progress {
        let doubled: u64 = 2 * (c.completion_count as u64);
        let bonus: u32 = if doubled > 0xffff_ffff { 0xffff_ffff } else { doubled as u32 };
        let reward = terms.reward_gold.saturating_add(bonus);
        a.gold = a.gold.saturating_add(reward);
        a.skill = a.skill.saturating_add(1);
        a.reputation = a.reputation.saturating_add(1);
        c.status = ContractStatus::Cooldown;
        c.available_at_tick = tick.saturating_add(2);
        c.completion_count = c.completion_count.saturating_add(1);
        return ContractOutcome {
            accepted: true,
            reason: None,
            note: Some(ContractNote::Reported),
            practice: Some(FieldPractice::Survival),
        };
    }
    refuse_contract(contract_reason(c.status, action))
}

/// A contract step whose selector is first checked: the selector must be
/// a bounded text without control characters, and is compared trimmed.
pub fn contract_command(
    c: &mut ContractProgress,
    a: &mut Adventurer,
    terms: ContractTerms,
    contract_id: &str,
    tick: u64,
    action: ContractAction,
) -> (r: Result<ContractOutcome, RepositoryError>)
    ensures
        r is Err <==> bounded_text_refused(contract_id@, 160),
        r matches Err(e) ==> e.spec_is(
            400,
            "invalid_contract_id"@,
            "A contract selector must be bounded and contain no control characters."@,
        ) && *final(c) == *old(c) && *final(a) == *old(a),
        r matches Ok(out) ==> contract_post(
            *old(c),
            *final(c),
            *old(a),
            *final(a),
            terms,
            trim_seq(contract_id@),
            tick,
            action,
            out,
        ),
{
    match validate_bounded_text(
        contract_id,
        160,
        "invalid_contract_id",
        "A contract selector must be bounded and contain no control characters.",
    ) {
        Err(e) => Err(e),
        Ok(id) => Ok(contract_step(c, a, terms, &id, tick, action)),
    }
}

/// Posts the contract again once its cooldown has passed on beat `tick`.
pub fn refresh_contract(c: &mut ContractProgress, tick: u64)
    ensures
        *final(c) == if old(c).status == ContractStatus::Cooldown && old(c).available_at_tick
            <= tick {
            ContractProgress { status: ContractStatus::Available, progress: 0, ..*old(c) }
        } else {
            *old(c)
        },
{
    if c.status == ContractStatus::Cooldown && c.available_at_tick <= tick {
        c.status = ContractStatus::Available;
        c.progress = 0;
    }
}

// ---------------------------------------------------------------- threat

fn refuse_threat(text: &str) -> (r: ThreatOutcome)
    ensures
        !r.accepted && r.result is None && r.recovery_prompt is None && (r.reason matches Some(s)
            && s@ == text@),
{
    ThreatOutcome { accepted: false, result: None, recovery_prompt: None, reason: Some(text.to_owned()) }
}

/// Faces the threat at Whisperwood Edge.
pub fn face_threat(zone: &mut WildernessZone, p: &mut Combatant, request: ThreatRequest) -> (r:
    ThreatOutcome)
    ensures
        threat_post(*old(zone), *final(zone), *old(p), *final(p), request, r),
{
    if p.knocked_out {
        return refuse_threat("You are knocked out; tap Self, Rescuer, or Healer below.");
    }
    let dx: i64 = if p.position.x >= zone.position.x {
        p.position.x as i64 - zone.position.x as i64
    } else {
        zone.position.x as i64 - p.position.x as i64
    };
    let dy: i64 = if p.position.y >= zone.position.y {
        p.position.y as i64 - zone.position.y as i64
    } else {
        zone.position.y as i64 - p.position.y as i64
    };
    if dx + dy > 2 {
        return refuse_threat("Stand near Whisperwood Edge before facing the threat.");
    }
    if !zone.threat_active {
        return refuse_threat("The Brambleback threat is already quiet.");
    }
    match request.action {
        ThreatAction::Retreat => ThreatOutcome {
            accepted: true,
            result: Some(ThreatResult::Retreated),
            recovery_prompt: None,
            reason: None,
        },
        ThreatAction::Strike => {
            if request.with_iron_sword {
                zone.threat_active = false;
                zone.road_open = true;
                zone.monster_health = 0;
                zone.price_modifier_percent = 0;
                p.gold = p.gold.saturating_add(5);
                p.skill = p.skill.saturating_add(2);
                ThreatOutcome {
                    accepted: true,
                    result: Some(ThreatResult::Victory),
                    recovery_prompt: None,
                    reason: None,
                }
            } else {
                p.knocked_out = true;
                p.injuries = if p.injuries >= 3 { 3 } else { p.injuries + 1 };
                p.recovery_cost = 3;
                p.position = Position { x: 8, y: 5 };
                if p.seeds > 0 {
                    p.seeds = p.seeds - 1;
                }
                ThreatOutcome {
                    accepted: true,
                    result: Some(ThreatResult::KnockedOut),
                    recovery_prompt: Some(
                        String::from_str(
                            "You were knocked out. Tap Self, Rescuer, or Healer; stored goods remain safe.",
                        ),
                    ),
                    reason: None,
                }
            }
        },
    }
}

// ---------------------------------------------------------------- beat

/// Advances the frontier by one beat: the threat's pressure on the road
/// and prices, and the decision of the first household watching it.
pub fn frontier_beat(
    zone: &mut WildernessZone,
    pressure: &mut FrontierPressure,
    households: &mut Vec<OpportunitySignal>,
) -> (t: Option<HouseholdTransition>)
    ensures
        *final(pressure) == pressure_after(*old(pressure), old(zone).threat_active),
        *final(zone) == (WildernessZone {
            price_modifier_percent: if old(zone).threat_active { 20 } else { 0 },
            ..*old(zone)
        }),
        final(households)@.len() == old(households)@.len(),
        old(households)@.len() == 0 ==> t is None,
        old(households)@.len() > 0 ==> ({
            let h = old(households)@[0];
            let h2 = final(households)@[0];
            &&& t == transition_for(h.status, *final(pressure))
            &&& h2.opportunity_score == next_score(h.opportunity_score, old(zone).threat_active)
            &&& match t {
                Some(tr) => h2.status == status_after(tr) && h2.clue@ == clue_after(tr),
                None => h2.status == h.status && h2.clue == h.clue,
            }
            &&& forall|i: int|
                1 <= i < old(households)@.len() ==> final(households)@[i] == old(households)@[i]
        }),
{
    if zone.threat_active {
        pressure.unmet_demand_ticks = pressure.unmet_demand_ticks.saturating_add(1);
        pressure.poor_condition_ticks = pressure.poor_condition_ticks.saturating_add(1);
        zone.price_modifier_percent = 20;
    } else {
        pressure.poor_condition_ticks = 0;
        zone.price_modifier_percent = 0;
    }
    if households.len() == 0 {
        return None;
    }
    let ghost before = households@;
    let mut h = households.remove(0);
    h.opportunity_score = if zone.threat_active {
        if h.opportunity_score >= 1 { h.opportunity_score - 1 } else { 0 }
    } else {
        if h.opportunity_score > 98 { 100 } else { h.opportunity_score + 2 }
    };
    let t = if pressure.unmet_demand_ticks >= 3 && h.status == HouseholdStatus::Travelling {
        h.status = HouseholdStatus::Candidate;
        h.clue = String::from_str("The mender may stay if the road demand remains real.");
        Some(HouseholdTransition::ArrivalCandidate)
    } else if pressure.unmet_demand_ticks >= 5 && h.status == HouseholdStatus::Candidate {
        h.status = HouseholdStatus::Arrived;
        h.clue = String::from_str(
            "The Maren household has opened a small repair bench at the Hearth.",
        );
        Some(HouseholdTransition::Arrival)
    } else if pressure.poor_condition_ticks >= 12 && h.status == HouseholdStatus::Arrived {
        h.status = HouseholdStatus::Departed;
        h.clue = String::from_str(
            "The repair bench is shuttered; the Marens left for safer roads.",
        );
        Some(HouseholdTransition::Departure)
    } else {
        None
    };
    households.insert(0, h);
    proof {
        assert forall|i: int| 1 <= i < before.len() implies households@[i] == before[i] by {
            assert(households@[i] == before.remove(0)[i - 1]);
        }
    }
    t
}

/// Whether the registry posts its reminder about a party on the road on
/// beat `tick`: every fourth beat while the expedition is launched.
pub fn expedition_reminder_due(launched: bool, tick: u64) -> (r: bool)
    ensures
        r == (launched && tick % 4 == 0),
{
    launched && tick % 4 == 0
}

// ---------------------------------------------------------------- laws

/// The household's opportunity score stays within 0..=100 once it is
/// there.
pub proof fn lemma_score_stays_in_range(score: i16, threat_active: bool)
    requires
        0 <= score <= 100,
    ensures
        0 <= next_score(score, threat_active) <= 100,
{
}

/// A contract pays once per report: after a report it waits out its
/// cooldown, and no step pays while it does.
pub proof fn lemma_report_pays_once(
    c: ContractProgress,
    c2: ContractProgress,
    a: Adventurer,
    a2: Adventurer,
    terms: ContractTerms,
    id: Seq<char>,
    tick: u64,
    action: ContractAction,
    r: ContractOutcome,
)
    requires
        contract_post(c, c2, a, a2, terms, id, tick, action, r),
        c.status == ContractStatus::Cooldown,
    ensures
        !r.accepted,
        a2 == a,
        c2 == c,
{
}

/// Progress never passes what the tavern requires.
pub proof fn lemma_progress_bounded(
    c: ContractProgress,
    c2: ContractProgress,
    a: Adventurer,
    a2: Adventurer,
    terms: ContractTerms,
    id: Seq<char>,
    tick: u64,
    action: ContractAction,
    r: ContractOutcome,
)
    requires
        contract_post(c, c2, a, a2, terms, id, tick, action, r),
        c.progress <= terms.required_progress,
    ensures
        c2.progress <= terms.required_progress,
{
}


// ---------------------------------------------------------------- the tavern board

/// The tavern ledger's entry for a contract.
#[derive(Debug, Clone)]
pub struct ContractTemplate {
    pub id: String,
    pub title: String,
    pub description: String,
    pub target: String,
    pub required_progress: u8,
    pub reward_gold: u32,
}

/// A contract as one adventurer sees it on the board.
#[derive(Debug, Clone)]
pub struct AdventurerContract {
    pub contract_id: String,
    pub title: String,
    pub description: String,
    pub target: String,
    pub progress: u8,
    pub required_progress: u8,
    pub reward_gold: u32,
    pub status: ContractStatus,
    pub completion_count: u32,
    pub available_at_tick: u64,
}

/// The standing of an adventurer who has not touched the contract.
pub open spec fn untouched() -> ContractProgress {
    ContractProgress { progress: 0, status: ContractStatus::Available, completion_count: 0, available_at_tick: 0 }
}

/// The board's view of `t` for an adventurer with standing `c` (none yet
/// when absent): the next report pays the base reward and two gold for
/// each earlier completion.
pub fn contract_view(t: &ContractTemplate, c: Option<ContractProgress>) -> (v: AdventurerContract)
    ensures
        ({
            let p = match c {
                Some(p) => p,
                None => untouched(),
            };
            &&& v.contract_id == t.id
            &&& v.title == t.title
            &&& v.description == t.description
            &&& v.target == t.target
            &&& v.progress == p.progress
            &&& v.required_progress == t.required_progress
            &&& v.reward_gold == report_reward(
                ContractTerms { required_progress: t.required_progress, reward_gold: t.reward_gold },
                p.completion_count,
            )
            &&& v.status == p.status
            &&& v.completion_count == p.completion_count
            &&& v.available_at_tick == p.available_at_tick
        }),
{
    let p = match c {
        Some(p) => p,
        None => ContractProgress { progress: 0, status: ContractStatus::Available, completion_count: 0, available_at_tick: 0 },
    };
    let bonus: u32 = if p.completion_count > u32::MAX / 2 { u32::MAX } else { 2 * p.completion_count };
    AdventurerContract {
        contract_id: t.id.clone(),
        title: t.title.clone(),
        description: t.description.clone(),
        target: t.target.clone(),
        progress: p.progress,
        required_progress: t.required_progress,
        reward_gold: t.reward_gold.saturating_add(bonus),
        status: p.status,
        completion_count: p.completion_count,
        available_at_tick: p.available_at_tick,
    }
}

pub open spec fn status_name(s: ExpeditionStatus) -> Seq<char> {
    match s {
        ExpeditionStatus::Planning => "Planning"@,
        ExpeditionStatus::Launched => "Launched"@,
        ExpeditionStatus::Succeeded => "Succeeded"@,
        ExpeditionStatus::Retreated => "Retreated"@,
    }
}

/// The rumours the tavern passes on: the wilderness's own, the first
/// household's clue, and where the pioneer party stands.
pub fn rumours(zone_rumour: &String, household_clue: Option<&String>, expedition: Option<(&String, ExpeditionStatus)>) -> (r: Vec<String>)
    ensures
        crate::ledger::views(r@) == seq![zone_rumour@] + (match household_clue {
            Some(c) => seq![c@],
            None => Seq::<Seq<char>>::empty(),
        }) + (match expedition {
            Some((name, status)) => seq![name@ + " is "@ + status_name(status) + " beyond the first road."@],
            None => Seq::<Seq<char>>::empty(),
        }),
{
    let mut r: Vec<String> = Vec::new();
    r.push(zone_rumour.clone());
    match household_clue {
        Some(c) => r.push(c.clone()),
        None => {},
    }
    match expedition {
        Some((name, status)) => {
            let label = match status {
                ExpeditionStatus::Planning => "Planning",
                ExpeditionStatus::Launched => "Launched",
                ExpeditionStatus::Succeeded => "Succeeded",
                ExpeditionStatus::Retreated => "Retreated",
            };
            proof {
                reveal_strlit("Planning");
                reveal_strlit("Launched");
                reveal_strlit("Succeeded");
                reveal_strlit("Retreated");
            }
            r.push(name.clone().concat(" is ").concat(label).concat(" beyond the first road."));
        },
        None => {},
    }
    proof {
        assert(crate::ledger::views(r@) =~= seq![zone_rumour@] + (match household_clue {
            Some(c) => seq![c@],
            None => Seq::<Seq<char>>::empty(),
        }) + (match expedition {
            Some((name, status)) => seq![name@ + " is "@ + status_name(status) + " beyond the first road."@],
            None => Seq::<Seq<char>>::empty(),
        }));
    }
    r
}

} // verus!
