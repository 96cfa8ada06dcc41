//! The First Beacon journey: each resident is credited once for each
//! milestone of the settlement's journey contract, with the evidence that
//! earned it; crediting every milestone opens the return-harvest goal.
use vstd::prelude::*;
use vstd::string::*;

verus! {

/// The most credits a journey holds.
pub const MAX_JOURNEY_CREDITS: usize = 12;

#[derive(Debug, Clone, Copy, PartialEq, Eq, Structural)]
pub enum MilestoneKind {
    ArriveAtBeacon,
    ConsultLocalNeed,
    PlantCommonField,
    HarvestCommonField,
    ReplantCommonField,
    ExploreWoodland,
    GatherTimber,
    ExploreStoneSeam,
    MineStone,
    ForgeFieldTool,
    CompleteBarter,
    ContributeStorehouse,
}

#[derive(Debug, Clone, Copy, PartialEq, Eq, Structural)]
pub enum EvidenceKind {
    Session,
    Interaction,
    Farming,
    Resource,
    Forge,
    Trade,
    Storehouse,
}

#[derive(Debug, Clone, Copy, PartialEq, Eq, Structural)]
pub enum FutureGoalState {
    NotStarted,
    Active,
    Complete,
}

#[derive(Debug, Clone)]
pub struct MilestoneDefinition {
    pub milestone_id: String,
    pub kind: MilestoneKind,
    pub evidence_kind: EvidenceKind,
    pub direction: String,
}

/// The journey's milestones and the return-harvest goal that follows them.
#[derive(Debug, Clone)]
pub struct JourneyContract {
    pub journey_id: String,
    pub milestones: Vec<MilestoneDefinition>,
    pub future_goal_direction: String,
}

#[derive(Debug, Clone)]
pub struct MilestoneCredit {
    pub milestone_id: String,
    pub evidence_kind: EvidenceKind,
    pub evidence_ref: String,
    pub credited_tick: u64,
}

#[derive(Debug, Clone)]
pub struct JourneyProgress {
    pub journey_id: String,
    pub credits: Vec<MilestoneCredit>,
    pub revision: u64,
    pub completed_tick: Option<u64>,
    pub future_goal_state: FutureGoalState,
    pub future_goal_completed_tick: Option<u64>,
}

#[derive(Debug, Clone, Copy, PartialEq, Eq, Structural)]
pub enum FieldWork {
    Plant,
    Tend,
    Harvest,
    TendAnimal,
}

// ---------------------------------------------------------------- specs

pub open spec fn sat_add_u64(a: u64, b: u64) -> u64 {
    if a + b > u64::MAX { u64::MAX } else { (a + b) as u64 }
}

/// The index of the contract's first milestone of kind `k`, or `-1`.
pub open spec fn milestone_of(ms: Seq<MilestoneDefinition>, k: MilestoneKind) -> int
    decreases ms.len(),
{
    if ms.len() == 0 {
        -1
    } else if ms[0].kind == k {
        0
    } else {
        let r = milestone_of(ms.drop_first(), k);
        if r < 0 { -1 } else { r + 1 }
    }
}

/// Whether the credits hold the milestone `id`.
pub open spec fn credited_with(cs: Seq<MilestoneCredit>, id: Seq<char>) -> bool {
    exists|i: int| 0 <= i < cs.len() && (#[trigger] cs[i]).milestone_id@ == id
}

/// A journey whose record was lost starts over as a fresh one.
pub open spec fn restored(p: JourneyProgress, journey_id: Seq<char>) -> bool {
    &&& p.journey_id@ == journey_id
    &&& p.credits@.len() == 0
    &&& p.revision == 0
    &&& p.completed_tick is None
    &&& p.future_goal_state == FutureGoalState::NotStarted
    &&& p.future_goal_completed_tick is None
}

/// The progress before a credit is weighed: restored when its journey id
/// was lost.
pub open spec fn ready(p: JourneyProgress, p1: JourneyProgress, journey_id: Seq<char>) -> bool {
    if p.journey_id@.len() == 0 { restored(p1, journey_id) } else { p1 == p }
}

/// Crediting the milestone of kind `k` with the evidence `evidence` on
/// beat `tick`.
pub open spec fn credited(
    p: JourneyProgress,
    p2: JourneyProgress,
    c: JourneyContract,
    k: MilestoneKind,
    evidence: Seq<char>,
    tick: u64,
) -> bool {
    let m = milestone_of(c.milestones@, k);
    if m < 0 {
        p2 == p
    } else {
        exists|p1: JourneyProgress|
            #[trigger] ready(p, p1, c.journey_id@) && {
                let d = c.milestones@[m];
                if credited_with(p1.credits@, d.milestone_id@) || p1.credits@.len()
                    >= MAX_JOURNEY_CREDITS {
                    p2 == p1
                } else {
                    let e = p2.credits@.last();
                    let full = p2.credits@.len() == c.milestones@.len();
                    &&& p2.credits@.drop_last() == p1.credits@
                    &&& p2.credits@.len() == p1.credits@.len() + 1
                    &&& e.milestone_id@ == d.milestone_id@
                    &&& e.evidence_kind == d.evidence_kind
                    &&& e.evidence_ref@ == evidence
                    &&& e.credited_tick == tick
                    &&& p2 == JourneyProgress {
                        credits: p2.credits,
                        revision: sat_add_u64(p1.revision, 1),
                        completed_tick: if full { Some(tick) } else { p1.completed_tick },
                        future_goal_state: if full { FutureGoalState::Active } else { p1.future_goal_state },
                        ..p1
                    }
                }
            }
    }
}

/// Whether the journey holds the milestone of kind `k`.
pub open spec fn has_credit_spec(p: JourneyProgress, c: JourneyContract, k: MilestoneKind) -> bool {
    let m = milestone_of(c.milestones@, k);
    m >= 0 && credited_with(p.credits@, c.milestones@[m].milestone_id@)
}

pub open spec fn goal_completed(p: JourneyProgress, p2: JourneyProgress, tick: u64) -> bool {
    if p.future_goal_state != FutureGoalState::Active {
        p2 == p
    } else {
        p2 == JourneyProgress {
            future_goal_state: FutureGoalState::Complete,
            future_goal_completed_tick: Some(tick),
            revision: sat_add_u64(p.revision, 1),
            ..p
        }
    }
}

/// The index of the first milestone not yet credited, or `-1`.
pub open spec fn next_milestone(ms: Seq<MilestoneDefinition>, cs: Seq<MilestoneCredit>) -> int
    decreases ms.len(),
{
    if ms.len() == 0 {
        -1
    } else if !credited_with(cs, ms[0].milestone_id@) {
        0
    } else {
        let r = next_milestone(ms.drop_first(), cs);
        if r < 0 { -1 } else { r + 1 }
    }
}

pub open spec fn explore_kind(mining: bool) -> MilestoneKind {
    if mining { MilestoneKind::ExploreStoneSeam } else { MilestoneKind::ExploreWoodland }
}

pub open spec fn work_kind(mining: bool) -> MilestoneKind {
    if mining { MilestoneKind::MineStone } else { MilestoneKind::GatherTimber }
}

/// What the journey asks of its resident next.
pub open spec fn next_action_spec(p: JourneyProgress, c: JourneyContract) -> Seq<char> {
    let n = next_milestone(c.milestones@, p.credits@);
    if n >= 0 {
        c.milestones@[n].direction@
    } else if p.future_goal_state == FutureGoalState::Active {
        c.future_goal_direction@
    } else if p.future_goal_state == FutureGoalState::Complete {
        "The return harvest is complete; choose your next work at the Beacon."@
    } else {
        "Reassess the First Beacon journey state."@
    }
}

// ---------------------------------------------------------------- helpers

proof fn lemma_milestone_of_bounds(ms: Seq<MilestoneDefinition>, k: MilestoneKind)
    ensures
        -1 <= milestone_of(ms, k) < ms.len(),
    decreases ms.len(),
{
    if ms.len() > 0 && ms[0].kind != k {
        lemma_milestone_of_bounds(ms.drop_first(), k);
    }
}

proof fn lemma_next_milestone_bounds(ms: Seq<MilestoneDefinition>, cs: Seq<MilestoneCredit>)
    ensures
        -1 <= next_milestone(ms, cs) < ms.len(),
    decreases ms.len(),
{
    if ms.len() > 0 && credited_with(cs, ms[0].milestone_id@) {
        lemma_next_milestone_bounds(ms.drop_first(), cs);
    }
}

fn find_milestone(ms: &Vec<MilestoneDefinition>, k: MilestoneKind) -> (r: Option<usize>)
    ensures
        match r {
            Some(i) => i as int == milestone_of(ms@, k) && i < ms@.len(),
            None => milestone_of(ms@, k) < 0,
        },
{
    proof {
        lemma_milestone_of_bounds(ms@, k);
    }
    let n = ms.len();
    let mut i: usize = 0;
    assert(ms@.subrange(0, n as int) =~= ms@);
    while i < n
        invariant
            n == ms@.len(),
            i <= n,
            milestone_of(ms@, k) == if milestone_of(ms@.subrange(i as int, n as int), k) < 0 {
                -1
            } else {
                milestone_of(ms@.subrange(i as int, n as int), k) + i
            },
        decreases n - i,
    {
        let ghost rest = ms@.subrange(i as int, n as int);
        assert(rest.drop_first() =~= ms@.subrange(i + 1, n as int));
        assert(rest[0] == ms@[i as int]);
        if ms[i].kind == k {
            return Some(i);
        }
        i = i + 1;
    }
    assert(ms@.subrange(n as int, n as int).len() == 0);
    None
}

/// Whether the credits hold the milestone `id`.
pub fn holds_credit(cs: &Vec<MilestoneCredit>, id: &String) -> (r: bool)
    ensures
        r == credited_with(cs@, id@),
{
    let n = cs.len();
    for i in 0..n
        invariant
            n == cs@.len(),
            forall|q: int| 0 <= q < i ==> (#[trigger] cs@[q]).milestone_id@ != id@,
    {
        if cs[i].milestone_id == *id {
            assert(cs@[i as int].milestone_id@ == id@);
            return true;
        }
    }
    false
}

/// Starts a journey over when its record lost its journey id.
pub fn restore_progress(p: &mut JourneyProgress, journey_id: &String)
    ensures
        ready(*old(p), *final(p), journey_id@),
{
    if p.journey_id.as_str().is_empty() {
        *p = JourneyProgress {
            journey_id: journey_id.clone(),
            credits: Vec::new(),
            revision: 0,
            completed_tick: None,
            future_goal_state: FutureGoalState::NotStarted,
            future_goal_completed_tick: None,
        };
    }
}

// ---------------------------------------------------------------- credits

/// Credits the milestone of kind `k` with `evidence` on beat `tick`,
/// once: a milestone already held, or a full journey, is left as it is.
pub fn credit(
    p: &mut JourneyProgress,
    c: &JourneyContract,
    k: MilestoneKind,
    evidence: String,
    tick: u64,
)
    ensures
        credited(*old(p), *final(p), *c, k, evidence@, tick),
{
    let Some(m) = find_milestone(&c.milestones, k) else {
        return;
    };
    let ghost p0 = *p;
    if p.journey_id.as_str().is_empty() {
        *p = JourneyProgress {
            journey_id: c.journey_id.clone(),
            credits: Vec::new(),
            revision: 0,
            completed_tick: None,
            future_goal_state: FutureGoalState::NotStarted,
            future_goal_completed_tick: None,
        };
    }
    let ghost p1 = *p;
    assert(ready(p0, p1, c.journey_id@));
    let d = &c.milestones[m];
    if holds_credit(&p.credits, &d.milestone_id) || p.credits.len() >= MAX_JOURNEY_CREDITS {
        return;
    }
    let ghost before = p.credits@;
    p.credits.push(
        MilestoneCredit {
            milestone_id: d.milestone_id.clone(),
            evidence_kind: d.evidence_kind,
            evidence_ref: evidence,
            credited_tick: tick,
        },
    );
    assert(p.credits@.drop_last() =~= before);
    p.revision = p.revision.saturating_add(1);
    if p.credits.len() == c.milestones.len() {
        p.completed_tick = Some(tick);
        p.future_goal_state = FutureGoalState::Active;
    }
}

/// Whether the journey holds the milestone of kind `k`.
pub fn has_credit(p: &JourneyProgress, c: &JourneyContract, k: MilestoneKind) -> (r: bool)
    ensures
        r == has_credit_spec(*p, *c, k),
{
    match find_milestone(&c.milestones, k) {
        Some(m) => holds_credit(&p.credits, &c.milestones[m].milestone_id),
        None => false,
    }
}

/// Completes the return-harvest goal on beat `tick` if it is active.
pub fn complete_future_goal(p: &mut JourneyProgress, tick: u64)
    ensures
        goal_completed(*old(p), *final(p), tick),
{
    if p.future_goal_state != FutureGoalState::Active {
        return;
    }
    p.future_goal_state = FutureGoalState::Complete;
    p.future_goal_completed_tick = Some(tick);
    p.revision = p.revision.saturating_add(1);
}

fn evidence(prefix: &str, id: &str) -> (s: String)
    ensures
        s@ == prefix@ + id@,
{
    String::from_str(prefix).concat(id)
}

/// Credits what field work earns: a first planting, a replanting after a
/// harvest, and a harvest, which completes the return-harvest goal when
/// that is active.
pub fn record_farming(p: &mut JourneyProgress, c: &JourneyContract, work: FieldWork, request_id: &str, tick: u64)
    ensures
        match work {
            FieldWork::Plant => if !has_credit_spec(*old(p), *c, MilestoneKind::PlantCommonField) {
                credited(*old(p), *final(p), *c, MilestoneKind::PlantCommonField, "farming:"@ + request_id@, tick)
            } else if has_credit_spec(*old(p), *c, MilestoneKind::HarvestCommonField) {
                credited(*old(p), *final(p), *c, MilestoneKind::ReplantCommonField, "farming:"@ + request_id@, tick)
            } else {
                *final(p) == *old(p)
            },
            FieldWork::Harvest => if old(p).future_goal_state == FutureGoalState::Active {
                goal_completed(*old(p), *final(p), tick)
            } else {
                credited(*old(p), *final(p), *c, MilestoneKind::HarvestCommonField, "farming:"@ + request_id@, tick)
            },
            _ => *final(p) == *old(p),
        },
{
    match work {
        FieldWork::Plant => {
            if !has_credit(p, c, MilestoneKind::PlantCommonField) {
                credit(p, c, MilestoneKind::PlantCommonField, evidence("farming:", request_id), tick);
            } else if has_credit(p, c, MilestoneKind::HarvestCommonField) {
                credit(p, c, MilestoneKind::ReplantCommonField, evidence("farming:", request_id), tick);
            }
        },
        FieldWork::Harvest => {
            if p.future_goal_state == FutureGoalState::Active {
                complete_future_goal(p, tick);
            } else {
                credit(p, c, MilestoneKind::HarvestCommonField, evidence("farming:", request_id), tick);
            }
        },
        _ => {},
    }
}

/// The milestone for arriving at the Beacon.
pub fn record_arrival(p: &mut JourneyProgress, c: &JourneyContract, tick: u64)
    ensures
        credited(*old(p), *final(p), *c, MilestoneKind::ArriveAtBeacon, "session:arrive-first-beacon"@, tick),
{
    credit(p, c, MilestoneKind::ArriveAtBeacon, String::from_str("session:arrive-first-beacon"), tick);
}

/// The milestone for consulting the settlement's local need, earned by
/// speaking with the builder or reading the noticeboard.
pub fn record_interaction(p: &mut JourneyProgress, c: &JourneyContract, interaction_id: &str, tick: u64)
    ensures
        if interaction_id@ == "speak-with-builder"@ || interaction_id@ == "read-local-needs"@ {
            credited(*old(p), *final(p), *c, MilestoneKind::ConsultLocalNeed, "interaction:"@ + interaction_id@, tick)
        } else {
            *final(p) == *old(p)
        },
{
    let id = String::from_str(interaction_id);
    if id == String::from_str("speak-with-builder") || id == String::from_str("read-local-needs") {
        credit(p, c, MilestoneKind::ConsultLocalNeed, evidence("interaction:", interaction_id), tick);
    }
}

/// The milestones for gathering: exploring the place, then working it.
pub fn record_resource(p: &mut JourneyProgress, c: &JourneyContract, mining: bool, request_id: &str, tick: u64)
    ensures
        exists|mid: JourneyProgress|
            #[trigger] credited(
                *old(p),
                mid,
                *c,
                explore_kind(mining),
                "resource:"@ + request_id@ + ":arrival"@,
                tick,
            ) && credited(
                mid,
                *final(p),
                *c,
                work_kind(mining),
                "resource:"@ + request_id@,
                tick,
            ),
{
    let (explore, work) = if mining {
        (MilestoneKind::ExploreStoneSeam, MilestoneKind::MineStone)
    } else {
        (MilestoneKind::ExploreWoodland, MilestoneKind::GatherTimber)
    };
    credit(p, c, explore, evidence("resource:", request_id).concat(":arrival"), tick);
    let ghost mid = *p;
    credit(p, c, work, evidence("resource:", request_id), tick);
}

/// The milestone for forging the field tool.
pub fn record_forge(p: &mut JourneyProgress, c: &JourneyContract, forged_tool: bool, request_id: &str, tick: u64)
    ensures
        if forged_tool {
            credited(*old(p), *final(p), *c, MilestoneKind::ForgeFieldTool, "forge:"@ + request_id@, tick)
        } else {
            *final(p) == *old(p)
        },
{
    if forged_tool {
        credit(p, c, MilestoneKind::ForgeFieldTool, evidence("forge:", request_id), tick);
    }
}

/// The milestone for completing a barter, credited to each party.
pub fn record_trade(p: &mut JourneyProgress, c: &JourneyContract, trade_id: &str, tick: u64)
    ensures
        credited(*old(p), *final(p), *c, MilestoneKind::CompleteBarter, "trade:"@ + trade_id@, tick),
{
    credit(p, c, MilestoneKind::CompleteBarter, evidence("trade:", trade_id), tick);
}

/// The milestone for contributing to the storehouse.
pub fn record_storehouse(p: &mut JourneyProgress, c: &JourneyContract, contributed: bool, request_id: &str, tick: u64)
    ensures
        if contributed {
            credited(*old(p), *final(p), *c, MilestoneKind::ContributeStorehouse, "storehouse:"@ + request_id@, tick)
        } else {
            *final(p) == *old(p)
        },
{
    if contributed {
        credit(p, c, MilestoneKind::ContributeStorehouse, evidence("storehouse:", request_id), tick);
    }
}

/// The index of the first milestone not yet credited.
pub fn next_milestone_index(p: &JourneyProgress, c: &JourneyContract) -> (r: Option<usize>)
    ensures
        match r {
            Some(i) => i as int == next_milestone(c.milestones@, p.credits@) && i < c.milestones@.len(),
            None => next_milestone(c.milestones@, p.credits@) < 0,
        },
{
    proof {
        lemma_next_milestone_bounds(c.milestones@, p.credits@);
    }
    let ms = &c.milestones;
    let n = ms.len();
    let mut i: usize = 0;
    assert(ms@.subrange(0, n as int) =~= ms@);
    while i < n
        invariant
            n == ms@.len(),
            ms == &c.milestones,
            i <= n,
            next_milestone(ms@, p.credits@) == if next_milestone(ms@.subrange(i as int, n as int), p.credits@) < 0 {
                -1
            } else {
                next_milestone(ms@.subrange(i as int, n as int), p.credits@) + i
            },
        decreases n - i,
    {
        let ghost rest = ms@.subrange(i as int, n as int);
        assert(rest.drop_first() =~= ms@.subrange(i + 1, n as int));
        assert(rest[0] == ms@[i as int]);
        if !holds_credit(&p.credits, &ms[i].milestone_id) {
            return Some(i);
        }
        i = i + 1;
    }
    assert(ms@.subrange(n as int, n as int).len() == 0);
    None
}

/// What the journey asks of its resident next.
pub fn next_action(p: &JourneyProgress, c: &JourneyContract) -> (s: String)
    ensures
        s@ == next_action_spec(*p, *c),
{
    match next_milestone_index(p, c) {
        Some(i) => c.milestones[i].direction.clone(),
        None => if p.future_goal_state == FutureGoalState::Active {
            c.future_goal_direction.clone()
        } else if p.future_goal_state == FutureGoalState::Complete {
            String::from_str("The return harvest is complete; choose your next work at the Beacon.")
        } else {
            String::from_str("Reassess the First Beacon journey state.")
        },
    }
}

// ---------------------------------------------------------------- laws

/// No milestone is credited twice, and a journey never holds more than
/// its bound of credits.
pub proof fn lemma_credits_stay_distinct_and_bounded(
    p: JourneyProgress,
    p2: JourneyProgress,
    c: JourneyContract,
    k: MilestoneKind,
    evidence: Seq<char>,
    tick: u64,
)
    requires
        credited(p, p2, c, k, evidence, tick),
        p.credits@.len() <= MAX_JOURNEY_CREDITS,
        forall|i: int, j: int|
            0 <= i < j < p.credits@.len() ==> p.credits@[i].milestone_id@ != p.credits@[j].milestone_id@,
    ensures
        p2.credits@.len() <= MAX_JOURNEY_CREDITS,
        forall|i: int, j: int|
            0 <= i < j < p2.credits@.len() ==> p2.credits@[i].milestone_id@ != p2.credits@[j].milestone_id@,
{
    let m = milestone_of(c.milestones@, k);
    if m >= 0 {
        let p1 = choose|p1: JourneyProgress| #[trigger] ready(p, p1, c.journey_id@) && {
            let d = c.milestones@[m];
            if credited_with(p1.credits@, d.milestone_id@) || p1.credits@.len() >= MAX_JOURNEY_CREDITS {
                p2 == p1
            } else {
                let e = p2.credits@.last();
                let full = p2.credits@.len() == c.milestones@.len();
                &&& p2.credits@.drop_last() == p1.credits@
                &&& p2.credits@.len() == p1.credits@.len() + 1
                &&& e.milestone_id@ == d.milestone_id@
                &&& e.evidence_kind == d.evidence_kind
                &&& e.evidence_ref@ == evidence
                &&& e.credited_tick == tick
                &&& p2 == JourneyProgress {
                    credits: p2.credits,
                    revision: sat_add_u64(p1.revision, 1),
                    completed_tick: if full { Some(tick) } else { p1.completed_tick },
                    future_goal_state: if full { FutureGoalState::Active } else { p1.future_goal_state },
                    ..p1
                }
            }
        };
        let d = c.milestones@[m];
        if !(credited_with(p1.credits@, d.milestone_id@) || p1.credits@.len() >= MAX_JOURNEY_CREDITS) {
            assert forall|i: int, j: int|
                0 <= i < j < p2.credits@.len() implies p2.credits@[i].milestone_id@ != p2.credits@[j].milestone_id@ by {
                if j == p2.credits@.len() - 1 {
                    assert(p2.credits@[i] == p1.credits@[i]);
                    if p2.credits@[i].milestone_id@ == p2.credits@[j].milestone_id@ {
                        assert(credited_with(p1.credits@, d.milestone_id@));
                    }
                } else {
                    assert(p2.credits@[i] == p1.credits@[i]);
                    assert(p2.credits@[j] == p1.credits@[j]);
                }
            }
        }
    }
}

} // verus!
