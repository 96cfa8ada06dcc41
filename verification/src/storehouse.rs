//! Mara's First Beacon storehouse: residents contribute timber and stone,
//! or gold at a fixed rate per unit, until every stage gate is met; the
//! finished storehouse joins the settlement's public infrastructure with
//! every contributor attributed.
use crate::errors::{RepositoryError, validate_bounded_text};
use crate::frontier::Position;
use crate::governance::{
    InfrastructureKind, InfrastructureRecord, MAX_INFRASTRUCTURE_RECORDS,
    infrastructure_status, status_for,
};
use crate::ledger::{remember, remember_spec, views};
use crate::retention::{newest, retain_recent};
use crate::text::{decimal, numbered, trim_seq};
use vstd::prelude::*;
use vstd::string::*;

verus! {

/// The most contributions the project ledger holds.
pub const MAX_CONTRIBUTIONS: usize = 64;

/// The most materials credited at once.
pub const MAX_MATERIAL_CONTRIBUTION: u32 = 99;

/// The most gold credited at once.
pub const MAX_GOLD_CONTRIBUTION: u32 = 10_000;

#[derive(Debug, Clone, Copy, PartialEq, Eq, Structural)]
pub enum ResourceKind {
    Timber,
    Stone,
    IronOre,
}

#[derive(Debug, Clone, Copy, PartialEq, Eq, Structural)]
pub enum StorehouseStage {
    SiteMarked,
    Building,
    Operational,
}

#[derive(Debug, Clone, Copy, PartialEq, Eq, Structural)]
pub enum ContributionInput {
    Material { kind: ResourceKind, amount: u32 },
    Gold { toward: ResourceKind, amount: u32 },
}

#[derive(Debug, Clone, Copy, PartialEq, Eq, Structural)]
pub struct Requirement {
    pub kind: ResourceKind,
    pub units_required: u32,
    pub gold_per_unit: u32,
}

#[derive(Debug, Clone, Copy, PartialEq, Eq, Structural)]
pub struct UnitsRequired {
    pub kind: ResourceKind,
    pub amount: u32,
}

#[derive(Debug, Clone)]
pub struct StageGate {
    pub stage: StorehouseStage,
    pub credited_units_required: Vec<UnitsRequired>,
    pub visible_label: String,
}

#[derive(Debug, Clone)]
pub struct Contribution {
    pub contribution_id: String,
    pub account_id: String,
    pub input: ContributionInput,
    pub credited_kind: ResourceKind,
    pub credited_units: u32,
    pub contributed_tick: u64,
}

#[derive(Debug, Clone)]
pub struct Completion {
    pub completed_tick: u64,
    pub contributor_account_ids: Vec<String>,
    pub operational_infrastructure_id: String,
}

#[derive(Debug, Clone)]
pub struct StorehouseProject {
    pub project_id: String,
    pub builder_landmark_id: String,
    pub noticeboard_landmark_id: String,
    pub site_landmark_id: String,
    pub operational_infrastructure_id: String,
    pub requirements: Vec<Requirement>,
    pub stages: Vec<StageGate>,
    pub contributions: Vec<Contribution>,
    pub current_stage: StorehouseStage,
    pub completion: Option<Completion>,
    pub revision: u64,
}

/// What of a resident a contribution reads and spends.
#[derive(Debug, Clone)]
pub struct Contributor {
    pub account_id: String,
    pub display_name: String,
    pub position: Position,
    pub gold: u32,
    pub timber: u32,
    pub stone: u32,
    pub iron_ore: u32,
}

#[derive(Debug, Clone, Copy, PartialEq, Eq, Structural)]
pub enum StorehouseAction {
    Inspect,
    Contribute,
}

#[derive(Debug, Clone)]
pub struct StorehouseRequest {
    pub action: StorehouseAction,
    pub landmark_id: String,
    pub contribution: Option<ContributionInput>,
}

#[derive(Debug, Clone)]
pub struct StorehouseOutcome {
    pub accepted: bool,
    pub reason: Option<String>,
    /// The chronicle lines the command asks for, in order.
    pub chronicle: Vec<String>,
}

// ---------------------------------------------------------------- specs

pub open spec fn sat_add_u32(a: u32, b: u32) -> u32 {
    if a + b > u32::MAX { u32::MAX } else { (a + b) as u32 }
}

pub open spec fn sat_sub_u32(a: u32, b: u32) -> u32 {
    if a >= b { (a - b) as u32 } else { 0 }
}

pub open spec fn sat_add_u64(a: u64, b: u64) -> u64 {
    if a + b > u64::MAX { u64::MAX } else { (a + b) as u64 }
}

/// Units credited toward `k`, summed in ledger order and saturating.
pub open spec fn credited(cs: Seq<Contribution>, k: ResourceKind) -> u32
    decreases cs.len(),
{
    if cs.len() == 0 {
        0
    } else {
        let c = cs.last();
        sat_add_u32(credited(cs.drop_last(), k), if c.credited_kind == k { c.credited_units } else { 0 })
    }
}

/// The index of the first requirement for `k`, or `-1`.
pub open spec fn requirement_for(reqs: Seq<Requirement>, k: ResourceKind) -> int
    decreases reqs.len(),
{
    if reqs.len() == 0 {
        -1
    } else if reqs[0].kind == k {
        0
    } else {
        let r = requirement_for(reqs.drop_first(), k);
        if r < 0 { -1 } else { r + 1 }
    }
}

/// Units of `k` the project can still credit.
pub open spec fn remaining(reqs: Seq<Requirement>, cs: Seq<Contribution>, k: ResourceKind) -> u32 {
    let i = requirement_for(reqs, k);
    if i < 0 { 0 } else { sat_sub_u32(reqs[i].units_required, credited(cs, k)) }
}

/// The gold Mara takes for one unit of `k`, if gold may replace it.
pub open spec fn rate_for(reqs: Seq<Requirement>, k: ResourceKind) -> Option<u32> {
    let i = requirement_for(reqs, k);
    if i < 0 { None } else { Some(reqs[i].gold_per_unit) }
}

pub open spec fn gate_met(cs: Seq<Contribution>, gate: StageGate) -> bool {
    forall|j: int|
        0 <= j < gate.credited_units_required@.len() ==> credited(
            cs,
            (#[trigger] gate.credited_units_required@[j]).kind,
        ) >= gate.credited_units_required@[j].amount
}

/// The stage of the last gate whose every requirement is credited, or
/// [`StorehouseStage::SiteMarked`] when none is.
pub open spec fn stage_reached(cs: Seq<Contribution>, gates: Seq<StageGate>) -> StorehouseStage
    decreases gates.len(),
{
    if gates.len() == 0 {
        StorehouseStage::SiteMarked
    } else if gate_met(cs, gates.last()) {
        gates.last().stage
    } else {
        stage_reached(cs, gates.drop_last())
    }
}

/// The accounts of a ledger, each once, in the order they first gave.
pub open spec fn contributors_of(cs: Seq<Contribution>) -> Seq<Seq<char>>
    decreases cs.len(),
{
    if cs.len() == 0 {
        Seq::empty()
    } else {
        remember_spec(contributors_of(cs.drop_last()), cs.last().account_id@)
    }
}

pub open spec fn resource_label_spec(k: ResourceKind) -> Seq<char> {
    match k {
        ResourceKind::Timber => "timber"@,
        ResourceKind::Stone => "stone"@,
        ResourceKind::IronOre => "iron ore"@,
    }
}

pub open spec fn carried(p: Contributor, k: ResourceKind) -> u32 {
    match k {
        ResourceKind::Timber => p.timber,
        ResourceKind::Stone => p.stone,
        ResourceKind::IronOre => p.iron_ore,
    }
}

pub open spec fn num(n: u32) -> Seq<char> {
    decimal(n as nat)
}

/// What a contribution would credit, as a kind and a number of units, or
/// the reason it is refused.
pub open spec fn credit_of(
    reqs: Seq<Requirement>,
    cs: Seq<Contribution>,
    p: Contributor,
    input: ContributionInput,
) -> Result<(ResourceKind, u32), Seq<char>> {
    match input {
        ContributionInput::Material { kind, amount } => if amount == 0 || amount
            > MAX_MATERIAL_CONTRIBUTION {
            Err("Contribute between 1 and 99 materials at once."@)
        } else if !(kind == ResourceKind::Timber || kind == ResourceKind::Stone) {
            Err("This storehouse needs timber or stone."@)
        } else if amount > remaining(reqs, cs, kind) {
            Err(
                "Only "@ + num(remaining(reqs, cs, kind)) + " more "@ + resource_label_spec(kind)
                    + " can be credited."@,
            )
        } else if carried(p, kind) < amount {
            Err("You do not carry "@ + num(amount) + " "@ + resource_label_spec(kind) + "."@)
        } else {
            Ok((kind, amount))
        },
        ContributionInput::Gold { toward, amount } => if amount == 0 || amount
            > MAX_GOLD_CONTRIBUTION {
            Err("Contribute between 1 and 10,000 gold at once."@)
        } else if rate_for(reqs, toward) is None {
            Err("Gold can replace only the listed timber or stone."@)
        } else {
            let rate = rate_for(reqs, toward)->0;
            if amount % rate != 0 {
                Err(
                    "Mara credits "@ + resource_label_spec(toward) + " at exactly "@ + num(rate)
                        + " gold per unit."@,
                )
            } else if amount / rate > remaining(reqs, cs, toward) {
                Err(
                    "Only "@ + num(remaining(reqs, cs, toward)) + " more "@ + resource_label_spec(
                        toward,
                    ) + " units can be funded."@,
                )
            } else if p.gold < amount {
                Err("You do not carry "@ + num(amount) + " gold."@)
            } else {
                Ok((toward, (amount / rate) as u32))
            }
        },
    }
}

/// The contributor after handing over what `input` names.
pub open spec fn paid(p: Contributor, input: ContributionInput) -> Contributor {
    match input {
        ContributionInput::Material { kind, amount } => match kind {
            ResourceKind::Timber => Contributor { timber: (p.timber - amount) as u32, ..p },
            ResourceKind::Stone => Contributor { stone: (p.stone - amount) as u32, ..p },
            ResourceKind::IronOre => Contributor { iron_ore: (p.iron_ore - amount) as u32, ..p },
        },
        ContributionInput::Gold { amount, .. } => Contributor { gold: (p.gold - amount) as u32, ..p },
    }
}

/// How a contribution reads in the chronicle.
pub open spec fn input_label(input: ContributionInput, units: u32) -> Seq<char> {
    match input {
        ContributionInput::Material { kind, amount } => num(amount) + " "@ + resource_label_spec(
            kind,
        ),
        ContributionInput::Gold { toward, amount } => num(amount) + " gold toward "@ + num(units)
            + " "@ + resource_label_spec(toward),
    }
}

pub open spec fn completion_note() -> Seq<char> {
    "Mara's completed storehouse keeps shared settlement goods dry and usable."@
}

/// The public building a completed storehouse adds to the settlement.
pub open spec fn is_storehouse_record(r: InfrastructureRecord, id: Seq<char>) -> bool {
    &&& r.infrastructure_id@ == id
    &&& r.name@ == "First Beacon storehouse"@
    &&& r.kind == InfrastructureKind::PublicBuilding
    &&& r.position == Position { x: 6, y: 7 }
    &&& r.condition == 100
    &&& r.upkeep_per_day == 1
    &&& r.service_quality == 85
    &&& r.status == status_for(100)
    &&& r.last_maintained_tick == 0
    &&& r.failure_note matches Some(n) && n@ == completion_note()
}

/// The project, infrastructure and contributor after an accepted
/// contribution that credits `units` of `k`.
pub open spec fn contributed(
    p: StorehouseProject,
    p2: StorehouseProject,
    infra: Seq<InfrastructureRecord>,
    infra2: Seq<InfrastructureRecord>,
    c: Contributor,
    tick: u64,
    input: ContributionInput,
    k: ResourceKind,
    units: u32,
    chronicle: Seq<String>,
) -> bool {
    let rev = sat_add_u64(p.revision, 1);
    let cs2 = p2.contributions@;
    let entry = cs2.last();
    let stage = stage_reached(cs2, p.stages@);
    let line = c.display_name@ + " contributes "@ + input_label(input, units)
        + " to Mara's project."@;
    &&& p2 == StorehouseProject {
        revision: rev,
        contributions: p2.contributions,
        current_stage: stage,
        completion: p2.completion,
        ..p
    }
    &&& cs2.len() == p.contributions@.len() + 1
    &&& cs2.drop_last() == p.contributions@
    &&& entry.contribution_id@ == "storehouse-contribution-"@ + decimal(rev as nat)
    &&& entry.account_id@ == c.account_id@
    &&& entry.input == input
    &&& entry.credited_kind == k
    &&& entry.credited_units == units
    &&& entry.contributed_tick == tick
    &&& if stage == StorehouseStage::Operational {
        &&& p2.completion matches Some(done) && {
            &&& done.completed_tick == tick
            &&& views(done.contributor_account_ids@) == contributors_of(cs2)
            &&& done.operational_infrastructure_id@ == p.operational_infrastructure_id@
        }
        &&& infra2.len() == newest(infra.push(infra2.last()), MAX_INFRASTRUCTURE_RECORDS as nat).len()
        &&& infra2 == newest(infra.push(infra2.last()), MAX_INFRASTRUCTURE_RECORDS as nat)
        &&& is_storehouse_record(infra2.last(), p.operational_infrastructure_id@)
        &&& chronicle.len() == 2
        &&& chronicle[0]@ == line
        &&& chronicle[1]@
            == "Mara opens a weatherproof public storehouse built from attributed player contributions."@
    } else {
        &&& p2.completion == p.completion
        &&& infra2 == infra
        &&& chronicle.len() == 1
        &&& chronicle[0]@ == line
    }
}

/// The outcome of a contribution on a project that can still take one.
pub open spec fn contribution_post(
    p: StorehouseProject,
    p2: StorehouseProject,
    infra: Seq<InfrastructureRecord>,
    infra2: Seq<InfrastructureRecord>,
    c: Contributor,
    c2: Contributor,
    tick: u64,
    input: ContributionInput,
    r: StorehouseOutcome,
) -> bool {
    match credit_of(p.requirements@, p.contributions@, c, input) {
        Err(text) => {
            &&& !r.accepted
            &&& r.reason matches Some(s) && s@ == text
            &&& r.chronicle@.len() == 0
            &&& p2 == p && infra2 == infra && c2 == c
        },
        Ok((k, units)) => {
            &&& r.accepted && r.reason is None
            &&& c2 == paid(c, input)
            &&& contributed(p, p2, infra, infra2, c, tick, input, k, units, r.chronicle@)
        },
    }
}

/// The requests the project turns down before looking at a contribution,
/// in the order they are checked.
pub open spec fn contribute_refusal(
    p: StorehouseProject,
    infra: Seq<InfrastructureRecord>,
    landmark: Seq<char>,
    input: Option<ContributionInput>,
) -> Option<Seq<char>> {
    if landmark == p.noticeboard_landmark_id@ {
        Some("Read the need here, then contribute beside Mara or the storehouse site."@)
    } else if p.completion is Some {
        Some("The First Beacon storehouse is already built."@)
    } else if exists|i: int|
        0 <= i < infra.len() && (#[trigger] infra[i]).infrastructure_id@
            == p.operational_infrastructure_id@ {
        Some(
            "The infrastructure registry already contains this storehouse; support must reconcile the project ledger."@,
        )
    } else if p.contributions@.len() >= MAX_CONTRIBUTIONS {
        Some(
            "The bounded contribution ledger is full; support must archive it before more work."@,
        )
    } else if input is None {
        Some("Choose materials or gold to contribute."@)
    } else {
        None
    }
}

/// A landmark of the project.
pub open spec fn is_project_landmark(p: StorehouseProject, id: Seq<char>) -> bool {
    id == p.builder_landmark_id@ || id == p.noticeboard_landmark_id@ || id == p.site_landmark_id@
}

pub open spec fn abs_diff(a: i32, b: i32) -> int {
    if a >= b { a - b } else { b - a }
}

/// Beside a landmark: at most one step away.
pub open spec fn beside(a: Position, b: Position) -> bool {
    abs_diff(a.x, b.x) + abs_diff(a.y, b.y) <= 1
}

pub open spec fn rates_positive(reqs: Seq<Requirement>) -> bool {
    forall|i: int| 0 <= i < reqs.len() ==> (#[trigger] reqs[i]).gold_per_unit > 0
}

pub open spec fn storehouse_refused(
    p: StorehouseProject,
    p2: StorehouseProject,
    infra: Seq<InfrastructureRecord>,
    infra2: Seq<InfrastructureRecord>,
    c: Contributor,
    c2: Contributor,
    r: StorehouseOutcome,
    text: Seq<char>,
) -> bool {
    &&& !r.accepted
    &&& r.reason matches Some(s) && s@ == text
    &&& r.chronicle@.len() == 0
    &&& p2 == p && infra2 == infra && c2 == c
}

/// The outcome of a storehouse command at the landmark `landmark`, whose
/// position the settlement's map gives as `at`.
pub open spec fn storehouse_post(
    p: StorehouseProject,
    p2: StorehouseProject,
    infra: Seq<InfrastructureRecord>,
    infra2: Seq<InfrastructureRecord>,
    c: Contributor,
    c2: Contributor,
    landmark: Seq<char>,
    at: Option<Position>,
    tick: u64,
    req: StorehouseRequest,
    r: StorehouseOutcome,
) -> bool {
    if !is_project_landmark(p, landmark) || at is None {
        storehouse_refused(
            p,
            p2,
            infra,
            infra2,
            c,
            c2,
            r,
            "Use Mara, the First Beacon noticeboard, or the marked storehouse site."@,
        )
    } else if !beside(c.position, at->0) {
        storehouse_refused(p, p2, infra, infra2, c, c2, r, "Walk beside that storehouse landmark first."@)
    } else {
        match req.action {
            StorehouseAction::Inspect => if req.contribution is Some {
                storehouse_refused(
                    p,
                    p2,
                    infra,
                    infra2,
                    c,
                    c2,
                    r,
                    "Inspection does not accept a contribution payload."@,
                )
            } else {
                r.accepted && r.reason is None && r.chronicle@.len() == 0 && p2 == p && infra2
                    == infra && c2 == c
            },
            StorehouseAction::Contribute => match contribute_refusal(
                p,
                infra,
                landmark,
                req.contribution,
            ) {
                Some(text) => storehouse_refused(p, p2, infra, infra2, c, c2, r, text),
                None => contribution_post(
                    p,
                    p2,
                    infra,
                    infra2,
                    c,
                    c2,
                    tick,
                    req.contribution->0,
                    r,
                ),
            },
        }
    }
}

// ---------------------------------------------------------------- helpers

proof fn lemma_requirement_for_bounds(reqs: Seq<Requirement>, k: ResourceKind)
    ensures
        -1 <= requirement_for(reqs, k) < reqs.len(),
        requirement_for(reqs, k) >= 0 ==> reqs[requirement_for(reqs, k)].kind == k,
    decreases reqs.len(),
{
    if reqs.len() > 0 && reqs[0].kind != k {
        lemma_requirement_for_bounds(reqs.drop_first(), k);
    }
}

/// Units credited toward `k` by the ledger `cs`.
pub fn credited_units(cs: &Vec<Contribution>, k: ResourceKind) -> (r: u32)
    ensures
        r == credited(cs@, k),
{
    let mut total: u32 = 0;
    for i in 0..cs.len()
        invariant
            total == credited(cs@.take(i as int), k),
    {
        assert(cs@.take(i + 1).drop_last() =~= cs@.take(i as int));
        let add = if cs[i].credited_kind == k { cs[i].credited_units } else { 0 };
        total = total.saturating_add(add);
    }
    assert(cs@.take(cs@.len() as int) =~= cs@);
    total
}

fn requirement_index(reqs: &Vec<Requirement>, k: ResourceKind) -> (r: Option<usize>)
    ensures
        match r {
            Some(i) => i as int == requirement_for(reqs@, k) && i < reqs@.len(),
            None => requirement_for(reqs@, k) < 0,
        },
{
    proof {
        lemma_requirement_for_bounds(reqs@, k);
    }
    let n = reqs.len();
    let mut i: usize = 0;
    assert(reqs@.subrange(0, n as int) =~= reqs@);
    while i < n
        invariant
            n == reqs@.len(),
            i <= n,
            requirement_for(reqs@, k) == if requirement_for(reqs@.subrange(i as int, n as int), k)
                < 0 {
                -1
            } else {
                requirement_for(reqs@.subrange(i as int, n as int), k) + i
            },
        decreases n - i,
    {
        let ghost rest = reqs@.subrange(i as int, n as int);
        assert(rest.drop_first() =~= reqs@.subrange(i + 1, n as int));
        assert(rest[0] == reqs@[i as int]);
        if reqs[i].kind == k {
            return Some(i);
        }
        i = i + 1;
    }
    assert(reqs@.subrange(n as int, n as int).len() == 0);
    None
}

/// Units of `k` the project can still credit.
pub fn remaining_units(p: &StorehouseProject, k: ResourceKind) -> (r: u32)
    ensures
        r == remaining(p.requirements@, p.contributions@, k),
{
    match requirement_index(&p.requirements, k) {
        Some(i) => p.requirements[i].units_required.saturating_sub(
            credited_units(&p.contributions, k),
        ),
        None => 0,
    }
}

/// The gold Mara takes for one unit of `k`, if gold may replace it.
pub fn gold_rate(p: &StorehouseProject, k: ResourceKind) -> (r: Option<u32>)
    ensures
        r == rate_for(p.requirements@, k),
{
    match requirement_index(&p.requirements, k) {
        Some(i) => Some(p.requirements[i].gold_per_unit),
        None => None,
    }
}

fn gate_is_met(cs: &Vec<Contribution>, gate: &StageGate) -> (r: bool)
    ensures
        r == gate_met(cs@, *gate),
{
    let n = gate.credited_units_required.len();
    for j in 0..n
        invariant
            n == gate.credited_units_required@.len(),
            forall|q: int|
                0 <= q < j ==> credited(cs@, (#[trigger] gate.credited_units_required@[q]).kind)
                    >= gate.credited_units_required@[q].amount,
    {
        let need = gate.credited_units_required[j];
        if credited_units(cs, need.kind) < need.amount {
            return false;
        }
    }
    true
}

/// The stage the ledger `cs` reaches under the project's gates.
pub fn stage_for(cs: &Vec<Contribution>, gates: &Vec<StageGate>) -> (r: StorehouseStage)
    ensures
        r == stage_reached(cs@, gates@),
{
    let mut i = gates.len();
    assert(gates@.take(i as int) =~= gates@);
    while i > 0
        invariant
            i <= gates@.len(),
            stage_reached(cs@, gates@) == stage_reached(cs@, gates@.take(i as int)),
        decreases i,
    {
        let ghost g = gates@.take(i as int);
        assert(g.drop_last() =~= gates@.take(i - 1));
        if gate_is_met(cs, &gates[i - 1]) {
            return gates[i - 1].stage;
        }
        i = i - 1;
    }
    StorehouseStage::SiteMarked
}

/// The accounts of a ledger, each once, in the order they first gave.
pub fn contributors(cs: &Vec<Contribution>) -> (r: Vec<String>)
    ensures
        views(r@) == contributors_of(cs@),
{
    let mut r: Vec<String> = Vec::new();
    for i in 0..cs.len()
        invariant
            views(r@) == contributors_of(cs@.take(i as int)),
    {
        assert(cs@.take(i + 1).drop_last() =~= cs@.take(i as int));
        remember(&mut r, cs[i].account_id.clone());
    }
    assert(cs@.take(cs@.len() as int) =~= cs@);
    r
}

pub fn resource_label(k: ResourceKind) -> (s: &'static str)
    ensures
        s@ == resource_label_spec(k),
{
    match k {
        ResourceKind::Timber => "timber",
        ResourceKind::Stone => "stone",
        ResourceKind::IronOre => "iron ore",
    }
}

fn carried_amount(p: &Contributor, k: ResourceKind) -> (r: u32)
    ensures
        r == carried(*p, k),
{
    match k {
        ResourceKind::Timber => p.timber,
        ResourceKind::Stone => p.stone,
        ResourceKind::IronOre => p.iron_ore,
    }
}

/// What `input` would credit, or why it is refused.
fn check_credit(p: &StorehouseProject, c: &Contributor, input: ContributionInput) -> (r: Result<
    (ResourceKind, u32),
    String,
>)
    requires
        rates_positive(p.requirements@),
    ensures
        match (r, credit_of(p.requirements@, p.contributions@, *c, input)) {
            (Ok(a), Ok(b)) => a == b,
            (Err(s), Err(t)) => s@ == t,
            _ => false,
        },
{
    match input {
        ContributionInput::Material { kind, amount } => {
            if amount == 0 || amount > MAX_MATERIAL_CONTRIBUTION {
                return Err(String::from_str("Contribute between 1 and 99 materials at once."));
            }
            if !(kind == ResourceKind::Timber || kind == ResourceKind::Stone) {
                return Err(String::from_str("This storehouse needs timber or stone."));
            }
            let left = remaining_units(p, kind);
            if amount > left {
                return Err(
                    numbered("Only ", left as u64).concat(" more ").concat(
                        resource_label(kind),
                    ).concat(" can be credited."),
                );
            }
            if carried_amount(c, kind) < amount {
                return Err(
                    numbered("You do not carry ", amount as u64).concat(" ").concat(
                        resource_label(kind),
                    ).concat("."),
                );
            }
            Ok((kind, amount))
        },
        ContributionInput::Gold { toward, amount } => {
            if amount == 0 || amount > MAX_GOLD_CONTRIBUTION {
                return Err(String::from_str("Contribute between 1 and 10,000 gold at once."));
            }
            let Some(rate) = gold_rate(p, toward) else {
                return Err(String::from_str("Gold can replace only the listed timber or stone."));
            };
            proof {
                lemma_requirement_for_bounds(p.requirements@, toward);
            }
            if amount % rate != 0 {
                proof {
                    reveal_strlit("");
                    assert(""@ + decimal(rate as nat) =~= decimal(rate as nat));
                }
                return Err(
                    String::from_str("Mara credits ").concat(resource_label(toward)).concat(
                        " at exactly ",
                    ).concat(numbered("", rate as u64).as_str()).concat(" gold per unit."),
                );
            }
            let units = amount / rate;
            let left = remaining_units(p, toward);
            if units > left {
                return Err(
                    numbered("Only ", left as u64).concat(" more ").concat(
                        resource_label(toward),
                    ).concat(" units can be funded."),
                );
            }
            if c.gold < amount {
                return Err(numbered("You do not carry ", amount as u64).concat(" gold."));
            }
            Ok((toward, units))
        },
    }
}

fn input_text(input: ContributionInput, units: u32) -> (s: String)
    ensures
        s@ == input_label(input, units),
{
    proof {
        reveal_strlit("");
        assert(""@ + decimal(units as nat) =~= decimal(units as nat));
        match input {
            ContributionInput::Material { amount, .. } => {
                assert(""@ + decimal(amount as nat) =~= decimal(amount as nat));
            },
            ContributionInput::Gold { amount, .. } => {
                assert(""@ + decimal(amount as nat) =~= decimal(amount as nat));
            },
        }
    }
    match input {
        ContributionInput::Material { kind, amount } => numbered("", amount as u64).concat(
            " ",
        ).concat(resource_label(kind)),
        ContributionInput::Gold { toward, amount } => numbered("", amount as u64).concat(
            " gold toward ",
        ).concat(numbered("", units as u64).as_str()).concat(" ").concat(
            resource_label(toward),
        ),
    }
}

/// Credits `input` to the project for `c` on beat `tick`, completing the
/// storehouse when the last stage gate is met.
pub fn apply_contribution(
    p: &mut StorehouseProject,
    infra: &mut Vec<InfrastructureRecord>,
    c: &mut Contributor,
    tick: u64,
    input: ContributionInput,
) -> (r: StorehouseOutcome)
    requires
        rates_positive(old(p).requirements@),
    ensures
        contribution_post(
            *old(p),
            *final(p),
            old(infra)@,
            final(infra)@,
            *old(c),
            *final(c),
            tick,
            input,
            r,
        ),
{
    let (kind, units) = match check_credit(p, c, input) {
        Ok(credit) => credit,
        Err(text) => {
            return StorehouseOutcome { accepted: false, reason: Some(text), chronicle: Vec::new() };
        },
    };
    match input {
        ContributionInput::Material { kind, amount } => match kind {
            ResourceKind::Timber => c.timber = c.timber - amount,
            ResourceKind::Stone => c.stone = c.stone - amount,
            ResourceKind::IronOre => c.iron_ore = c.iron_ore - amount,
        },
        ContributionInput::Gold { amount, .. } => c.gold = c.gold - amount,
    }
    p.revision = p.revision.saturating_add(1);
    let ghost before = p.contributions@;
    p.contributions.push(
        Contribution {
            contribution_id: numbered("storehouse-contribution-", p.revision),
            account_id: c.account_id.clone(),
            input,
            credited_kind: kind,
            credited_units: units,
            contributed_tick: tick,
        },
    );
    assert(p.contributions@.drop_last() =~= before);
    p.current_stage = stage_for(&p.contributions, &p.stages);
    let mut chronicle: Vec<String> = Vec::new();
    chronicle.push(
        c.display_name.clone().concat(" contributes ").concat(
            input_text(input, units).as_str(),
        ).concat(" to Mara's project."),
    );
    if p.current_stage == StorehouseStage::Operational {
        let ids = contributors(&p.contributions);
        p.completion = Some(
            Completion {
                completed_tick: tick,
                contributor_account_ids: ids,
                operational_infrastructure_id: p.operational_infrastructure_id.clone(),
            },
        );
        let record = InfrastructureRecord {
            infrastructure_id: p.operational_infrastructure_id.clone(),
            name: String::from_str("First Beacon storehouse"),
            kind: InfrastructureKind::PublicBuilding,
            position: Position { x: 6, y: 7 },
            condition: 100,
            upkeep_per_day: 1,
            service_quality: 85,
            status: infrastructure_status(100),
            last_maintained_tick: 0,
            failure_note: Some(
                String::from_str(
                    "Mara's completed storehouse keeps shared settlement goods dry and usable.",
                ),
            ),
        };
        let ghost pushed = infra@.push(record);
        infra.push(record);
        retain_recent(infra, MAX_INFRASTRUCTURE_RECORDS);
        assert(infra@.last() == pushed.last());
        chronicle.push(
            String::from_str(
                "Mara opens a weatherproof public storehouse built from attributed player contributions.",
            ),
        );
    }
    StorehouseOutcome { accepted: true, reason: None, chronicle }
}

fn refuse(text: &str) -> (o: StorehouseOutcome)
    ensures
        !o.accepted && (o.reason matches Some(s) && s@ == text@) && o.chronicle@.len() == 0,
{
    StorehouseOutcome { accepted: false, reason: Some(text.to_owned()), chronicle: Vec::new() }
}

/// Whether the registry already holds a record with id `id`.
fn registry_has(infra: &Vec<InfrastructureRecord>, id: &String) -> (r: bool)
    ensures
        r == exists|i: int| 0 <= i < infra@.len() && (#[trigger] infra@[i]).infrastructure_id@ == id@,
{
    let n = infra.len();
    for i in 0..n
        invariant
            n == infra@.len(),
            forall|j: int| 0 <= j < i ==> (#[trigger] infra@[j]).infrastructure_id@ != id@,
    {
        if infra[i].infrastructure_id == *id {
            assert(infra@[i as int].infrastructure_id@ == id@);
            return true;
        }
    }
    false
}

/// Carries out one storehouse command for `c` at the landmark
/// `request.landmark_id`, which the settlement's map places at `at`.
pub fn storehouse_command(
    p: &mut StorehouseProject,
    infra: &mut Vec<InfrastructureRecord>,
    c: &mut Contributor,
    at: Option<Position>,
    tick: u64,
    request: &StorehouseRequest,
) -> (r: Result<StorehouseOutcome, RepositoryError>)
    requires
        rates_positive(old(p).requirements@),
    ensures
        match r {
            Err(e) => {
                &&& crate::errors::bounded_text_refused(request.landmark_id@, 160)
                &&& e.spec_is(
                    400,
                    "invalid_storehouse_landmark"@,
                    "The storehouse landmark must be a bounded First Beacon fixture ID."@,
                )
                &&& *final(p) == *old(p) && final(infra)@ == old(infra)@ && *final(c) == *old(c)
            },
            Ok(out) => {
                &&& !crate::errors::bounded_text_refused(request.landmark_id@, 160)
                &&& storehouse_post(
                    *old(p),
                    *final(p),
                    old(infra)@,
                    final(infra)@,
                    *old(c),
                    *final(c),
                    trim_seq(request.landmark_id@),
                    at,
                    tick,
                    *request,
                    out,
                )
            },
        },
{
    let landmark = match validate_bounded_text(
        request.landmark_id.as_str(),
        160,
        "invalid_storehouse_landmark",
        "The storehouse landmark must be a bounded First Beacon fixture ID.",
    ) {
        Ok(t) => t,
        Err(e) => return Err(e),
    };
    let known = landmark == p.builder_landmark_id || landmark == p.noticeboard_landmark_id
        || landmark == p.site_landmark_id;
    let position = match at {
        Some(pos) => pos,
        None => {
            return Ok(refuse("Use Mara, the First Beacon noticeboard, or the marked storehouse site."));
        },
    };
    if !known {
        return Ok(refuse("Use Mara, the First Beacon noticeboard, or the marked storehouse site."));
    }
    let dx: i64 = if c.position.x >= position.x {
        c.position.x as i64 - position.x as i64
    } else {
        position.x as i64 - c.position.x as i64
    };
    let dy: i64 = if c.position.y >= position.y {
        c.position.y as i64 - position.y as i64
    } else {
        position.y as i64 - c.position.y as i64
    };
    if dx + dy > 1 {
        return Ok(refuse("Walk beside that storehouse landmark first."));
    }
    match request.action {
        StorehouseAction::Inspect => {
            if request.contribution.is_some() {
                return Ok(refuse("Inspection does not accept a contribution payload."));
            }
            Ok(StorehouseOutcome { accepted: true, reason: None, chronicle: Vec::new() })
        },
        StorehouseAction::Contribute => {
            if landmark == p.noticeboard_landmark_id {
                return Ok(
                    refuse("Read the need here, then contribute beside Mara or the storehouse site."),
                );
            }
            if p.completion.is_some() {
                return Ok(refuse("The First Beacon storehouse is already built."));
            }
            if registry_has(infra, &p.operational_infrastructure_id) {
                return Ok(
                    refuse(
                        "The infrastructure registry already contains this storehouse; support must reconcile the project ledger.",
                    ),
                );
            }
            if p.contributions.len() >= MAX_CONTRIBUTIONS {
                return Ok(
                    refuse(
                        "The bounded contribution ledger is full; support must archive it before more work.",
                    ),
                );
            }
            match request.contribution {
                None => Ok(refuse("Choose materials or gold to contribute.")),
                Some(input) => Ok(apply_contribution(p, infra, c, tick, input)),
            }
        },
    }
}

// ---------------------------------------------------------------- laws

/// No contribution credits more of a resource than the project requires:
/// a credited total that was within its requirement stays within it.
pub proof fn lemma_credit_within_requirement(
    p: StorehouseProject,
    p2: StorehouseProject,
    infra: Seq<InfrastructureRecord>,
    infra2: Seq<InfrastructureRecord>,
    c: Contributor,
    c2: Contributor,
    tick: u64,
    input: ContributionInput,
    r: StorehouseOutcome,
    k: ResourceKind,
)
    requires
        contribution_post(p, p2, infra, infra2, c, c2, tick, input, r),
        rates_positive(p.requirements@),
        requirement_for(p.requirements@, k) >= 0,
        credited(p.contributions@, k) <= p.requirements@[requirement_for(p.requirements@, k)].units_required,
    ensures
        credited(p2.contributions@, k) <= p2.requirements@[requirement_for(p2.requirements@, k)].units_required,
{
    lemma_requirement_for_bounds(p.requirements@, k);
    if r.accepted {
        let cs2 = p2.contributions@;
        let credit = credit_of(p.requirements@, p.contributions@, c, input);
        assert(credit is Ok);
        let k2 = credit->Ok_0.0;
        let units = credit->Ok_0.1;
        if let ContributionInput::Gold { toward, amount } = input {
            lemma_requirement_for_bounds(p.requirements@, toward);
            let rate = rate_for(p.requirements@, toward)->0;
            assert(amount / rate <= amount) by (nonlinear_arith)
                requires
                    rate > 0,
            ;
        }
        assert(units <= remaining(p.requirements@, p.contributions@, k2));
        assert(cs2.drop_last() == p.contributions@);
        assert(cs2.last().credited_kind == k2 && cs2.last().credited_units == units);
        assert(credited(cs2, k) == sat_add_u32(
            credited(p.contributions@, k),
            if k2 == k { units } else { 0 },
        ));
    }
}

/// What a contributor hands over is exactly what the project credits:
/// materials unit for unit, gold at the listed rate.
pub proof fn lemma_payment_matches_credit(
    p: StorehouseProject,
    p2: StorehouseProject,
    infra: Seq<InfrastructureRecord>,
    infra2: Seq<InfrastructureRecord>,
    c: Contributor,
    c2: Contributor,
    tick: u64,
    input: ContributionInput,
    r: StorehouseOutcome,
)
    requires
        contribution_post(p, p2, infra, infra2, c, c2, tick, input, r),
        rates_positive(p.requirements@),
        r.accepted,
    ensures
        ({
            let e = p2.contributions@.last();
            match input {
                ContributionInput::Material { kind, amount } => e.credited_kind == kind
                    && e.credited_units == amount && carried(c2, kind) + amount == carried(c, kind)
                    && c2.gold == c.gold,
                ContributionInput::Gold { toward, amount } => e.credited_kind == toward
                    && e.credited_units * rate_for(p.requirements@, toward)->0 == amount && c2.gold
                    + amount == c.gold,
            }
        }),
{
    match input {
        ContributionInput::Gold { toward, amount } => {
            let rate = rate_for(p.requirements@, toward)->0;
            lemma_requirement_for_bounds(p.requirements@, toward);
            assert((amount / rate) * rate == amount) by (nonlinear_arith)
                requires
                    rate > 0,
                    amount % rate == 0,
            ;
        },
        _ => {},
    }
}

/// The contribution ledger never grows past its bound, and a built
/// storehouse takes no further contribution.
pub proof fn lemma_ledger_stays_bounded(
    p: StorehouseProject,
    p2: StorehouseProject,
    infra: Seq<InfrastructureRecord>,
    infra2: Seq<InfrastructureRecord>,
    c: Contributor,
    c2: Contributor,
    landmark: Seq<char>,
    at: Option<Position>,
    tick: u64,
    req: StorehouseRequest,
    r: StorehouseOutcome,
)
    requires
        storehouse_post(p, p2, infra, infra2, c, c2, landmark, at, tick, req, r),
        p.contributions@.len() <= MAX_CONTRIBUTIONS,
    ensures
        p2.contributions@.len() <= MAX_CONTRIBUTIONS,
        p.completion is Some ==> p2 == p,
{
}


// ---------------------------------------------------------------- accounts and signs

/// The name a deleted account's contributions are kept under.
pub open spec fn former_resident() -> Seq<char> {
    "former-resident"@
}

/// `a` with `from` renamed to `to`.
pub open spec fn renamed(a: Seq<char>, from: Seq<char>, to: Seq<char>) -> Seq<char> {
    if a == from { to } else { a }
}

/// `c2` is `c` with the account `from` renamed to `to`.
pub open spec fn contributions_renamed(c: Contribution, c2: Contribution, from: Seq<char>, to: Seq<char>) -> bool {
    c2 == Contribution { account_id: c2.account_id, ..c } && c2.account_id@ == renamed(c.account_id@, from, to)
}

/// Moves a project's record of the account `from` to `to`: its
/// contributions, and the completion's contributors, each still listed
/// once in the order they first appeared.
pub fn replace_account_in_project(p: &mut StorehouseProject, from: &String, to: &String)
    ensures
        final(p).project_id == old(p).project_id,
        final(p).requirements == old(p).requirements,
        final(p).stages == old(p).stages,
        final(p).current_stage == old(p).current_stage,
        final(p).revision == old(p).revision,
        final(p).operational_infrastructure_id == old(p).operational_infrastructure_id,
        final(p).contributions@.len() == old(p).contributions@.len(),
        forall|i: int|
            0 <= i < old(p).contributions@.len() ==> contributions_renamed(
                old(p).contributions@[i],
                #[trigger] final(p).contributions@[i],
                from@,
                to@,
            ),
        match old(p).completion {
            None => final(p).completion is None,
            Some(c) => final(p).completion matches Some(c2) && c2.completed_tick == c.completed_tick
                && c2.operational_infrastructure_id == c.operational_infrastructure_id && views(
                c2.contributor_account_ids@,
            ) == crate::ledger::remember_all_spec(
                Seq::empty(),
                views(c.contributor_account_ids@).map_values(|a: Seq<char>| renamed(a, from@, to@)),
            ),
        },
{
    let ghost start = p.contributions@;
    let n = p.contributions.len();
    for i in 0..n
        invariant
            n == p.contributions@.len(),
            n == start.len(),
            start == old(p).contributions@,
            p.project_id == old(p).project_id,
            p.requirements == old(p).requirements,
            p.stages == old(p).stages,
            p.current_stage == old(p).current_stage,
            p.revision == old(p).revision,
            p.operational_infrastructure_id == old(p).operational_infrastructure_id,
            p.completion == old(p).completion,
            forall|k: int| 0 <= k < i ==> contributions_renamed(start[k], #[trigger] p.contributions@[k], from@, to@),
            forall|k: int| i <= k < n ==> #[trigger] p.contributions@[k] == start[k],
    {
        if p.contributions[i].account_id.eq(from) {
            let c = &p.contributions[i];
            let c2 = Contribution {
                contribution_id: c.contribution_id.clone(),
                account_id: to.clone(),
                input: c.input,
                credited_kind: c.credited_kind,
                credited_units: c.credited_units,
                contributed_tick: c.contributed_tick,
            };
            p.contributions.set(i, c2);
        }
    }
    match &p.completion {
        None => {},
        Some(c) => {
            let ghost ids = views(c.contributor_account_ids@).map_values(|a: Seq<char>| renamed(a, from@, to@));
            let mut unique: Vec<String> = Vec::new();
            let m = c.contributor_account_ids.len();
            for j in 0..m
                invariant
                    m == c.contributor_account_ids@.len(),
                    ids == views(c.contributor_account_ids@).map_values(|a: Seq<char>| renamed(a, from@, to@)),
                    views(unique@) == crate::ledger::remember_all_spec(Seq::empty(), ids.take(j as int)),
            {
                assert(ids.take(j + 1).drop_last() =~= ids.take(j as int));
                let a = &c.contributor_account_ids[j];
                let name = if a.eq(from) { to.clone() } else { a.clone() };
                assert(name@ == ids[j as int]);
                remember(&mut unique, name);
            }
            assert(ids.take(m as int) =~= ids);
            let done = Completion {
                completed_tick: c.completed_tick,
                contributor_account_ids: unique,
                operational_infrastructure_id: c.operational_infrastructure_id.clone(),
            };
            p.completion = Some(done);
        },
    }
}

/// Keeps a deleted account's contributions under the former-resident
/// name.
pub fn remove_contributor(p: &mut StorehouseProject, account: &String)
    ensures
        final(p).contributions@.len() == old(p).contributions@.len(),
        forall|i: int|
            0 <= i < old(p).contributions@.len() ==> contributions_renamed(
                old(p).contributions@[i],
                #[trigger] final(p).contributions@[i],
                account@,
                former_resident(),
            ),
{
    let former = String::from_str("former-resident");
    proof {
        reveal_strlit("former-resident");
    }
    replace_account_in_project(p, account, &former);
}

/// The label of the project's current stage, or the marked site's.
pub open spec fn stage_label(gates: Seq<StageGate>, stage: StorehouseStage) -> Seq<char>
    decreases gates.len(),
{
    if gates.len() == 0 {
        "Marked storehouse site"@
    } else if gates[0].stage == stage {
        gates[0].visible_label@
    } else {
        stage_label(gates.drop_first(), stage)
    }
}

/// What the builder, the noticeboard and the site say of the project.
pub open spec fn interaction_text(p: StorehouseProject, id: Seq<char>) -> Option<Seq<char>> {
    if p.completion is Some {
        if id == "speak-with-builder"@ {
            Some("Mara: The First Beacon storehouse is open. Our shared goods finally have a dry roof."@)
        } else if id == "read-local-needs"@ {
            Some("LOCAL NEED COMPLETE — The First Beacon storehouse is operational."@)
        } else if id == "inspect-storehouse-site"@ {
            Some("The completed storehouse stands here as a permanent public structure."@)
        } else {
            None
        }
    } else {
        let timber = num(remaining(p.requirements@, p.contributions@, ResourceKind::Timber));
        let stone = num(remaining(p.requirements@, p.contributions@, ResourceKind::Stone));
        if id == "speak-with-builder"@ {
            Some(
                "Mara: The first storehouse still needs "@ + timber + " timber and "@ + stone
                    + " stone. The noticeboard lists exact gold substitutes; bring goods or gold to me or the site."@,
            )
        } else if id == "read-local-needs"@ {
            Some(
                "LOCAL NEED — First storehouse: "@ + timber + " timber (2 gold each) and "@ + stone
                    + " stone (3 gold each) remain."@,
            )
        } else if id == "inspect-storehouse-site"@ {
            Some(
                stage_label(p.stages@, p.current_stage) + " — "@ + timber + " timber and "@ + stone
                    + " stone remain before the storehouse can open."@,
            )
        } else {
            None
        }
    }
}

fn current_stage_label(gates: &Vec<StageGate>, stage: StorehouseStage) -> (s: String)
    ensures
        s@ == stage_label(gates@, stage),
{
    let n = gates.len();
    let mut i: usize = 0;
    assert(gates@.subrange(0, n as int) =~= gates@);
    while i < n
        invariant
            n == gates@.len(),
            i <= n,
            stage_label(gates@, stage) == stage_label(gates@.subrange(i as int, n as int), stage),
        decreases n - i,
    {
        assert(gates@.subrange(i as int, n as int).drop_first() =~= gates@.subrange(i + 1, n as int));
        if gates[i].stage == stage {
            return gates[i].visible_label.clone();
        }
        i = i + 1;
    }
    String::from_str("Marked storehouse site")
}

/// The sign or words an interaction with the project shows, if any.
pub fn interaction_message(p: &StorehouseProject, interaction_id: &str) -> (r: Option<String>)
    ensures
        match r {
            Some(s) => interaction_text(*p, interaction_id@) == Some(s@),
            None => interaction_text(*p, interaction_id@) is None,
        },
{
    let builder = "speak-with-builder";
    let needs = "read-local-needs";
    let site = "inspect-storehouse-site";
    proof {
        reveal_strlit("speak-with-builder");
        reveal_strlit("read-local-needs");
        reveal_strlit("inspect-storehouse-site");
    }
    let id = interaction_id.to_owned();
    let is_builder = id.eq(&String::from_str(builder));
    let is_needs = id.eq(&String::from_str(needs));
    let is_site = id.eq(&String::from_str(site));
    if p.completion.is_some() {
        return if is_builder {
            Some(String::from_str("Mara: The First Beacon storehouse is open. Our shared goods finally have a dry roof."))
        } else if is_needs {
            Some(String::from_str("LOCAL NEED COMPLETE — The First Beacon storehouse is operational."))
        } else if is_site {
            Some(String::from_str("The completed storehouse stands here as a permanent public structure."))
        } else {
            None
        };
    }
    let timber = numbered("", remaining_units(p, ResourceKind::Timber) as u64);
    let stone = numbered("", remaining_units(p, ResourceKind::Stone) as u64);
    proof {
        reveal_strlit("");
        assert(timber@ =~= num(remaining(p.requirements@, p.contributions@, ResourceKind::Timber)));
        assert(stone@ =~= num(remaining(p.requirements@, p.contributions@, ResourceKind::Stone)));
    }
    if is_builder {
        Some(String::from_str("Mara: The first storehouse still needs ").concat(timber.as_str()).concat(
            " timber and ",
        ).concat(stone.as_str()).concat(
            " stone. The noticeboard lists exact gold substitutes; bring goods or gold to me or the site.",
        ))
    } else if is_needs {
        Some(String::from_str("LOCAL NEED — First storehouse: ").concat(timber.as_str()).concat(
            " timber (2 gold each) and ",
        ).concat(stone.as_str()).concat(" stone (3 gold each) remain."))
    } else if is_site {
        Some(current_stage_label(&p.stages, p.current_stage).concat(" — ").concat(timber.as_str()).concat(
            " timber and ",
        ).concat(stone.as_str()).concat(" stone remain before the storehouse can open."))
    } else {
        None
    }
}

} // verus!
