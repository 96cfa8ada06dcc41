//! Settlement governance: offices held by players, costed public proposals
//! that the Steward approves and an authorised office completes, and the
//! public works those decisions change.
use vstd::prelude::*;
use vstd::string::*;
use crate::errors::{RepositoryError, bounded_text_refused, opt_text, selector_kept, selector_refused, validate_bounded_text, validate_optional_identifier};
use crate::frontier::Position;
use crate::retention::{Settles, first_settled, make_room, newest, retain_recent, trimmed_settled};
use crate::text::{decimal, numbered};

verus! {

/// The most proposals the town hall keeps.
pub const MAX_PROPOSALS: usize = 64;

/// The most decisions the public record keeps.
pub const MAX_GOVERNANCE_DECISIONS: usize = 64;

/// The most infrastructure records the settlement keeps.
pub const MAX_INFRASTRUCTURE_RECORDS: usize = 32;

/// The highest settlement tax rate, in percent.
pub const MAX_TAX_RATE_PERCENT: u8 = 10;

#[derive(Debug, Clone, Copy, PartialEq, Eq, Structural)]
pub enum OfficeKind {
    Steward,
    WorksWarden,
    Registrar,
}

#[derive(Debug, Clone, Copy, PartialEq, Eq, Structural)]
pub enum PublicAction {
    RepairRoad,
    FundService,
    HostFestival,
    CommissionPublicWork,
    UpdateContractBoard,
}

#[derive(Debug, Clone, Copy, PartialEq, Eq, Structural)]
pub enum ProposalStatus {
    Proposed,
    Approved,
    Completed,
    Rejected,
}

#[derive(Debug, Clone, Copy, PartialEq, Eq, Structural)]
pub enum InfrastructureKind {
    Road,
    Bridge,
    PublicBuilding,
    Service,
}

#[derive(Debug, Clone, Copy, PartialEq, Eq, Structural)]
pub enum InfrastructureStatus {
    Failed,
    NeedsRepair,
    Recovering,
    Operational,
}

#[derive(Debug, Clone)]
pub struct OfficeRecord {
    pub office_id: String,
    pub kind: OfficeKind,
    pub title: String,
    pub authority: String,
    pub holder_account_id: Option<String>,
    pub holder_name: Option<String>,
    pub last_active_tick: u64,
    pub vacant: bool,
    pub vacancy_reason: Option<String>,
}

#[derive(Debug, Clone)]
pub struct PublicProposal {
    pub proposal_id: String,
    pub proposer_account_id: String,
    pub proposer_name: String,
    pub action: PublicAction,
    pub target: String,
    pub cost: u32,
    pub status: ProposalStatus,
    pub created_tick: u64,
    pub approved_by: Option<String>,
    pub completed_tick: Option<u64>,
}

impl Settles for PublicProposal {
    open spec fn is_settled(&self) -> bool {
        self.status == ProposalStatus::Completed || self.status == ProposalStatus::Rejected
    }

    fn settled(&self) -> (r: bool) {
        self.status == ProposalStatus::Completed || self.status == ProposalStatus::Rejected
    }
}

#[derive(Debug, Clone)]
pub struct GovernanceDecision {
    pub decision_id: String,
    pub actor_account_id: String,
    pub actor_name: String,
    pub action: PublicAction,
    pub proposal_id: String,
    pub cost: u32,
    pub service_affected: String,
    pub created_tick: u64,
}

#[derive(Debug, Clone)]
pub struct InfrastructureRecord {
    pub infrastructure_id: String,
    pub name: String,
    pub kind: InfrastructureKind,
    pub position: Position,
    pub condition: u8,
    pub upkeep_per_day: u32,
    pub service_quality: u8,
    pub status: InfrastructureStatus,
    pub last_maintained_tick: u64,
    pub failure_note: Option<String>,
}

#[derive(Debug, Clone, Copy, PartialEq, Eq, Structural)]
pub enum HouseholdLifeStatus {
    Arrived,
    ReducedService,
    ConsideringDeparture,
    Departed,
}

/// A settlement household: the conditions it weighs, the service it gives
/// and whether it stays.
#[derive(Debug, Clone)]
pub struct HouseholdRecord {
    pub household_id: String,
    pub status: HouseholdLifeStatus,
    pub last_decision_tick: u64,
    pub demand: u8,
    pub safety: u8,
    pub housing: u8,
    pub food: u8,
    pub competition: u8,
    pub service_quality: u8,
    pub clue: String,
}

/// The town hall and the public works it governs.
#[derive(Debug, Clone)]
pub struct Governance {
    pub offices: Vec<OfficeRecord>,
    pub proposals: Vec<PublicProposal>,
    pub decisions: Vec<GovernanceDecision>,
    pub public_treasury: u32,
    pub administration_quality: u8,
    pub service_funding_until_tick: u64,
    /// The settlement tax rate, in percent, when a tax is in force.
    pub tax_rate_percent: Option<u8>,
    pub infrastructure: Vec<InfrastructureRecord>,
    pub households: Vec<HouseholdRecord>,
    pub next_proposal_id: u64,
    pub next_decision_id: u64,
    pub tax_ledger: Vec<TaxCollection>,
    pub next_tax_id: u64,
}

/// A receipt of the daily settlement tax.
#[derive(Debug, Clone)]
pub struct TaxCollection {
    pub collection_id: String,
    pub payer_account_id: String,
    pub payer_name: String,
    pub amount: u32,
    pub rate_percent: u8,
    pub territory: String,
    pub day: u32,
    pub created_tick: u64,
}

#[derive(Debug, Clone, Copy, PartialEq, Eq, Structural)]
pub enum GovernanceAction {
    Inspect,
    ClaimOffice,
    SetTaxRate,
    Propose,
    Approve,
    Complete,
}

/// A validated governance command.
#[derive(Debug, Clone)]
pub struct GovernanceRequest {
    pub action: GovernanceAction,
    pub office_id: Option<String>,
    pub proposal_id: Option<String>,
    pub public_action: Option<PublicAction>,
    pub target: Option<String>,
    pub cost: Option<u32>,
    pub tax_rate_percent: Option<u8>,
}

/// The chronicle entry an accepted command asks for.
#[derive(Debug, Clone, Copy, PartialEq, Eq, Structural)]
pub enum GovernanceNote {
    OfficeFilled,
    TaxChanged { previous_percent: u8, rate_percent: u8 },
    Proposed,
    Approved,
    Completed,
}

#[derive(Debug, Clone)]
pub struct GovernanceResponse {
    pub accepted: bool,
    pub reason: Option<String>,
    pub note: Option<GovernanceNote>,
}

// ---------------------------------------------------------------- input

/// The longest proposal target, in characters.
pub const MAX_PROPOSAL_TARGET_CHARS: usize = 80;

/// A proposal target is refused when present and not a bounded text.
pub open spec fn target_refused(v: Option<Seq<char>>) -> bool {
    v matches Some(s) && bounded_text_refused(s, MAX_PROPOSAL_TARGET_CHARS as nat)
}

/// Checks the free-text parts of a governance command: the office and
/// proposal selectors and the proposal target.
pub fn validate_governance_request(
    action: GovernanceAction,
    office_id: Option<&str>,
    proposal_id: Option<&str>,
    public_action: Option<PublicAction>,
    target: Option<&str>,
    cost: Option<u32>,
    tax_rate_percent: Option<u8>,
) -> (r: Result<GovernanceRequest, RepositoryError>)
    ensures
        selector_refused(opt_text(office_id)) ==> (r matches Err(e) && e.spec_is(
            400,
            "invalid_office_id"@,
            "An office selector must be bounded and contain no control characters."@,
        )),
        !selector_refused(opt_text(office_id)) && selector_refused(opt_text(proposal_id)) ==> (r matches Err(
            e,
        ) && e.spec_is(
            400,
            "invalid_proposal_id"@,
            "A proposal selector must be bounded and contain no control characters."@,
        )),
        !selector_refused(opt_text(office_id)) && !selector_refused(opt_text(proposal_id))
            && target_refused(opt_text(target)) ==> (r matches Err(e) && e.spec_is(
            400,
            "invalid_proposal_target"@,
            "A proposal target must contain 1 to 80 characters and no control characters."@,
        )),
        !selector_refused(opt_text(office_id)) && !selector_refused(opt_text(proposal_id))
            && !target_refused(opt_text(target)) ==> (r matches Ok(q) && q.action == action
            && selector_kept(opt_text(office_id), q.office_id) && selector_kept(
            opt_text(proposal_id),
            q.proposal_id,
        ) && selector_kept(opt_text(target), q.target) && q.public_action == public_action
            && q.cost == cost && q.tax_rate_percent == tax_rate_percent),
{
    let office_id = match validate_optional_identifier(
        office_id,
        "invalid_office_id",
        "An office selector must be bounded and contain no control characters.",
    ) {
        Ok(v) => v,
        Err(e) => return Err(e),
    };
    let proposal_id = match validate_optional_identifier(
        proposal_id,
        "invalid_proposal_id",
        "A proposal selector must be bounded and contain no control characters.",
    ) {
        Ok(v) => v,
        Err(e) => return Err(e),
    };
    let target = match target {
        None => None,
        Some(t) => match validate_bounded_text(
            t,
            MAX_PROPOSAL_TARGET_CHARS,
            "invalid_proposal_target",
            "A proposal target must contain 1 to 80 characters and no control characters.",
        ) {
            Ok(v) => Some(v),
            Err(e) => return Err(e),
        },
    };
    Ok(GovernanceRequest { action, office_id, proposal_id, public_action, target, cost, tax_rate_percent })
}

// ---------------------------------------------------------------- specs

/// The tax rate a settlement starts with, in percent.
pub open spec fn default_tax_rate() -> u8 {
    5
}

/// The cost of a public action when the proposer names none.
pub open spec fn default_cost_spec(a: PublicAction) -> u32 {
    match a {
        PublicAction::RepairRoad => 8,
        PublicAction::FundService => 10,
        PublicAction::HostFestival => 10,
        PublicAction::CommissionPublicWork => 12,
        PublicAction::UpdateContractBoard => 6,
    }
}

/// The target a proposal names when the proposer names none.
pub open spec fn label_spec(a: PublicAction) -> Seq<char> {
    match a {
        PublicAction::RepairRoad => "repair the north road"@,
        PublicAction::FundService => "fund the Hearth services"@,
        PublicAction::HostFestival => "host a settlement festival"@,
        PublicAction::CommissionPublicWork => "commission a public workshop"@,
        PublicAction::UpdateContractBoard => "update the contract board"@,
    }
}

/// The status an infrastructure condition stands for.
pub open spec fn status_for(condition: u8) -> InfrastructureStatus {
    if condition <= 24 {
        InfrastructureStatus::Failed
    } else if condition <= 59 {
        InfrastructureStatus::NeedsRepair
    } else if condition <= 79 {
        InfrastructureStatus::Recovering
    } else {
        InfrastructureStatus::Operational
    }
}

pub open spec fn holds(o: OfficeRecord, actor: Seq<char>) -> bool {
    o.holder_account_id matches Some(h) && h@ == actor
}

/// `actor` holds an office of `kind`.
pub open spec fn holds_office_spec(offices: Seq<OfficeRecord>, kind: OfficeKind, actor: Seq<char>) -> bool {
    exists|i: int| 0 <= i < offices.len() && (#[trigger] offices[i]).kind == kind && holds(offices[i], actor)
}

/// The office lets `actor` complete `action`.
pub open spec fn can_complete_spec(offices: Seq<OfficeRecord>, actor: Seq<char>, action: PublicAction) -> bool {
    holds_office_spec(offices, OfficeKind::Steward, actor) || match action {
        PublicAction::RepairRoad | PublicAction::CommissionPublicWork => holds_office_spec(
            offices,
            OfficeKind::WorksWarden,
            actor,
        ),
        PublicAction::UpdateContractBoard => holds_office_spec(offices, OfficeKind::Registrar, actor),
        PublicAction::FundService | PublicAction::HostFestival => false,
    }
}

/// The offices held by `actor` record activity at `tick`.
pub open spec fn touched(o: Seq<OfficeRecord>, o2: Seq<OfficeRecord>, actor: Seq<char>, tick: u64) -> bool {
    &&& o2.len() == o.len()
    &&& forall|i: int|
        0 <= i < o.len() ==> (#[trigger] o2[i]) == (if holds(o[i], actor) {
            OfficeRecord { last_active_tick: tick, ..o[i] }
        } else {
            o[i]
        })
}

/// The index of the first record of `s` whose identifier is `id`, or -1.
pub open spec fn find_office(s: Seq<OfficeRecord>, id: Seq<char>) -> int
    decreases s.len(),
{
    if s.len() == 0 {
        -1
    } else if s[0].office_id@ == id {
        0
    } else {
        let r = find_office(s.drop_first(), id);
        if r < 0 { -1 } else { r + 1 }
    }
}

pub open spec fn find_proposal(s: Seq<PublicProposal>, id: Seq<char>) -> int
    decreases s.len(),
{
    if s.len() == 0 {
        -1
    } else if s[0].proposal_id@ == id {
        0
    } else {
        let r = find_proposal(s.drop_first(), id);
        if r < 0 { -1 } else { r + 1 }
    }
}

pub open spec fn find_infrastructure(s: Seq<InfrastructureRecord>, id: Seq<char>) -> int
    decreases s.len(),
{
    if s.len() == 0 {
        -1
    } else if s[0].infrastructure_id@ == id {
        0
    } else {
        let r = find_infrastructure(s.drop_first(), id);
        if r < 0 { -1 } else { r + 1 }
    }
}

pub open spec fn refused_with(r: GovernanceResponse, text: Seq<char>) -> bool {
    &&& !r.accepted
    &&& r.note is None
    &&& r.reason matches Some(s) && s@ == text
}

pub open spec fn granted_with(r: GovernanceResponse, note: Option<GovernanceNote>) -> bool {
    &&& r.accepted
    &&& r.reason is None
    &&& r.note == note
}

pub open spec fn sat_add_u64(a: u64, b: u64) -> u64 {
    if a + b > u64::MAX { u64::MAX } else { (a + b) as u64 }
}

pub open spec fn capped_u8(v: int, cap: int) -> u8 {
    (if v < cap { v } else { cap }) as u8
}

// ---------------------------------------------------------------- helpers

fn copy_opt(s: &Option<String>) -> (r: Option<String>)
    ensures
        r == *s,
{
    match s {
        Some(s) => Some(s.clone()),
        None => None,
    }
}

pub fn copy_office(o: &OfficeRecord) -> (r: OfficeRecord)
    ensures
        r == *o,
{
    OfficeRecord {
        office_id: o.office_id.clone(),
        kind: o.kind,
        title: o.title.clone(),
        authority: o.authority.clone(),
        holder_account_id: copy_opt(&o.holder_account_id),
        holder_name: copy_opt(&o.holder_name),
        last_active_tick: o.last_active_tick,
        vacant: o.vacant,
        vacancy_reason: copy_opt(&o.vacancy_reason),
    }
}

pub fn copy_proposal(p: &PublicProposal) -> (r: PublicProposal)
    ensures
        r == *p,
{
    PublicProposal {
        proposal_id: p.proposal_id.clone(),
        proposer_account_id: p.proposer_account_id.clone(),
        proposer_name: p.proposer_name.clone(),
        action: p.action,
        target: p.target.clone(),
        cost: p.cost,
        status: p.status,
        created_tick: p.created_tick,
        approved_by: copy_opt(&p.approved_by),
        completed_tick: p.completed_tick,
    }
}

pub fn copy_infrastructure(r0: &InfrastructureRecord) -> (r: InfrastructureRecord)
    ensures
        r == *r0,
{
    InfrastructureRecord {
        infrastructure_id: r0.infrastructure_id.clone(),
        name: r0.name.clone(),
        kind: r0.kind,
        position: r0.position,
        condition: r0.condition,
        upkeep_per_day: r0.upkeep_per_day,
        service_quality: r0.service_quality,
        status: r0.status,
        last_maintained_tick: r0.last_maintained_tick,
        failure_note: copy_opt(&r0.failure_note),
    }
}

/// The status an infrastructure condition stands for.
pub fn infrastructure_status(condition: u8) -> (r: InfrastructureStatus)
    ensures
        r == status_for(condition),
{
    if condition <= 24 {
        InfrastructureStatus::Failed
    } else if condition <= 59 {
        InfrastructureStatus::NeedsRepair
    } else if condition <= 79 {
        InfrastructureStatus::Recovering
    } else {
        InfrastructureStatus::Operational
    }
}

/// The cost of a public action when the proposer names none.
pub fn default_cost(a: PublicAction) -> (r: u32)
    ensures
        r == default_cost_spec(a),
{
    match a {
        PublicAction::RepairRoad => 8,
        PublicAction::FundService => 10,
        PublicAction::HostFestival => 10,
        PublicAction::CommissionPublicWork => 12,
        PublicAction::UpdateContractBoard => 6,
    }
}

/// The target a proposal names when the proposer names none.
pub fn action_label(a: PublicAction) -> (r: String)
    ensures
        r@ == label_spec(a),
{
    match a {
        PublicAction::RepairRoad => String::from_str("repair the north road"),
        PublicAction::FundService => String::from_str("fund the Hearth services"),
        PublicAction::HostFestival => String::from_str("host a settlement festival"),
        PublicAction::CommissionPublicWork => String::from_str("commission a public workshop"),
        PublicAction::UpdateContractBoard => String::from_str("update the contract board"),
    }
}

fn office_held_by(o: &OfficeRecord, actor: &String) -> (r: bool)
    ensures
        r == holds(*o, actor@),
{
    match &o.holder_account_id {
        Some(h) => *h == *actor,
        None => false,
    }
}

/// Whether `actor` holds an office of `kind`.
pub fn holds_office(offices: &Vec<OfficeRecord>, kind: OfficeKind, actor: &String) -> (r: bool)
    ensures
        r == holds_office_spec(offices@, kind, actor@),
{
    let n = offices.len();
    for i in 0..n
        invariant
            n == offices@.len(),
            forall|k: int| 0 <= k < i ==> !((#[trigger] offices@[k]).kind == kind && holds(offices@[k], actor@)),
    {
        if offices[i].kind == kind && office_held_by(&offices[i], actor) {
            return true;
        }
    }
    false
}

/// Whether the offices of `actor` authorise completing `action`.
pub fn can_complete(offices: &Vec<OfficeRecord>, actor: &String, action: PublicAction) -> (r: bool)
    ensures
        r == can_complete_spec(offices@, actor@, action),
{
    if holds_office(offices, OfficeKind::Steward, actor) {
        return true;
    }
    match action {
        PublicAction::RepairRoad | PublicAction::CommissionPublicWork => holds_office(
            offices,
            OfficeKind::WorksWarden,
            actor,
        ),
        PublicAction::UpdateContractBoard => holds_office(offices, OfficeKind::Registrar, actor),
        PublicAction::FundService | PublicAction::HostFestival => false,
    }
}

/// Records activity at `tick` on every office `actor` holds.
pub fn touch_office(offices: &mut Vec<OfficeRecord>, actor: &String, tick: u64)
    ensures
        touched(old(offices)@, final(offices)@, actor@, tick),
{
    let ghost start = offices@;
    let n = offices.len();
    for i in 0..n
        invariant
            n == start.len(),
            offices@.len() == n,
            forall|k: int|
                0 <= k < i ==> (#[trigger] offices@[k]) == (if holds(start[k], actor@) {
                    OfficeRecord { last_active_tick: tick, ..start[k] }
                } else {
                    start[k]
                }),
            forall|k: int| i <= k < n ==> offices@[k] == start[k],
    {
        if office_held_by(&offices[i], actor) {
            let mut o = copy_office(&offices[i]);
            o.last_active_tick = tick;
            offices.set(i, o);
        }
    }
}

pub fn office_position(s: &Vec<OfficeRecord>, id: &String) -> (r: Option<usize>)
    ensures
        r is None <==> find_office(s@, id@) < 0,
        r matches Some(i) ==> i as int == find_office(s@, id@) && i < s@.len(),
{
    let n = s.len();
    let mut i: usize = 0;
    assert(s@.skip(0) =~= s@);
    while i < n
        invariant
            n == s@.len(),
            i <= n,
            find_office(s@, id@) == (if find_office(s@.skip(i as int), id@) < 0 {
                -1
            } else {
                find_office(s@.skip(i as int), id@) + i
            }),
        decreases n - i,
    {
        if s[i].office_id == *id {
            return Some(i);
        }
        assert(s@.skip(i as int).drop_first() =~= s@.skip(i + 1));
        i = i + 1;
    }
    None
}

pub fn proposal_position(s: &Vec<PublicProposal>, id: &String) -> (r: Option<usize>)
    ensures
        r is None <==> find_proposal(s@, id@) < 0,
        r matches Some(i) ==> i as int == find_proposal(s@, id@) && i < s@.len(),
{
    let n = s.len();
    let mut i: usize = 0;
    assert(s@.skip(0) =~= s@);
    while i < n
        invariant
            n == s@.len(),
            i <= n,
            find_proposal(s@, id@) == (if find_proposal(s@.skip(i as int), id@) < 0 {
                -1
            } else {
                find_proposal(s@.skip(i as int), id@) + i
            }),
        decreases n - i,
    {
        if s[i].proposal_id == *id {
            return Some(i);
        }
        assert(s@.skip(i as int).drop_first() =~= s@.skip(i + 1));
        i = i + 1;
    }
    None
}

pub fn infrastructure_position(s: &Vec<InfrastructureRecord>, id: &String) -> (r: Option<usize>)
    ensures
        r is None <==> find_infrastructure(s@, id@) < 0,
        r matches Some(i) ==> i as int == find_infrastructure(s@, id@) && i < s@.len(),
{
    let n = s.len();
    let mut i: usize = 0;
    assert(s@.skip(0) =~= s@);
    while i < n
        invariant
            n == s@.len(),
            i <= n,
            find_infrastructure(s@, id@) == (if find_infrastructure(s@.skip(i as int), id@) < 0 {
                -1
            } else {
                find_infrastructure(s@.skip(i as int), id@) + i
            }),
        decreases n - i,
    {
        if s[i].infrastructure_id == *id {
            return Some(i);
        }
        assert(s@.skip(i as int).drop_first() =~= s@.skip(i + 1));
        i = i + 1;
    }
    None
}

/// Evicts settled proposals beyond the ledger's limit.
pub fn trim_proposals(proposals: &mut Vec<PublicProposal>)
    ensures
        final(proposals)@ == trimmed_settled(old(proposals)@, MAX_PROPOSALS as nat),
{
    crate::retention::trim_settled(proposals, MAX_PROPOSALS);
}

/// Makes room for one more proposal; false when every kept proposal is
/// still open.
pub fn proposal_room(proposals: &mut Vec<PublicProposal>) -> (room: bool)
    ensures
        ({
            let t = trimmed_settled(old(proposals)@, MAX_PROPOSALS as nat);
            if t.len() < MAX_PROPOSALS {
                room && final(proposals)@ == t
            } else if first_settled(t) < t.len() {
                room && final(proposals)@ == t.remove(first_settled(t) as int)
            } else {
                !room && final(proposals)@ == t
            }
        }),
{
    make_room(proposals, MAX_PROPOSALS)
}

// ---------------------------------------------------------------- public works

pub open spec fn repaired_road(r: InfrastructureRecord, r2: InfrastructureRecord, tick: u64) -> bool {
    &&& r2 == InfrastructureRecord {
        condition: 100,
        service_quality: 94,
        status: InfrastructureStatus::Operational,
        last_maintained_tick: tick,
        failure_note: r2.failure_note,
        ..r
    }
    &&& r2.failure_note matches Some(n) && n@ == "A public repair crew has reopened the road."@
}

pub open spec fn funded_service(r: InfrastructureRecord, r2: InfrastructureRecord, tick: u64) -> bool {
    let c: u8 = if r.condition < 80 { 80 } else { r.condition };
    r2 == InfrastructureRecord {
        condition: c,
        service_quality: 92,
        last_maintained_tick: tick,
        status: status_for(c),
        ..r
    }
}

/// The workshop a commissioned public work adds.
pub open spec fn is_workshop(w: InfrastructureRecord) -> bool {
    &&& w.infrastructure_id@ == "hearth-workshop"@
    &&& w.name@ == "Public workshop"@
    &&& w.kind == InfrastructureKind::PublicBuilding
    &&& w.position == Position { x: 7, y: 5 }
    &&& w.condition == 100 && w.upkeep_per_day == 2 && w.service_quality == 88
    &&& w.status == InfrastructureStatus::Operational
    &&& w.last_maintained_tick == 0
    &&& w.failure_note matches Some(n) && n@
        == "The new workshop is available to service orders and repairs."@
}

/// `s2` is `s` with the record at the index of `id` changed as `step` says,
/// or `s` itself when no record has that identifier.
pub open spec fn changed_record(
    s: Seq<InfrastructureRecord>,
    s2: Seq<InfrastructureRecord>,
    id: Seq<char>,
    step: spec_fn(InfrastructureRecord, InfrastructureRecord) -> bool,
) -> bool {
    let i = find_infrastructure(s, id);
    if i < 0 {
        s2 == s
    } else {
        s2 == s.update(i, s2[i]) && step(s[i], s2[i])
    }
}

/// The fields a completed public action changes.
pub open spec fn applied(g: Governance, g2: Governance, action: PublicAction, tick: u64) -> bool {
    match action {
        PublicAction::RepairRoad => {
            &&& changed_record(
                g.infrastructure@,
                g2.infrastructure@,
                "north-road"@,
                |a, b| repaired_road(a, b, tick),
            )
            &&& g2.households == g.households
            &&& g2.administration_quality == g.administration_quality
            &&& g2.service_funding_until_tick == g.service_funding_until_tick
        },
        PublicAction::FundService => {
            &&& changed_record(
                g.infrastructure@,
                g2.infrastructure@,
                "hearth-services"@,
                |a, b| funded_service(a, b, tick),
            )
            &&& g2.households == g.households
            &&& g2.administration_quality == g.administration_quality
            &&& g2.service_funding_until_tick == sat_add_u64(tick, 24)
        },
        PublicAction::HostFestival => {
            &&& g2.infrastructure == g.infrastructure
            &&& g2.households@.len() == g.households@.len()
            &&& forall|i: int|
                0 <= i < g.households@.len() ==> (#[trigger] g2.households@[i]) == HouseholdRecord {
                    demand: capped_u8(g.households@[i].demand + 12, 100),
                    service_quality: capped_u8(g.households@[i].service_quality + 8, 100),
                    ..g.households@[i]
                }
            &&& g2.administration_quality == g.administration_quality
            &&& g2.service_funding_until_tick == g.service_funding_until_tick
        },
        PublicAction::CommissionPublicWork => {
            &&& g2.infrastructure@.len() > 0
            &&& is_workshop(g2.infrastructure@.last())
            &&& g2.infrastructure@ == newest(
                g.infrastructure@.push(g2.infrastructure@.last()),
                MAX_INFRASTRUCTURE_RECORDS as nat,
            )
            &&& g2.households == g.households
            &&& g2.administration_quality == g.administration_quality
            &&& g2.service_funding_until_tick == g.service_funding_until_tick
        },
        PublicAction::UpdateContractBoard => {
            &&& g2.infrastructure == g.infrastructure
            &&& g2.households == g.households
            &&& g2.administration_quality == capped_u8(g.administration_quality + 4, 100)
            &&& g2.service_funding_until_tick == g.service_funding_until_tick
        },
    }
}

/// The fields a public action leaves alone.
pub open spec fn ledgers_kept(g: Governance, g2: Governance) -> bool {
    &&& g2.offices == g.offices
    &&& g2.proposals == g.proposals
    &&& g2.decisions == g.decisions
    &&& g2.public_treasury == g.public_treasury
    &&& g2.tax_rate_percent == g.tax_rate_percent
    &&& g2.next_proposal_id == g.next_proposal_id
    &&& g2.next_decision_id == g.next_decision_id
    &&& g2.tax_ledger == g.tax_ledger
    &&& g2.next_tax_id == g.next_tax_id
}

fn change_infrastructure(
    infrastructure: &mut Vec<InfrastructureRecord>,
    id: &str,
    repair: bool,
    tick: u64,
)
    ensures
        repair ==> changed_record(
            old(infrastructure)@,
            final(infrastructure)@,
            id@,
            |a, b| repaired_road(a, b, tick),
        ),
        !repair ==> changed_record(
            old(infrastructure)@,
            final(infrastructure)@,
            id@,
            |a, b| funded_service(a, b, tick),
        ),
{
    let key = String::from_str(id);
    let Some(i) = infrastructure_position(infrastructure, &key) else {
        return;
    };
    let mut record = copy_infrastructure(&infrastructure[i]);
    if repair {
        record.condition = 100;
        record.service_quality = 94;
        record.status = infrastructure_status(100);
        record.last_maintained_tick = tick;
        record.failure_note = Some(String::from_str("A public repair crew has reopened the road."));
    } else {
        record.condition = if record.condition < 80 {
            80
        } else {
            record.condition
        };
        record.service_quality = 92;
        record.last_maintained_tick = tick;
        record.status = infrastructure_status(record.condition);
    }
    let ghost before = infrastructure@;
    infrastructure.set(i, record);
    assert(infrastructure@ =~= before.update(i as int, infrastructure@[i as int]));
}

/// Carries out a completed public action.
pub fn apply_action(governance: &mut Governance, action: PublicAction, tick: u64)
    ensures
        applied(*old(governance), *final(governance), action, tick),
        ledgers_kept(*old(governance), *final(governance)),
{
    match action {
        PublicAction::RepairRoad => {
            change_infrastructure(&mut governance.infrastructure, "north-road", true, tick);
        },
        PublicAction::FundService => {
            governance.service_funding_until_tick = tick.saturating_add(24);
            change_infrastructure(&mut governance.infrastructure, "hearth-services", false, tick);
        },
        PublicAction::HostFestival => {
            let ghost start = governance.households@;
            let n = governance.households.len();
            for i in 0..n
                invariant
                    n == start.len(),
                    governance.households@.len() == n,
                    forall|k: int|
                        0 <= k < i ==> (#[trigger] governance.households@[k]) == (HouseholdRecord {
                            demand: capped_u8(start[k].demand + 12, 100),
                            service_quality: capped_u8(start[k].service_quality + 8, 100),
                            ..start[k]
                        }),
                    forall|k: int| i <= k < n ==> governance.households@[k] == start[k],
                    governance.infrastructure == old(governance).infrastructure,
                    governance.administration_quality == old(governance).administration_quality,
                    governance.service_funding_until_tick == old(
                        governance,
                    ).service_funding_until_tick,
                    ledgers_kept(*old(governance), *governance),
                    start == old(governance).households@,
            {
                let h = &governance.households[i];
                let demand = if h.demand <= 88 {
                    h.demand + 12
                } else {
                    100
                };
                let quality = if h.service_quality <= 92 {
                    h.service_quality + 8
                } else {
                    100
                };
                let updated = HouseholdRecord {
                    household_id: h.household_id.clone(),
                    status: h.status,
                    last_decision_tick: h.last_decision_tick,
                    demand,
                    safety: h.safety,
                    housing: h.housing,
                    food: h.food,
                    competition: h.competition,
                    service_quality: quality,
                    clue: h.clue.clone(),
                };
                governance.households.set(i, updated);
            }
        },
        PublicAction::CommissionPublicWork => {
            let workshop = InfrastructureRecord {
                infrastructure_id: String::from_str("hearth-workshop"),
                name: String::from_str("Public workshop"),
                kind: InfrastructureKind::PublicBuilding,
                position: Position { x: 7, y: 5 },
                condition: 100,
                upkeep_per_day: 2,
                service_quality: 88,
                status: InfrastructureStatus::Operational,
                last_maintained_tick: 0,
                failure_note: Some(
                    String::from_str(
                        "The new workshop is available to service orders and repairs.",
                    ),
                ),
            };
            let ghost w = workshop;
            let ghost before = governance.infrastructure@;
            governance.infrastructure.push(workshop);
            retain_recent(&mut governance.infrastructure, MAX_INFRASTRUCTURE_RECORDS);
            assert(governance.infrastructure@.last() == w);
        },
        PublicAction::UpdateContractBoard => {
            governance.administration_quality = if governance.administration_quality <= 96 {
                governance.administration_quality + 4
            } else {
                100
            };
        },
    }
}

// ---------------------------------------------------------------- commands

/// The actor of a governance command and the world tick.
#[derive(Debug, Clone)]
pub struct GovernanceContext {
    pub actor_id: String,
    pub actor_name: String,
    pub tick: u64,
}

pub open spec fn claim_office_post(
    g: Governance,
    g2: Governance,
    ctx: GovernanceContext,
    req: GovernanceRequest,
    r: GovernanceResponse,
) -> bool {
    let id = match req.office_id {
        Some(o) => o@,
        None => "steward"@,
    };
    let i = find_office(g.offices@, id);
    if i < 0 {
        refused_with(r, "That office is not recorded in the town hall."@) && g2 == g
    } else {
        let o = g.offices@[i];
        if o.holder_account_id matches Some(h) && h@ != ctx.actor_id@ {
            refused_with(r, "That office is occupied; inspect its authority first."@) && g2 == g
        } else {
            &&& granted_with(r, Some(GovernanceNote::OfficeFilled))
            &&& g2 == Governance { offices: g2.offices, ..g }
            &&& g2.offices@ == g.offices@.update(
                i,
                OfficeRecord {
                    holder_account_id: Some(ctx.actor_id),
                    holder_name: Some(ctx.actor_name),
                    last_active_tick: ctx.tick,
                    vacant: false,
                    vacancy_reason: None,
                    ..o
                },
            )
        }
    }
}

pub open spec fn set_tax_post(
    g: Governance,
    g2: Governance,
    ctx: GovernanceContext,
    req: GovernanceRequest,
    r: GovernanceResponse,
) -> bool {
    match req.tax_rate_percent {
        None => refused_with(r, "Name the new public tax rate."@) && g2 == g,
        Some(rate) => if !holds_office_spec(g.offices@, OfficeKind::Steward, ctx.actor_id@) {
            refused_with(r, "Only the Settlement Steward may set the public settlement tax."@) && g2
                == g
        } else if rate > MAX_TAX_RATE_PERCENT {
            refused_with(r, "The public tax rate must stay between 0% and 10%."@) && g2 == g
        } else {
            let previous = match g.tax_rate_percent {
                Some(p) => p,
                None => default_tax_rate(),
            };
            &&& granted_with(
                r,
                Some(GovernanceNote::TaxChanged { previous_percent: previous, rate_percent: rate }),
            )
            &&& g2 == Governance { tax_rate_percent: Some(rate), offices: g2.offices, ..g }
            &&& touched(g.offices@, g2.offices@, ctx.actor_id@, ctx.tick)
        },
    }
}

/// The ledger with room for one more proposal, when it can be made.
pub open spec fn proposals_with_room(s: Seq<PublicProposal>) -> Option<Seq<PublicProposal>> {
    let t = trimmed_settled(s, MAX_PROPOSALS as nat);
    if t.len() < MAX_PROPOSALS {
        Some(t)
    } else if first_settled(t) < t.len() {
        Some(t.remove(first_settled(t) as int))
    } else {
        None
    }
}

pub open spec fn is_new_proposal(
    p: PublicProposal,
    g: Governance,
    ctx: GovernanceContext,
    action: PublicAction,
    req: GovernanceRequest,
    cost: u32,
) -> bool {
    &&& p.proposal_id@ == "public-work-"@ + decimal(g.next_proposal_id as nat)
    &&& p.proposer_account_id == ctx.actor_id
    &&& p.proposer_name == ctx.actor_name
    &&& p.action == action
    &&& p.target@ == (match req.target {
        Some(t) => t@,
        None => label_spec(action),
    })
    &&& p.cost == cost
    &&& p.status == ProposalStatus::Proposed
    &&& p.created_tick == ctx.tick
    &&& p.approved_by is None
    &&& p.completed_tick is None
}

pub open spec fn propose_post(
    g: Governance,
    g2: Governance,
    ctx: GovernanceContext,
    req: GovernanceRequest,
    r: GovernanceResponse,
) -> bool {
    match req.public_action {
        None => refused_with(r, "Choose the bounded public action before proposing it."@) && g2
            == g,
        Some(action) => {
            let cost = match req.cost {
                Some(c) => c,
                None => default_cost_spec(action),
            };
            if cost == 0 || cost > g.public_treasury {
                refused_with(r, "The proposal cost must fit the public treasury."@) && g2 == g
            } else {
                match proposals_with_room(g.proposals@) {
                    None => {
                        &&& refused_with(
                            r,
                            "The town-hall proposal ledger is full; complete an existing proposal before adding another."@,
                        )
                        &&& g2 == Governance { proposals: g2.proposals, ..g }
                        &&& g2.proposals@ == trimmed_settled(g.proposals@, MAX_PROPOSALS as nat)
                    },
                    Some(room) => {
                        &&& granted_with(r, Some(GovernanceNote::Proposed))
                        &&& g2 == Governance {
                            proposals: g2.proposals,
                            next_proposal_id: sat_add_u64(g.next_proposal_id, 1),
                            ..g
                        }
                        &&& g2.proposals@.len() > 0
                        &&& g2.proposals@ == room.push(g2.proposals@.last())
                        &&& is_new_proposal(g2.proposals@.last(), g, ctx, action, req, cost)
                    },
                }
            }
        },
    }
}

pub open spec fn approve_post(
    g: Governance,
    g2: Governance,
    ctx: GovernanceContext,
    req: GovernanceRequest,
    r: GovernanceResponse,
) -> bool {
    match req.proposal_id {
        None => refused_with(r, "Name the proposal to approve."@) && g2 == g,
        Some(id) => if !holds_office_spec(g.offices@, OfficeKind::Steward, ctx.actor_id@) {
            refused_with(r, "Only the Settlement Steward may approve public spending."@) && g2 == g
        } else {
            let i = find_proposal(g.proposals@, id@);
            if i < 0 {
                refused_with(r, "That proposal is not in the town-hall ledger."@) && g2 == g
            } else if g.proposals@[i].status != ProposalStatus::Proposed {
                refused_with(r, "That proposal is no longer awaiting approval."@) && g2 == g
            } else {
                &&& granted_with(r, Some(GovernanceNote::Approved))
                &&& g2 == Governance { proposals: g2.proposals, offices: g2.offices, ..g }
                &&& g2.proposals@ == g.proposals@.update(
                    i,
                    PublicProposal {
                        status: ProposalStatus::Approved,
                        approved_by: Some(ctx.actor_id),
                        ..g.proposals@[i]
                    },
                )
                &&& touched(g.offices@, g2.offices@, ctx.actor_id@, ctx.tick)
            }
        },
    }
}

/// The decision a completed proposal records.
pub open spec fn is_decision(d: GovernanceDecision, g: Governance, ctx: GovernanceContext, p: PublicProposal) -> bool {
    &&& d.decision_id@ == "decision-"@ + decimal(g.next_decision_id as nat)
    &&& d.actor_account_id == ctx.actor_id
    &&& d.actor_name == ctx.actor_name
    &&& d.action == p.action
    &&& d.proposal_id == p.proposal_id
    &&& d.cost == p.cost
    &&& d.service_affected == p.target
    &&& d.created_tick == ctx.tick
}

pub open spec fn complete_post(
    g: Governance,
    g2: Governance,
    ctx: GovernanceContext,
    req: GovernanceRequest,
    r: GovernanceResponse,
) -> bool {
    match req.proposal_id {
        None => refused_with(r, "Name the approved proposal to complete."@) && g2 == g,
        Some(id) => {
            let i = find_proposal(g.proposals@, id@);
            if i < 0 {
                refused_with(r, "That proposal is not in the town-hall ledger."@) && g2 == g
            } else {
                let p = g.proposals@[i];
                if p.status != ProposalStatus::Approved {
                    refused_with(
                        r,
                        "An approved proposal must be completed before it changes a service."@,
                    ) && g2 == g
                } else if !can_complete_spec(g.offices@, ctx.actor_id@, p.action) {
                    refused_with(r, "Your office does not have authority for that public action."@)
                        && g2 == g
                } else if g.public_treasury < p.cost {
                    refused_with(r, "The public treasury cannot cover that approved cost."@) && g2
                        == g
                } else if p.action == PublicAction::CommissionPublicWork && find_infrastructure(
                    g.infrastructure@,
                    "hearth-workshop"@,
                ) >= 0 {
                    refused_with(r, "The public workshop has already been commissioned."@) && g2
                        == g
                } else {
                    &&& granted_with(r, Some(GovernanceNote::Completed))
                    &&& g2.public_treasury == g.public_treasury - p.cost
                    &&& g2.proposals@ == g.proposals@.update(
                        i,
                        PublicProposal {
                            status: ProposalStatus::Completed,
                            completed_tick: Some(ctx.tick),
                            ..p
                        },
                    )
                    &&& applied(g, g2, p.action, ctx.tick)
                    &&& g2.decisions@.len() > 0
                    &&& g2.decisions@ == newest(
                        g.decisions@.push(g2.decisions@.last()),
                        MAX_GOVERNANCE_DECISIONS as nat,
                    )
                    &&& is_decision(g2.decisions@.last(), g, ctx, p)
                    &&& g2.next_decision_id == sat_add_u64(g.next_decision_id, 1)
                    &&& touched(g.offices@, g2.offices@, ctx.actor_id@, ctx.tick)
                    &&& g2.tax_rate_percent == g.tax_rate_percent
                    &&& g2.next_proposal_id == g.next_proposal_id
                    &&& g2.tax_ledger == g.tax_ledger
                    &&& g2.next_tax_id == g.next_tax_id
                }
            }
        },
    }
}

/// The outcome of any governance command.
pub open spec fn governance_post(
    g: Governance,
    g2: Governance,
    ctx: GovernanceContext,
    req: GovernanceRequest,
    r: GovernanceResponse,
) -> bool {
    match req.action {
        GovernanceAction::Inspect => granted_with(r, None) && g2 == g,
        GovernanceAction::ClaimOffice => claim_office_post(g, g2, ctx, req, r),
        GovernanceAction::SetTaxRate => set_tax_post(g, g2, ctx, req, r),
        GovernanceAction::Propose => propose_post(g, g2, ctx, req, r),
        GovernanceAction::Approve => approve_post(g, g2, ctx, req, r),
        GovernanceAction::Complete => complete_post(g, g2, ctx, req, r),
    }
}

fn refuse(text: &str) -> (r: GovernanceResponse)
    ensures
        refused_with(r, text@),
{
    GovernanceResponse { accepted: false, reason: Some(text.to_owned()), note: None }
}

fn grant(note: Option<GovernanceNote>) -> (r: GovernanceResponse)
    ensures
        granted_with(r, note),
{
    GovernanceResponse { accepted: true, reason: None, note }
}

fn claim_office(g: &mut Governance, ctx: &GovernanceContext, req: &GovernanceRequest) -> (r:
    GovernanceResponse)
    ensures
        claim_office_post(*old(g), *final(g), *ctx, *req, r),
{
    let id = match &req.office_id {
        Some(o) => o.clone(),
        None => String::from_str("steward"),
    };
    let Some(i) = office_position(&g.offices, &id) else {
        return refuse("That office is not recorded in the town hall.");
    };
    let mut office = copy_office(&g.offices[i]);
    let occupied = match &office.holder_account_id {
        Some(h) => !(*h == ctx.actor_id),
        None => false,
    };
    if occupied {
        return refuse("That office is occupied; inspect its authority first.");
    }
    office.holder_account_id = Some(ctx.actor_id.clone());
    office.holder_name = Some(ctx.actor_name.clone());
    office.last_active_tick = ctx.tick;
    office.vacant = false;
    office.vacancy_reason = None;
    g.offices.set(i, office);
    grant(Some(GovernanceNote::OfficeFilled))
}

fn set_tax_rate(g: &mut Governance, ctx: &GovernanceContext, req: &GovernanceRequest) -> (r:
    GovernanceResponse)
    ensures
        set_tax_post(*old(g), *final(g), *ctx, *req, r),
{
    let Some(rate) = req.tax_rate_percent else {
        return refuse("Name the new public tax rate.");
    };
    if !holds_office(&g.offices, OfficeKind::Steward, &ctx.actor_id) {
        return refuse("Only the Settlement Steward may set the public settlement tax.");
    }
    if rate > MAX_TAX_RATE_PERCENT {
        return refuse("The public tax rate must stay between 0% and 10%.");
    }
    let previous = match g.tax_rate_percent {
        Some(p) => p,
        None => 5,
    };
    g.tax_rate_percent = Some(rate);
    touch_office(&mut g.offices, &ctx.actor_id, ctx.tick);
    grant(Some(GovernanceNote::TaxChanged { previous_percent: previous, rate_percent: rate }))
}

fn propose(g: &mut Governance, ctx: &GovernanceContext, req: &GovernanceRequest) -> (r:
    GovernanceResponse)
    ensures
        propose_post(*old(g), *final(g), *ctx, *req, r),
{
    let Some(action) = req.public_action else {
        return refuse("Choose the bounded public action before proposing it.");
    };
    let cost = match req.cost {
        Some(c) => c,
        None => default_cost(action),
    };
    if cost == 0 || cost > g.public_treasury {
        return refuse("The proposal cost must fit the public treasury.");
    }
    if !proposal_room(&mut g.proposals) {
        return refuse(
            "The town-hall proposal ledger is full; complete an existing proposal before adding another.",
        );
    }
    let proposal = PublicProposal {
        proposal_id: numbered("public-work-", g.next_proposal_id),
        proposer_account_id: ctx.actor_id.clone(),
        proposer_name: ctx.actor_name.clone(),
        action,
        target: match &req.target {
            Some(t) => t.clone(),
            None => action_label(action),
        },
        cost,
        status: ProposalStatus::Proposed,
        created_tick: ctx.tick,
        approved_by: None,
        completed_tick: None,
    };
    let ghost p = proposal;
    let ghost room = g.proposals@;
    g.next_proposal_id = g.next_proposal_id.saturating_add(1);
    g.proposals.push(proposal);
    assert(g.proposals@ =~= room.push(p));
    grant(Some(GovernanceNote::Proposed))
}

fn approve(g: &mut Governance, ctx: &GovernanceContext, req: &GovernanceRequest) -> (r:
    GovernanceResponse)
    ensures
        approve_post(*old(g), *final(g), *ctx, *req, r),
{
    let Some(id) = &req.proposal_id else {
        return refuse("Name the proposal to approve.");
    };
    if !holds_office(&g.offices, OfficeKind::Steward, &ctx.actor_id) {
        return refuse("Only the Settlement Steward may approve public spending.");
    }
    let Some(i) = proposal_position(&g.proposals, id) else {
        return refuse("That proposal is not in the town-hall ledger.");
    };
    let mut proposal = copy_proposal(&g.proposals[i]);
    if proposal.status != ProposalStatus::Proposed {
        return refuse("That proposal is no longer awaiting approval.");
    }
    proposal.status = ProposalStatus::Approved;
    proposal.approved_by = Some(ctx.actor_id.clone());
    g.proposals.set(i, proposal);
    touch_office(&mut g.offices, &ctx.actor_id, ctx.tick);
    grant(Some(GovernanceNote::Approved))
}

fn complete(g: &mut Governance, ctx: &GovernanceContext, req: &GovernanceRequest) -> (r:
    GovernanceResponse)
    ensures
        complete_post(*old(g), *final(g), *ctx, *req, r),
{
    let Some(id) = &req.proposal_id else {
        return refuse("Name the approved proposal to complete.");
    };
    let Some(i) = proposal_position(&g.proposals, id) else {
        return refuse("That proposal is not in the town-hall ledger.");
    };
    let mut proposal = copy_proposal(&g.proposals[i]);
    if proposal.status != ProposalStatus::Approved {
        return refuse("An approved proposal must be completed before it changes a service.");
    }
    if !can_complete(&g.offices, &ctx.actor_id, proposal.action) {
        return refuse("Your office does not have authority for that public action.");
    }
    if g.public_treasury < proposal.cost {
        return refuse("The public treasury cannot cover that approved cost.");
    }
    if proposal.action == PublicAction::CommissionPublicWork {
        let workshop = String::from_str("hearth-workshop");
        if infrastructure_position(&g.infrastructure, &workshop).is_some() {
            return refuse("The public workshop has already been commissioned.");
        }
    }
    let decision = GovernanceDecision {
        decision_id: numbered("decision-", g.next_decision_id),
        actor_account_id: ctx.actor_id.clone(),
        actor_name: ctx.actor_name.clone(),
        action: proposal.action,
        proposal_id: proposal.proposal_id.clone(),
        cost: proposal.cost,
        service_affected: proposal.target.clone(),
        created_tick: ctx.tick,
    };
    g.public_treasury = g.public_treasury - proposal.cost;
    let action = proposal.action;
    proposal.status = ProposalStatus::Completed;
    proposal.completed_tick = Some(ctx.tick);
    g.proposals.set(i, proposal);
    apply_action(g, action, ctx.tick);
    let ghost d = decision;
    let ghost before = g.decisions@;
    g.decisions.push(decision);
    retain_recent(&mut g.decisions, MAX_GOVERNANCE_DECISIONS);
    assert(g.decisions@.last() == d);
    g.next_decision_id = g.next_decision_id.saturating_add(1);
    touch_office(&mut g.offices, &ctx.actor_id, ctx.tick);
    grant(Some(GovernanceNote::Completed))
}

/// Applies one governance command.
pub fn governance_action(g: &mut Governance, ctx: &GovernanceContext, req: &GovernanceRequest) -> (r:
    GovernanceResponse)
    ensures
        governance_post(*old(g), *final(g), *ctx, *req, r),
{
    match req.action {
        GovernanceAction::Inspect => grant(None),
        GovernanceAction::ClaimOffice => claim_office(g, ctx, req),
        GovernanceAction::SetTaxRate => set_tax_rate(g, ctx, req),
        GovernanceAction::Propose => propose(g, ctx, req),
        GovernanceAction::Approve => approve(g, ctx, req),
        GovernanceAction::Complete => complete(g, ctx, req),
    }
}

// ---------------------------------------------------------------- laws

/// Public money moves only with authority: a tax rate is set only by the
/// Steward and within 0% to 10%, spending is approved only by the Steward,
/// and an approved proposal is completed only by an office with authority
/// for it, from a treasury that covers its cost, which it then pays
/// exactly; the public workshop is commissioned only once.
pub proof fn lemma_spending_is_authorised(
    g: Governance,
    g2: Governance,
    ctx: GovernanceContext,
    req: GovernanceRequest,
    r: GovernanceResponse,
)
    requires
        governance_post(g, g2, ctx, req, r),
        r.accepted,
    ensures
        req.action == GovernanceAction::SetTaxRate ==> (holds_office_spec(g.offices@, OfficeKind::Steward, ctx.actor_id@)
            && (g2.tax_rate_percent matches Some(rate) && rate <= MAX_TAX_RATE_PERCENT)),
        req.action == GovernanceAction::Approve ==> holds_office_spec(g.offices@, OfficeKind::Steward, ctx.actor_id@),
        req.action == GovernanceAction::Complete ==> ({
            let p = g.proposals@[find_proposal(g.proposals@, req.proposal_id->0@)];
            &&& p.status == ProposalStatus::Approved
            &&& can_complete_spec(g.offices@, ctx.actor_id@, p.action)
            &&& p.cost <= g.public_treasury
            &&& g2.public_treasury == g.public_treasury - p.cost
            &&& p.action == PublicAction::CommissionPublicWork ==> find_infrastructure(
                g.infrastructure@,
                "hearth-workshop"@,
            ) < 0
        }),
        req.action != GovernanceAction::Complete ==> g2.public_treasury == g.public_treasury,
{
}

/// No governance command raises the treasury, and a refused one changes
/// nothing, except that a proposal refused for a full ledger may already
/// have evicted closed history.
pub proof fn lemma_refusal_changes_nothing(
    g: Governance,
    g2: Governance,
    ctx: GovernanceContext,
    req: GovernanceRequest,
    r: GovernanceResponse,
)
    requires
        governance_post(g, g2, ctx, req, r),
    ensures
        g2.public_treasury <= g.public_treasury,
        !r.accepted && req.action != GovernanceAction::Propose ==> g2 == g,
        !r.accepted && req.action == GovernanceAction::Propose ==> (g2 == (Governance { proposals: g2.proposals, ..g })),
{
}

proof fn lemma_find_proposal_bounds(s: Seq<PublicProposal>, id: Seq<char>)
    ensures
        -1 <= find_proposal(s, id) < s.len(),
    decreases s.len(),
{
    if s.len() > 0 && s[0].proposal_id@ != id {
        lemma_find_proposal_bounds(s.drop_first(), id);
    }
}

/// The proposal ledger never holds more than its limit.
pub proof fn lemma_proposal_ledger_bounded(
    g: Governance,
    g2: Governance,
    ctx: GovernanceContext,
    req: GovernanceRequest,
    r: GovernanceResponse,
)
    requires
        g.proposals@.len() <= MAX_PROPOSALS,
        governance_post(g, g2, ctx, req, r),
    ensures
        g2.proposals@.len() <= MAX_PROPOSALS,
{
    let t = trimmed_settled(g.proposals@, MAX_PROPOSALS as nat);
    crate::retention::lemma_trimmed_settled(g.proposals@, MAX_PROPOSALS as nat);
    crate::retention::lemma_first_settled(t);
    if req.proposal_id is Some {
        lemma_find_proposal_bounds(g.proposals@, req.proposal_id->0@);
    }
    if req.action == GovernanceAction::Propose {
        if t.len() < MAX_PROPOSALS {
            assert(proposals_with_room(g.proposals@) == Some(t));
        } else if first_settled(t) < t.len() {
            assert(t.len() == MAX_PROPOSALS);
            assert(t.remove(first_settled(t) as int).len() < MAX_PROPOSALS);
            assert(proposals_with_room(g.proposals@) == Some(t.remove(first_settled(t) as int)));
        } else {
            assert(proposals_with_room(g.proposals@) is None);
        }
    }
}

// ---------------------------------------------------------------- chronicle

/// The chronicle entry an accepted governance command by `actor_name`
/// writes: a filled office names `office_id`, and a proposal, approval or
/// completion describes `proposal`.
pub fn governance_entry(
    note: GovernanceNote,
    actor_name: &str,
    office_id: &str,
    proposal: &PublicProposal,
) -> (t: crate::chronicle::EntryText)
    ensures
        match note {
            GovernanceNote::OfficeFilled => crate::chronicle::reads(
                t,
                "office filled"@,
                "A town-hall office finds a responsible hand"@,
                actor_name@ + " now holds the "@ + office_id@ + " office."@,
            ),
            GovernanceNote::TaxChanged { previous_percent, rate_percent } => crate::chronicle::reads(
                t,
                "tax policy changed"@,
                "The mayor posts a bounded settlement tax"@,
                actor_name@ + " changed the Hearth tax from "@ + decimal(previous_percent as nat) + "% to "@
                    + decimal(rate_percent as nat) + "% on nearby carried gold."@,
            ),
            GovernanceNote::Proposed => crate::chronicle::reads(
                t,
                "public proposal"@,
                "The town hall receives a public proposal"@,
                actor_name@ + " proposes to "@ + label_spec(proposal.action) + " for "@ + decimal(
                    proposal.cost as nat,
                ) + " public gold."@,
            ),
            GovernanceNote::Approved => crate::chronicle::reads(
                t,
                "public approval"@,
                "The town hall makes a costed decision"@,
                actor_name@ + " approves proposal "@ + proposal.proposal_id@ + "."@,
            ),
            GovernanceNote::Completed => crate::chronicle::reads(
                t,
                "public action completed"@,
                "A public resource reaches the service it promised"@,
                actor_name@ + " completed "@ + label_spec(proposal.action) + " for "@ + decimal(
                    proposal.cost as nat,
                ) + " public gold; "@ + proposal.target@ + " changed."@,
            ),
        },
{
    match note {
        GovernanceNote::OfficeFilled => crate::chronicle::EntryText {
            kind: String::from_str("office filled"),
            title: String::from_str("A town-hall office finds a responsible hand"),
            text: actor_name.to_owned().concat(" now holds the ").concat(office_id).concat(" office."),
        },
        GovernanceNote::TaxChanged { previous_percent, rate_percent } => {
            let from = numbered("", previous_percent as u64);
            let to = numbered("", rate_percent as u64);
            proof {
                reveal_strlit("");
                assert(from@ =~= decimal(previous_percent as nat));
                assert(to@ =~= decimal(rate_percent as nat));
            }
            crate::chronicle::EntryText {
                kind: String::from_str("tax policy changed"),
                title: String::from_str("The mayor posts a bounded settlement tax"),
                text: actor_name.to_owned().concat(" changed the Hearth tax from ").concat(from.as_str()).concat(
                    "% to ",
                ).concat(to.as_str()).concat("% on nearby carried gold."),
            }
        },
        GovernanceNote::Proposed => {
            let cost = numbered("", proposal.cost as u64);
            let label = action_label(proposal.action);
            proof {
                reveal_strlit("");
                assert(cost@ =~= decimal(proposal.cost as nat));
            }
            crate::chronicle::EntryText {
                kind: String::from_str("public proposal"),
                title: String::from_str("The town hall receives a public proposal"),
                text: actor_name.to_owned().concat(" proposes to ").concat(label.as_str()).concat(" for ").concat(
                    cost.as_str(),
                ).concat(" public gold."),
            }
        },
        GovernanceNote::Approved => crate::chronicle::EntryText {
            kind: String::from_str("public approval"),
            title: String::from_str("The town hall makes a costed decision"),
            text: actor_name.to_owned().concat(" approves proposal ").concat(proposal.proposal_id.as_str()).concat("."),
        },
        GovernanceNote::Completed => {
            let cost = numbered("", proposal.cost as u64);
            let label = action_label(proposal.action);
            proof {
                reveal_strlit("");
                assert(cost@ =~= decimal(proposal.cost as nat));
            }
            crate::chronicle::EntryText {
                kind: String::from_str("public action completed"),
                title: String::from_str("A public resource reaches the service it promised"),
                text: actor_name.to_owned().concat(" completed ").concat(label.as_str()).concat(" for ").concat(
                    cost.as_str(),
                ).concat(" public gold; ").concat(proposal.target.as_str()).concat(" changed."),
            }
        },
    }
}

/// The status of a piece of infrastructure follows its condition: 0 to 24
/// failed, 25 to 59 in need of repair, 60 to 79 recovering, 80 and above
/// operational.
pub proof fn lemma_status_bands(condition: u8)
    ensures
        condition <= 24 ==> status_for(condition) == InfrastructureStatus::Failed,
        25 <= condition <= 59 ==> status_for(condition) == InfrastructureStatus::NeedsRepair,
        60 <= condition <= 79 ==> status_for(condition) == InfrastructureStatus::Recovering,
        80 <= condition ==> status_for(condition) == InfrastructureStatus::Operational,
{
}

} // verus!
