//! The pioneer expedition: a party is announced at the registry, gathers
//! members with complementary roles and bounded supplies, launches, and is
//! resolved into a founded outpost or a safe retreat.
use vstd::prelude::*;
use vstd::string::*;
use crate::errors::RepositoryError;
use crate::ledger::{remember, remember_all_spec, views};
use crate::text::{any_control, chars_of, has_control, trim_bounds, trim_seq};

verus! {

/// The most of each supply an expedition can hold.
pub const MAX_EXPEDITION_SUPPLY: u32 = 99;

/// The most members a planning party can hold.
pub const MAX_EXPEDITION_MEMBERS: usize = 20;

/// The longest outpost name, in characters.
pub const MAX_OUTPOST_NAME_CHARS: usize = 80;

/// A tile of the world map.
#[derive(Debug, Clone, Copy, PartialEq, Eq, Structural)]
pub struct Position {
    pub x: i32,
    pub y: i32,
}

#[derive(Debug, Clone, Copy, PartialEq, Eq, Structural)]
pub enum ExpeditionRole {
    Scout,
    Farmer,
    Builder,
}

#[derive(Debug, Clone, Copy, PartialEq, Eq, Structural)]
pub enum ExpeditionStatus {
    Planning,
    Launched,
    Succeeded,
    Retreated,
}

#[derive(Debug, Clone, Copy, PartialEq, Eq, Structural)]
pub enum ExpeditionAction {
    Announce,
    Join,
    Supply,
    Launch,
    Resolve,
}

#[derive(Debug, Clone)]
pub struct ExpeditionMember {
    pub account_id: String,
    pub display_name: String,
    pub role: ExpeditionRole,
}

#[derive(Debug, Clone)]
pub struct Expedition {
    pub expedition_id: String,
    pub outpost_name: String,
    pub leader_account_id: String,
    pub members: Vec<ExpeditionMember>,
    pub food: u32,
    pub tools: u32,
    pub materials: u32,
    pub safety: u32,
    pub status: ExpeditionStatus,
    pub outcome: Option<String>,
    pub outpost_position: Position,
}

/// The supplies a party needs to found its outpost.
#[derive(Debug, Clone, Copy)]
pub struct ExpeditionRequirements {
    pub food: u32,
    pub tools: u32,
    pub materials: u32,
    pub safety: u32,
}

/// A validated expedition command.
#[derive(Debug, Clone)]
pub struct ExpeditionRequest {
    pub action: ExpeditionAction,
    pub expedition_id: Option<String>,
    pub role: Option<ExpeditionRole>,
    pub food: u32,
    pub tools: u32,
    pub materials: u32,
    pub safety: u32,
    pub outpost_name: Option<String>,
}

/// The frontier registry: the current expedition, the accounts credited
/// with a completed expedition, and the founded outpost.
#[derive(Debug, Clone)]
pub struct Frontier {
    pub expedition: Option<Expedition>,
    pub credentials: Vec<String>,
    pub outpost: Option<Position>,
}

/// The chronicle entry an accepted command asks for.
#[derive(Debug, Clone, Copy, PartialEq, Eq, Structural)]
pub enum ExpeditionNote {
    Announced,
    Launched,
    OutpostFounded,
    Retreated,
}

#[derive(Debug, Clone)]
pub struct ExpeditionResponse {
    pub accepted: bool,
    pub expedition: Option<Expedition>,
    pub reason: Option<String>,
    pub note: Option<ExpeditionNote>,
}

// ---------------------------------------------------------------- specs

pub open spec fn member_named(members: Seq<ExpeditionMember>, account: Seq<char>) -> bool {
    exists|i: int| 0 <= i < members.len() && (#[trigger] members[i]).account_id@ == account
}

pub open spec fn has_role_spec(members: Seq<ExpeditionMember>, role: ExpeditionRole) -> bool {
    exists|i: int| 0 <= i < members.len() && (#[trigger] members[i]).role == role
}

/// The party holds a scout, a farmer and a builder.
pub open spec fn has_roles_spec(members: Seq<ExpeditionMember>) -> bool {
    &&& has_role_spec(members, ExpeditionRole::Scout)
    &&& has_role_spec(members, ExpeditionRole::Farmer)
    &&& has_role_spec(members, ExpeditionRole::Builder)
}

/// An absent selector matches any expedition; a present one matches only
/// the expedition with that identifier.
pub open spec fn selector_matches(requested: Option<String>, id: Seq<char>) -> bool {
    match requested {
        None => true,
        Some(r) => r@ == id,
    }
}

/// A supply total after adding a request, both held at the supply cap.
pub open spec fn capped_supply(total: u32, requested: u32) -> u32 {
    let add = if requested < MAX_EXPEDITION_SUPPLY { requested } else { MAX_EXPEDITION_SUPPLY };
    if total + add < MAX_EXPEDITION_SUPPLY {
        (total + add) as u32
    } else {
        MAX_EXPEDITION_SUPPLY
    }
}

/// The party carries every supply the outpost needs.
pub open spec fn supplied(e: Expedition, req: ExpeditionRequirements) -> bool {
    &&& e.food >= req.food
    &&& e.tools >= req.tools
    &&& e.materials >= req.materials
    &&& e.safety >= req.safety
}

/// The accounts of the party, in order.
pub open spec fn member_accounts(members: Seq<ExpeditionMember>) -> Seq<Seq<char>> {
    members.map_values(|m: ExpeditionMember| m.account_id@)
}

/// Two expeditions hold the same values, member list compared by content.
pub open spec fn same_expedition(a: Expedition, b: Expedition) -> bool {
    &&& a.expedition_id == b.expedition_id
    &&& a.outpost_name == b.outpost_name
    &&& a.leader_account_id == b.leader_account_id
    &&& a.members@ == b.members@
    &&& a.food == b.food && a.tools == b.tools && a.materials == b.materials && a.safety == b.safety
    &&& a.status == b.status
    &&& a.outcome == b.outcome
    &&& a.outpost_position == b.outpost_position
}

pub open spec fn same_opt(a: Option<Expedition>, b: Option<Expedition>) -> bool {
    match (a, b) {
        (None, None) => true,
        (Some(x), Some(y)) => same_expedition(x, y),
        _ => false,
    }
}

pub open spec fn reason_is(r: ExpeditionResponse, text: Seq<char>) -> bool {
    &&& !r.accepted
    &&& r.note is None
    &&& r.reason matches Some(s) && s@ == text
}

pub open spec fn accepted_with(r: ExpeditionResponse, note: Option<ExpeditionNote>) -> bool {
    &&& r.accepted
    &&& r.reason is None
    &&& r.note == note
}

pub open spec fn stale_text() -> Seq<char> {
    "That expedition is no longer current."@
}

/// The expedition an announcement founds.
pub open spec fn is_announced(
    e: Expedition,
    actor_id: String,
    actor_name: String,
    role: ExpeditionRole,
    name: Seq<char>,
) -> bool {
    &&& e.expedition_id@ == "pioneer-1"@
    &&& e.outpost_name@ == name
    &&& e.leader_account_id == actor_id
    &&& e.members@ == seq![ExpeditionMember { account_id: actor_id, display_name: actor_name, role }]
    &&& e.food == 0 && e.tools == 0 && e.materials == 0 && e.safety == 0
    &&& e.status == ExpeditionStatus::Planning
    &&& e.outcome is None
    &&& e.outpost_position == Position { x: 14, y: 8 }
}

/// `e2` is `e1` with another status and outcome.
pub open spec fn same_party(e1: Expedition, e2: Expedition) -> bool {
    &&& e2.expedition_id == e1.expedition_id
    &&& e2.outpost_name == e1.outpost_name
    &&& e2.leader_account_id == e1.leader_account_id
    &&& e2.members@ == e1.members@
    &&& e2.food == e1.food && e2.tools == e1.tools
    &&& e2.materials == e1.materials && e2.safety == e1.safety
    &&& e2.outpost_position == e1.outpost_position
}

/// Credentials after a successful expedition: every member is credited once.
pub open spec fn credited(creds: Seq<String>, e: Expedition) -> Seq<Seq<char>> {
    remember_all_spec(views(creds), member_accounts(e.members@))
}

/// The outcome of announcing an expedition.
pub open spec fn announce_post(
    f: Frontier,
    f2: Frontier,
    actor_id: String,
    actor_name: String,
    req: ExpeditionRequest,
    r: ExpeditionResponse,
) -> bool {
    if !selector_matches(req.expedition_id, "pioneer-1"@) {
        reason_is(r, stale_text()) && f2 == f && same_opt(r.expedition, f.expedition)
    } else if f.expedition matches Some(e) && (e.status == ExpeditionStatus::Planning || e.status
        == ExpeditionStatus::Launched) {
        reason_is(r, "A pioneer expedition is already on the registry."@) && f2 == f
            && same_opt(r.expedition, f.expedition)
    } else {
        let role = match req.role {
            Some(role) => role,
            None => ExpeditionRole::Scout,
        };
        let name = match req.outpost_name {
            Some(n) => n@,
            None => "Lantern Rest"@,
        };
        &&& accepted_with(r, Some(ExpeditionNote::Announced))
        &&& f2.expedition matches Some(e2) && is_announced(e2, actor_id, actor_name, role, name)
        &&& same_opt(r.expedition, f2.expedition)
        &&& f2.outpost == f.outpost
        &&& views(f2.credentials@) == (match f.expedition {
            Some(e) => if e.status == ExpeditionStatus::Succeeded {
                credited(f.credentials@, e)
            } else {
                views(f.credentials@)
            },
            None => views(f.credentials@),
        })
    }
}

/// The outcome of joining the party.
pub open spec fn join_post(
    f: Frontier,
    f2: Frontier,
    actor_id: String,
    actor_name: String,
    req: ExpeditionRequest,
    r: ExpeditionResponse,
) -> bool {
    match f.expedition {
        None => reason_is(r, "Announce the pioneer expedition at the registry first."@) && f2 == f
            && r.expedition is None,
        Some(e) => match req.role {
            None => reason_is(r, "Choose a complementary expedition role."@) && f2 == f
                && same_opt(r.expedition, f.expedition),
            Some(role) => {
                &&& same_opt(r.expedition, f2.expedition)
                &&& if !selector_matches(req.expedition_id, e.expedition_id@) {
                    reason_is(r, stale_text()) && f2 == f
                } else if e.status != ExpeditionStatus::Planning {
                    reason_is(r, "The pioneer party is no longer gathering."@) && f2 == f
                } else if member_named(e.members@, actor_id@) {
                    reason_is(r, "You are already named on this expedition."@) && f2 == f
                } else if e.members@.len() >= MAX_EXPEDITION_MEMBERS {
                    reason_is(r, "The pioneer party has reached its 20-member planning limit."@)
                        && f2 == f
                } else {
                    &&& accepted_with(r, None)
                    &&& f2.credentials == f.credentials && f2.outpost == f.outpost
                    &&& f2.expedition matches Some(e2) && e2 == (Expedition {
                        members: e2.members,
                        ..e
                    }) && e2.members@ == e.members@.push(
                        ExpeditionMember { account_id: actor_id, display_name: actor_name, role },
                    )
                }
            },
        },
    }
}

/// The outcome of adding supplies.
pub open spec fn supply_post(
    f: Frontier,
    f2: Frontier,
    actor_id: String,
    req: ExpeditionRequest,
    r: ExpeditionResponse,
) -> bool {
    match f.expedition {
        None => reason_is(r, "There is no pioneer expedition to supply."@) && f2 == f
            && r.expedition is None,
        Some(e) => {
            &&& same_opt(r.expedition, f2.expedition)
            &&& if !selector_matches(req.expedition_id, e.expedition_id@) {
                reason_is(r, stale_text()) && f2 == f
            } else if e.status != ExpeditionStatus::Planning {
                reason_is(r, "Only a gathering expedition can receive supplies."@) && f2 == f
            } else if member_named(e.members@, actor_id@) {
                &&& accepted_with(r, None)
                &&& f2.credentials == f.credentials && f2.outpost == f.outpost
                &&& f2.expedition == Some(
                    Expedition {
                        food: capped_supply(e.food, req.food),
                        tools: capped_supply(e.tools, req.tools),
                        materials: capped_supply(e.materials, req.materials),
                        safety: capped_supply(e.safety, req.safety),
                        ..e
                    },
                )
            } else {
                reason_is(r, "Join the group before adding supplies."@) && f2 == f
            }
        },
    }
}

/// The outcome of launching the party.
pub open spec fn launch_post(
    f: Frontier,
    f2: Frontier,
    actor_id: String,
    req: ExpeditionRequest,
    r: ExpeditionResponse,
) -> bool {
    match f.expedition {
        None => reason_is(r, "There is no pioneer expedition to launch."@) && f2 == f
            && r.expedition is None,
        Some(e) => {
            &&& same_opt(r.expedition, f2.expedition)
            &&& if !selector_matches(req.expedition_id, e.expedition_id@) {
                reason_is(r, stale_text()) && f2 == f
            } else if e.status != ExpeditionStatus::Planning {
                reason_is(r, "Only a gathering expedition can be launched."@) && f2 == f
            } else if !member_named(e.members@, actor_id@) {
                reason_is(r, "Join the pioneer party before launching it."@) && f2 == f
            } else if e.members@.len() < 3 || !has_roles_spec(e.members@) {
                reason_is(r, "The party still needs scout, farmer, and builder roles."@) && f2
                    == f
            } else {
                &&& accepted_with(r, Some(ExpeditionNote::Launched))
                &&& f2.credentials == f.credentials && f2.outpost == f.outpost
                &&& f2.expedition == Some(Expedition { status: ExpeditionStatus::Launched, ..e })
            }
        },
    }
}

pub open spec fn success_text() -> Seq<char> {
    "Lantern Rest is founded; the party retreats only after the outpost is safe."@
}

pub open spec fn retreat_text() -> Seq<char> {
    "The pioneer party retreats before founding the outpost; every character returns safely."@
}

/// The outcome of resolving a launched party.
pub open spec fn resolve_post(
    f: Frontier,
    f2: Frontier,
    actor_id: String,
    req: ExpeditionRequest,
    requirements: ExpeditionRequirements,
    r: ExpeditionResponse,
) -> bool {
    match f.expedition {
        None => reason_is(r, "There is no pioneer expedition to resolve."@) && f2 == f
            && r.expedition is None,
        Some(e) => {
            &&& same_opt(r.expedition, f2.expedition)
            &&& if !selector_matches(req.expedition_id, e.expedition_id@) {
                reason_is(r, stale_text()) && f2 == f
            } else if e.status != ExpeditionStatus::Launched {
                reason_is(r, "Launch a prepared expedition before resolving it."@) && f2 == f
            } else if !member_named(e.members@, actor_id@) {
                reason_is(r, "Join the pioneer party before resolving it."@) && f2 == f
            } else if supplied(e, requirements) {
                &&& accepted_with(r, Some(ExpeditionNote::OutpostFounded))
                &&& f2.outpost == Some(e.outpost_position)
                &&& views(f2.credentials@) == credited(f.credentials@, e)
                &&& f2.expedition is Some
                &&& same_party(e, f2.expedition->0)
                &&& f2.expedition->0.status == ExpeditionStatus::Succeeded
                &&& f2.expedition->0.outcome is Some
                &&& f2.expedition->0.outcome->0@ == success_text()
            } else {
                &&& accepted_with(r, Some(ExpeditionNote::Retreated))
                &&& f2.outpost == f.outpost && f2.credentials == f.credentials
                &&& f2.expedition is Some
                &&& same_party(e, f2.expedition->0)
                &&& f2.expedition->0.status == ExpeditionStatus::Retreated
                &&& f2.expedition->0.outcome is Some
                &&& f2.expedition->0.outcome->0@ == retreat_text()
            }
        },
    }
}

/// The outcome of any expedition command.
pub open spec fn expedition_post(
    f: Frontier,
    f2: Frontier,
    actor_id: String,
    actor_name: String,
    req: ExpeditionRequest,
    requirements: ExpeditionRequirements,
    r: ExpeditionResponse,
) -> bool {
    match req.action {
        ExpeditionAction::Announce => announce_post(f, f2, actor_id, actor_name, req, r),
        ExpeditionAction::Join => join_post(f, f2, actor_id, actor_name, req, r),
        ExpeditionAction::Supply => supply_post(f, f2, actor_id, req, r),
        ExpeditionAction::Launch => launch_post(f, f2, actor_id, req, r),
        ExpeditionAction::Resolve => resolve_post(f, f2, actor_id, req, requirements, r),
    }
}

// ---------------------------------------------------------------- helpers

/// Whether an optional selector names the expedition `id`.
pub fn expedition_selector_matches(requested: &Option<String>, id: &String) -> (r: bool)
    ensures
        r == selector_matches(*requested, id@),
{
    match requested {
        None => true,
        Some(requested) => *requested == *id,
    }
}

/// Adds a requested amount to a supply total, both held at the supply cap.
pub fn add_expedition_supply(total: &mut u32, requested: u32)
    ensures
        *final(total) == capped_supply(*old(total), requested),
{
    let add = if requested < MAX_EXPEDITION_SUPPLY {
        requested
    } else {
        MAX_EXPEDITION_SUPPLY
    };
    let sum = total.saturating_add(add);
    *total = if sum < MAX_EXPEDITION_SUPPLY {
        sum
    } else {
        MAX_EXPEDITION_SUPPLY
    };
}

/// Whether `account` is named in the party.
pub fn is_member(members: &Vec<ExpeditionMember>, account: &String) -> (r: bool)
    ensures
        r == member_named(members@, account@),
{
    let n = members.len();
    for i in 0..n
        invariant
            n == members@.len(),
            forall|k: int| 0 <= k < i ==> members@[k].account_id@ != account@,
    {
        if members[i].account_id == *account {
            return true;
        }
    }
    false
}

fn has_role(members: &Vec<ExpeditionMember>, role: ExpeditionRole) -> (r: bool)
    ensures
        r == has_role_spec(members@, role),
{
    let n = members.len();
    for i in 0..n
        invariant
            n == members@.len(),
            forall|k: int| 0 <= k < i ==> members@[k].role != role,
    {
        if members[i].role == role {
            return true;
        }
    }
    false
}

/// Whether the party holds a scout, a farmer and a builder.
pub fn has_roles(members: &Vec<ExpeditionMember>) -> (r: bool)
    ensures
        r == has_roles_spec(members@),
{
    has_role(members, ExpeditionRole::Scout) && has_role(members, ExpeditionRole::Farmer)
        && has_role(members, ExpeditionRole::Builder)
}

/// Credits every member of `members` once, in order.
pub fn credit_members(credentials: &mut Vec<String>, members: &Vec<ExpeditionMember>)
    ensures
        views(final(credentials)@) == remember_all_spec(
            views(old(credentials)@),
            member_accounts(members@),
        ),
{
    let n = members.len();
    let ghost start = views(credentials@);
    for i in 0..n
        invariant
            n == members@.len(),
            views(credentials@) == remember_all_spec(
                start,
                member_accounts(members@).take(i as int),
            ),
    {
        let ghost prefix = member_accounts(members@).take(i as int);
        remember(credentials, members[i].account_id.clone());
        assert(member_accounts(members@).take(i + 1).drop_last() =~= prefix);
        assert(member_accounts(members@).take(i + 1).last() == members@[i as int].account_id@);
    }
    assert(member_accounts(members@).take(n as int) =~= member_accounts(members@));
}

/// A copy of a member.
pub fn copy_member(m: &ExpeditionMember) -> (r: ExpeditionMember)
    ensures
        r == *m,
{
    ExpeditionMember {
        account_id: m.account_id.clone(),
        display_name: m.display_name.clone(),
        role: m.role,
    }
}

/// A copy of a member list.
pub fn copy_members(v: &Vec<ExpeditionMember>) -> (r: Vec<ExpeditionMember>)
    ensures
        r@ == v@,
{
    let mut r: Vec<ExpeditionMember> = Vec::new();
    let n = v.len();
    for i in 0..n
        invariant
            n == v@.len(),
            r@ == v@.take(i as int),
    {
        r.push(copy_member(&v[i]));
        assert(r@ =~= v@.take(i + 1));
    }
    assert(v@.take(n as int) =~= v@);
    r
}

/// A copy of an expedition.
pub fn copy_expedition(e: &Expedition) -> (r: Expedition)
    ensures
        same_expedition(r, *e),
{
    Expedition {
        expedition_id: e.expedition_id.clone(),
        outpost_name: e.outpost_name.clone(),
        leader_account_id: e.leader_account_id.clone(),
        members: copy_members(&e.members),
        food: e.food,
        tools: e.tools,
        materials: e.materials,
        safety: e.safety,
        status: e.status,
        outcome: match &e.outcome {
            Some(o) => Some(o.clone()),
            None => None,
        },
        outpost_position: e.outpost_position,
    }
}

fn rejected(text: &str, expedition: Option<Expedition>) -> (r: ExpeditionResponse)
    ensures
        reason_is(r, text@),
        r.expedition == expedition,
{
    ExpeditionResponse {
        accepted: false,
        expedition,
        reason: Some(text.to_owned()),
        note: None,
    }
}

/// Puts `e` back on the registry and rejects the command with `text`.
fn refuse(frontier: &mut Frontier, e: Expedition, text: &str) -> (r: ExpeditionResponse)
    requires
        old(frontier).expedition is None,
    ensures
        final(frontier).expedition == Some(e),
        final(frontier).credentials == old(frontier).credentials,
        final(frontier).outpost == old(frontier).outpost,
        reason_is(r, text@),
        same_opt(r.expedition, Some(e)),
{
    let snapshot = copy_expedition(&e);
    frontier.expedition = Some(e);
    rejected(text, Some(snapshot))
}

/// Puts `e` back on the registry and accepts the command.
fn grant(frontier: &mut Frontier, e: Expedition, note: Option<ExpeditionNote>) -> (r:
    ExpeditionResponse)
    ensures
        final(frontier).expedition == Some(e),
        final(frontier).credentials == old(frontier).credentials,
        final(frontier).outpost == old(frontier).outpost,
        accepted_with(r, note),
        same_opt(r.expedition, Some(e)),
{
    let snapshot = copy_expedition(&e);
    frontier.expedition = Some(e);
    ExpeditionResponse { accepted: true, expedition: Some(snapshot), reason: None, note }
}

/// The registry's expedition, as an independent copy.
fn current_copy(frontier: &Frontier) -> (r: Option<Expedition>)
    ensures
        same_opt(r, frontier.expedition),
{
    match &frontier.expedition {
        Some(e) => Some(copy_expedition(e)),
        None => None,
    }
}

/// Credits the party of an expedition that succeeded before a newer one
/// replaced it.
pub fn backfill_expedition_credentials(frontier: &mut Frontier)
    ensures
        final(frontier).expedition == old(frontier).expedition,
        final(frontier).outpost == old(frontier).outpost,
        views(final(frontier).credentials@) == (match old(frontier).expedition {
            Some(e) => if e.status == ExpeditionStatus::Succeeded {
                credited(old(frontier).credentials@, e)
            } else {
                views(old(frontier).credentials@)
            },
            None => views(old(frontier).credentials@),
        }),
{
    let current = frontier.expedition.take();
    match current {
        Some(expedition) => {
            if expedition.status == ExpeditionStatus::Succeeded {
                credit_members(&mut frontier.credentials, &expedition.members);
            }
            frontier.expedition = Some(expedition);
        },
        None => {},
    }
}

// ---------------------------------------------------------------- actions

fn announce(
    frontier: &mut Frontier,
    actor_id: &String,
    actor_name: &String,
    request: &ExpeditionRequest,
) -> (r: ExpeditionResponse)
    ensures
        announce_post(*old(frontier), *final(frontier), *actor_id, *actor_name, *request, r),
{
    let pioneer = String::from_str("pioneer-1");
    if !expedition_selector_matches(&request.expedition_id, &pioneer) {
        return rejected("That expedition is no longer current.", current_copy(frontier));
    }
    let busy = match &frontier.expedition {
        Some(e) => e.status == ExpeditionStatus::Planning || e.status == ExpeditionStatus::Launched,
        None => false,
    };
    if busy {
        return rejected("A pioneer expedition is already on the registry.", current_copy(frontier));
    }
    backfill_expedition_credentials(frontier);
    let role = match request.role {
        Some(role) => role,
        None => ExpeditionRole::Scout,
    };
    let outpost_name = match &request.outpost_name {
        Some(name) => name.clone(),
        None => String::from_str("Lantern Rest"),
    };
    let mut members: Vec<ExpeditionMember> = Vec::new();
    members.push(
        ExpeditionMember { account_id: actor_id.clone(), display_name: actor_name.clone(), role },
    );
    let expedition = Expedition {
        expedition_id: pioneer,
        outpost_name,
        leader_account_id: actor_id.clone(),
        members,
        food: 0,
        tools: 0,
        materials: 0,
        safety: 0,
        status: ExpeditionStatus::Planning,
        outcome: None,
        outpost_position: Position { x: 14, y: 8 },
    };
    assert(expedition.members@ =~= seq![
        ExpeditionMember { account_id: *actor_id, display_name: *actor_name, role },
    ]);
    frontier.expedition = None;
    grant(frontier, expedition, Some(ExpeditionNote::Announced))
}

fn join(
    frontier: &mut Frontier,
    actor_id: &String,
    actor_name: &String,
    request: &ExpeditionRequest,
) -> (r: ExpeditionResponse)
    ensures
        join_post(*old(frontier), *final(frontier), *actor_id, *actor_name, *request, r),
{
    let current = frontier.expedition.take();
    let Some(mut expedition) = current else {
        return rejected("Announce the pioneer expedition at the registry first.", None);
    };
    let Some(role) = request.role else {
        return refuse(frontier, expedition, "Choose a complementary expedition role.");
    };
    if !expedition_selector_matches(&request.expedition_id, &expedition.expedition_id) {
        return refuse(frontier, expedition, "That expedition is no longer current.");
    }
    if expedition.status != ExpeditionStatus::Planning {
        return refuse(frontier, expedition, "The pioneer party is no longer gathering.");
    }
    if is_member(&expedition.members, actor_id) {
        return refuse(frontier, expedition, "You are already named on this expedition.");
    }
    if expedition.members.len() >= MAX_EXPEDITION_MEMBERS {
        return refuse(
            frontier,
            expedition,
            "The pioneer party has reached its 20-member planning limit.",
        );
    }
    expedition.members.push(
        ExpeditionMember { account_id: actor_id.clone(), display_name: actor_name.clone(), role },
    );
    grant(frontier, expedition, None)
}

fn supply(frontier: &mut Frontier, actor_id: &String, request: &ExpeditionRequest) -> (r:
    ExpeditionResponse)
    ensures
        supply_post(*old(frontier), *final(frontier), *actor_id, *request, r),
{
    let current = frontier.expedition.take();
    let Some(mut expedition) = current else {
        return rejected("There is no pioneer expedition to supply.", None);
    };
    if !expedition_selector_matches(&request.expedition_id, &expedition.expedition_id) {
        return refuse(frontier, expedition, "That expedition is no longer current.");
    }
    if expedition.status != ExpeditionStatus::Planning {
        return refuse(frontier, expedition, "Only a gathering expedition can receive supplies.");
    }
    if !is_member(&expedition.members, actor_id) {
        return refuse(frontier, expedition, "Join the group before adding supplies.");
    }
    add_expedition_supply(&mut expedition.food, request.food);
    add_expedition_supply(&mut expedition.tools, request.tools);
    add_expedition_supply(&mut expedition.materials, request.materials);
    add_expedition_supply(&mut expedition.safety, request.safety);
    grant(frontier, expedition, None)
}

fn launch(frontier: &mut Frontier, actor_id: &String, request: &ExpeditionRequest) -> (r:
    ExpeditionResponse)
    ensures
        launch_post(*old(frontier), *final(frontier), *actor_id, *request, r),
{
    let current = frontier.expedition.take();
    let Some(mut expedition) = current else {
        return rejected("There is no pioneer expedition to launch.", None);
    };
    if !expedition_selector_matches(&request.expedition_id, &expedition.expedition_id) {
        return refuse(frontier, expedition, "That expedition is no longer current.");
    }
    if expedition.status != ExpeditionStatus::Planning {
        return refuse(frontier, expedition, "Only a gathering expedition can be launched.");
    }
    if !is_member(&expedition.members, actor_id) {
        return refuse(frontier, expedition, "Join the pioneer party before launching it.");
    }
    if expedition.members.len() < 3 || !has_roles(&expedition.members) {
        return refuse(
            frontier,
            expedition,
            "The party still needs scout, farmer, and builder roles.",
        );
    }
    expedition.status = ExpeditionStatus::Launched;
    grant(frontier, expedition, Some(ExpeditionNote::Launched))
}

fn resolve(
    frontier: &mut Frontier,
    actor_id: &String,
    request: &ExpeditionRequest,
    requirements: &ExpeditionRequirements,
) -> (r: ExpeditionResponse)
    ensures
        resolve_post(*old(frontier), *final(frontier), *actor_id, *request, *requirements, r),
{
    let current = frontier.expedition.take();
    let Some(mut expedition) = current else {
        return rejected("There is no pioneer expedition to resolve.", None);
    };
    if !expedition_selector_matches(&request.expedition_id, &expedition.expedition_id) {
        return refuse(frontier, expedition, "That expedition is no longer current.");
    }
    if expedition.status != ExpeditionStatus::Launched {
        return refuse(frontier, expedition, "Launch a prepared expedition before resolving it.");
    }
    if !is_member(&expedition.members, actor_id) {
        return refuse(frontier, expedition, "Join the pioneer party before resolving it.");
    }
    let ready = expedition.food >= requirements.food && expedition.tools >= requirements.tools
        && expedition.materials >= requirements.materials && expedition.safety
        >= requirements.safety;
    if ready {
        expedition.status = ExpeditionStatus::Succeeded;
        expedition.outcome = Some(
            String::from_str(
                "Lantern Rest is founded; the party retreats only after the outpost is safe.",
            ),
        );
        frontier.outpost = Some(expedition.outpost_position);
        credit_members(&mut frontier.credentials, &expedition.members);
        grant(frontier, expedition, Some(ExpeditionNote::OutpostFounded))
    } else {
        expedition.status = ExpeditionStatus::Retreated;
        expedition.outcome = Some(
            String::from_str(
                "The pioneer party retreats before founding the outpost; every character returns safely.",
            ),
        );
        grant(frontier, expedition, Some(ExpeditionNote::Retreated))
    }
}

/// Applies one expedition command of `actor_id` (named `actor_name`) to the
/// frontier registry.
pub fn expedition_action(
    frontier: &mut Frontier,
    actor_id: &String,
    actor_name: &String,
    request: &ExpeditionRequest,
    requirements: &ExpeditionRequirements,
) -> (r: ExpeditionResponse)
    ensures
        expedition_post(
            *old(frontier),
            *final(frontier),
            *actor_id,
            *actor_name,
            *request,
            *requirements,
            r,
        ),
{
    match request.action {
        ExpeditionAction::Announce => announce(frontier, actor_id, actor_name, request),
        ExpeditionAction::Join => join(frontier, actor_id, actor_name, request),
        ExpeditionAction::Supply => supply(frontier, actor_id, request),
        ExpeditionAction::Launch => launch(frontier, actor_id, request),
        ExpeditionAction::Resolve => resolve(frontier, actor_id, request, requirements),
    }
}

// ---------------------------------------------------------------- input and restore

/// Validates an optional outpost name: absent or blank names fall back to
/// the default, other names are trimmed and must be short and printable.
pub fn validate_outpost_name(name: Option<&str>) -> (r: Result<Option<String>, RepositoryError>)
    ensures
        name is None ==> r == Ok::<Option<String>, RepositoryError>(None),
        name matches Some(n) ==> {
            let t = trim_seq(n@);
            &&& t.len() == 0 ==> r == Ok::<Option<String>, RepositoryError>(None)
            &&& t.len() > 0 && (t.len() > MAX_OUTPOST_NAME_CHARS || has_control(t)) ==> (r matches Err(
                e,
            ) && e.spec_is(
                400,
                "invalid_outpost_name"@,
                "The outpost name must be at most 80 characters and contain no control characters."@,
            ))
            &&& t.len() > 0 && t.len() <= MAX_OUTPOST_NAME_CHARS && !has_control(t) ==> (r matches Ok(
                o,
            ) && o matches Some(v) && v@ == t)
        },
{
    let Some(name) = name else {
        return Ok(None);
    };
    let chars = chars_of(name);
    let (start, end) = trim_bounds(&chars);
    if start == end {
        return Ok(None);
    }
    let trimmed = name.substring_char(start, end);
    let trimmed_chars = chars_of(trimmed);
    if end - start > MAX_OUTPOST_NAME_CHARS || any_control(&trimmed_chars) {
        return Err(
            RepositoryError::new(
                400,
                "invalid_outpost_name",
                "The outpost name must be at most 80 characters and contain no control characters.",
            ),
        );
    }
    Ok(Some(trimmed.to_owned()))
}

/// A present outpost name that is refused: non-blank after trimming, and
/// too long or holding a control character.
pub open spec fn outpost_name_refused(n: Option<Seq<char>>) -> bool {
    n matches Some(v) && trim_seq(v).len() > 0 && (trim_seq(v).len() > MAX_OUTPOST_NAME_CHARS || has_control(
        trim_seq(v),
    ))
}

/// `o` is the accepted form of the outpost name `n`: trimmed, and absent
/// when blank.
pub open spec fn outpost_name_kept(n: Option<Seq<char>>, o: Option<String>) -> bool {
    match n {
        None => o is None,
        Some(v) => if trim_seq(v).len() == 0 {
            o is None
        } else {
            o matches Some(t) && t@ == trim_seq(v)
        },
    }
}

/// Checks an expedition command's inputs: the expedition selector must be a
/// bounded identifier free of control characters, and an announcement's
/// outpost name must pass [`validate_outpost_name`]; other commands carry no
/// name.
pub fn validate_expedition_request(
    action: ExpeditionAction,
    expedition_id: Option<&str>,
    role: Option<ExpeditionRole>,
    food: u32,
    tools: u32,
    materials: u32,
    safety: u32,
    outpost_name: Option<&str>,
) -> (r: Result<ExpeditionRequest, RepositoryError>)
    ensures
        crate::errors::selector_refused(crate::errors::opt_text(expedition_id)) ==> (r matches Err(e)
            && e.spec_is(
            400,
            "invalid_expedition_id"@,
            "An expedition selector must be bounded and contain no control characters."@,
        )),
        !crate::errors::selector_refused(crate::errors::opt_text(expedition_id)) && action
            == ExpeditionAction::Announce && outpost_name_refused(crate::errors::opt_text(outpost_name))
            ==> (r matches Err(e) && e.spec_is(
            400,
            "invalid_outpost_name"@,
            "The outpost name must be at most 80 characters and contain no control characters."@,
        )),
        !crate::errors::selector_refused(crate::errors::opt_text(expedition_id)) && !(action
            == ExpeditionAction::Announce && outpost_name_refused(crate::errors::opt_text(outpost_name)))
            ==> (r matches Ok(q) && q.action == action && crate::errors::selector_kept(
            crate::errors::opt_text(expedition_id),
            q.expedition_id,
        ) && q.role == role && q.food == food && q.tools == tools && q.materials == materials
            && q.safety == safety && (if action == ExpeditionAction::Announce {
            outpost_name_kept(crate::errors::opt_text(outpost_name), q.outpost_name)
        } else {
            q.outpost_name is None
        })),
{
    let expedition_id = match crate::errors::validate_optional_identifier(
        expedition_id,
        "invalid_expedition_id",
        "An expedition selector must be bounded and contain no control characters.",
    ) {
        Ok(v) => v,
        Err(e) => return Err(e),
    };
    let outpost_name = if action == ExpeditionAction::Announce {
        match validate_outpost_name(outpost_name) {
            Ok(v) => v,
            Err(e) => return Err(e),
        }
    } else {
        None
    };
    Ok(ExpeditionRequest { action, expedition_id, role, food, tools, materials, safety, outpost_name })
}

/// The chronicle entry an accepted expedition command writes.
pub fn expedition_entry(note: ExpeditionNote) -> (t: crate::chronicle::EntryText)
    ensures
        match note {
            ExpeditionNote::Announced => crate::chronicle::reads(
                t,
                "expedition announced"@,
                "A pioneer road is proposed"@,
                "A prepared group may now join the first outpost attempt."@,
            ),
            ExpeditionNote::Launched => crate::chronicle::reads(
                t,
                "expedition launched"@,
                "A prepared group leaves for the frontier"@,
                "Three complementary roles and the required supplies are on the road."@,
            ),
            ExpeditionNote::OutpostFounded => crate::chronicle::reads(
                t,
                "outpost founded"@,
                "Lantern Rest joins the settlement chronicle"@,
                "The pioneer party establishes a small outpost and all characters return safely."@,
            ),
            ExpeditionNote::Retreated => crate::chronicle::reads(
                t,
                "expedition retreated"@,
                "The pioneer party returns before the outpost is founded"@,
                retreat_text(),
            ),
        },
{
    match note {
        ExpeditionNote::Announced => crate::chronicle::entry_text(
            "expedition announced",
            "A pioneer road is proposed",
            "A prepared group may now join the first outpost attempt.",
        ),
        ExpeditionNote::Launched => crate::chronicle::entry_text(
            "expedition launched",
            "A prepared group leaves for the frontier",
            "Three complementary roles and the required supplies are on the road.",
        ),
        ExpeditionNote::OutpostFounded => crate::chronicle::entry_text(
            "outpost founded",
            "Lantern Rest joins the settlement chronicle",
            "The pioneer party establishes a small outpost and all characters return safely.",
        ),
        ExpeditionNote::Retreated => {
            proof {
                reveal_strlit("The pioneer party retreats before founding the outpost; every character returns safely.");
            }
            crate::chronicle::entry_text(
                "expedition retreated",
                "The pioneer party returns before the outpost is founded",
                "The pioneer party retreats before founding the outpost; every character returns safely.",
            )
        },
    }
}

/// The registry is within its bounds: supplies under the cap, the party
/// under its member limit, and no account credited twice.
pub open spec fn frontier_bounded(f: Frontier) -> bool {
    &&& crate::ledger::distinct(views(f.credentials@))
    &&& f.expedition matches Some(e) ==> {
        &&& e.food <= MAX_EXPEDITION_SUPPLY && e.tools <= MAX_EXPEDITION_SUPPLY
        &&& e.materials <= MAX_EXPEDITION_SUPPLY && e.safety <= MAX_EXPEDITION_SUPPLY
        &&& e.members@.len() <= MAX_EXPEDITION_MEMBERS
    }
}

/// The leader of a non-empty party is one of its members.
pub open spec fn leader_in_party(e: Expedition) -> bool {
    e.members@.len() > 0 ==> member_named(e.members@, e.leader_account_id@)
}

/// Cuts a restored party to the member limit and, when the leader fell
/// outside the kept members, hands leadership to the first member.
pub fn trim_expedition_members(frontier: &mut Frontier)
    ensures
        final(frontier).credentials == old(frontier).credentials,
        final(frontier).outpost == old(frontier).outpost,
        old(frontier).expedition is None ==> final(frontier).expedition is None,
        old(frontier).expedition matches Some(e) ==> {
            &&& final(frontier).expedition is Some
            &&& {
                let e2 = final(frontier).expedition->0;
                let kept = if e.members@.len() > MAX_EXPEDITION_MEMBERS {
                    e.members@.take(MAX_EXPEDITION_MEMBERS as int)
                } else {
                    e.members@
                };
                &&& e2.members@ == kept
                &&& if member_named(kept, e.leader_account_id@) || kept.len() == 0 {
                    e2.leader_account_id == e.leader_account_id
                } else {
                    e2.leader_account_id == kept[0].account_id
                }
                &&& e2 == Expedition { members: e2.members, leader_account_id: e2.leader_account_id, ..e }
                &&& leader_in_party(e2)
            }
        },
{
    let current = frontier.expedition.take();
    let Some(mut expedition) = current else {
        return;
    };
    expedition.members.truncate(MAX_EXPEDITION_MEMBERS);
    if !is_member(&expedition.members, &expedition.leader_account_id) && expedition.members.len()
        > 0 {
        expedition.leader_account_id = expedition.members[0].account_id.clone();
        assert(member_named(expedition.members@, expedition.leader_account_id@));
    }
    frontier.expedition = Some(expedition);
}

/// Every expedition command keeps the registry within its bounds.
pub proof fn lemma_expedition_keeps_bounds(
    f: Frontier,
    f2: Frontier,
    actor_id: String,
    actor_name: String,
    req: ExpeditionRequest,
    requirements: ExpeditionRequirements,
    r: ExpeditionResponse,
)
    requires
        frontier_bounded(f),
        expedition_post(f, f2, actor_id, actor_name, req, requirements, r),
    ensures
        frontier_bounded(f2),
{
    match f.expedition {
        Some(e) => {
            crate::ledger::lemma_remember_all(views(f.credentials@), member_accounts(e.members@));
        },
        None => {},
    }
}

/// A command that names another expedition is refused and changes nothing.
pub proof fn lemma_stale_selector_changes_nothing(
    f: Frontier,
    f2: Frontier,
    actor_id: String,
    actor_name: String,
    req: ExpeditionRequest,
    requirements: ExpeditionRequirements,
    r: ExpeditionResponse,
)
    requires
        expedition_post(f, f2, actor_id, actor_name, req, requirements, r),
        f.expedition matches Some(e) && !selector_matches(req.expedition_id, e.expedition_id@),
        e_is_pioneer(f),
        req.action == ExpeditionAction::Join ==> req.role is Some,
    ensures
        f2 == f,
        !r.accepted,
        r.reason matches Some(s) && s@ == stale_text(),
{
}

/// The registry's expedition carries the pioneer identifier.
pub open spec fn e_is_pioneer(f: Frontier) -> bool {
    f.expedition matches Some(e) ==> e.expedition_id@ == "pioneer-1"@
}

/// Only a member of the party can launch or resolve it.
pub proof fn lemma_only_members_move_the_party(
    f: Frontier,
    f2: Frontier,
    actor_id: String,
    actor_name: String,
    req: ExpeditionRequest,
    requirements: ExpeditionRequirements,
    r: ExpeditionResponse,
)
    requires
        expedition_post(f, f2, actor_id, actor_name, req, requirements, r),
        req.action == ExpeditionAction::Launch || req.action == ExpeditionAction::Resolve,
        r.accepted,
    ensures
        f.expedition matches Some(e) && member_named(e.members@, actor_id@),
{
}

/// An outpost is founded only by resolving a fully supplied party.
pub proof fn lemma_outpost_needs_supplies(
    f: Frontier,
    f2: Frontier,
    actor_id: String,
    actor_name: String,
    req: ExpeditionRequest,
    requirements: ExpeditionRequirements,
    r: ExpeditionResponse,
)
    requires
        expedition_post(f, f2, actor_id, actor_name, req, requirements, r),
        f2.outpost != f.outpost,
    ensures
        req.action == ExpeditionAction::Resolve,
        f.expedition matches Some(e) && supplied(e, requirements) && f2.outpost == Some(
            e.outpost_position,
        ),
{
}

/// The outpost is founded only when the party carries at least the required
/// food, tools, materials and safety; it is then placed where the party set out.
pub proof fn lemma_founding_meets_every_requirement(
    f: Frontier,
    f2: Frontier,
    actor_id: String,
    actor_name: String,
    req: ExpeditionRequest,
    requirements: ExpeditionRequirements,
    r: ExpeditionResponse,
)
    requires
        expedition_post(f, f2, actor_id, actor_name, req, requirements, r),
        req.action == ExpeditionAction::Resolve,
        r.accepted,
        r.note == Some(ExpeditionNote::OutpostFounded),
    ensures
        f.expedition is Some,
        f.expedition->0.food >= requirements.food,
        f.expedition->0.tools >= requirements.tools,
        f.expedition->0.materials >= requirements.materials,
        f.expedition->0.safety >= requirements.safety,
        f2.outpost == Some(f.expedition->0.outpost_position),
        f2.expedition is Some && f2.expedition->0.status == ExpeditionStatus::Succeeded,
{
}

/// A launched party short of any one requirement retreats when it resolves:
/// no outpost is founded and nobody is credited.
pub proof fn lemma_short_party_retreats(
    f: Frontier,
    f2: Frontier,
    actor_id: String,
    actor_name: String,
    req: ExpeditionRequest,
    requirements: ExpeditionRequirements,
    r: ExpeditionResponse,
)
    requires
        expedition_post(f, f2, actor_id, actor_name, req, requirements, r),
        req.action == ExpeditionAction::Resolve,
        r.accepted,
        f.expedition matches Some(e) && (e.food < requirements.food || e.tools
            < requirements.tools || e.materials < requirements.materials || e.safety
            < requirements.safety),
    ensures
        r.note == Some(ExpeditionNote::Retreated),
        f2.outpost == f.outpost,
        f2.credentials == f.credentials,
        f2.expedition is Some && f2.expedition->0.status == ExpeditionStatus::Retreated,
{
}

} // verus!
