//! The land registry: players request leases on free plots, the holder or
//! the Settlement Steward approves them, holders renew, transfer, bequeath
//! or abandon them, and expired or abandoned land returns to the registry
//! after a grace period.
use vstd::prelude::*;
use vstd::string::*;
use crate::errors::{RepositoryError, opt_text, selector_kept, selector_refused, validate_optional_identifier};
use crate::frontier::Position;
use crate::retention::{Settles, first_settled, make_room, trimmed_settled};
use crate::text::{decimal, numbered};

verus! {

/// The most lease records the registry keeps.
pub const MAX_CLAIMS: usize = 128;

/// Seconds in a day.
pub const SECONDS_PER_DAY: u64 = 86400;

#[derive(Debug, Clone, Copy, PartialEq, Eq, Structural)]
pub enum ClaimLifecycleStatus {
    Requested,
    Active,
    Renewed,
    Transferred,
    Inherited,
    Expired,
    Abandoned,
    Reclaimed,
}

#[derive(Debug, Clone, Copy, PartialEq, Eq, Structural)]
pub enum ClaimLifecycleAction {
    Inspect,
    Request,
    Approve,
    Renew,
    Transfer,
    Inherit,
    Abandon,
    Reclaim,
}

/// One lease in the registry.
#[derive(Debug, Clone)]
pub struct ClaimRecord {
    pub claim_id: String,
    pub plot_id: String,
    pub owner_account_id: Option<String>,
    pub owner_name: Option<String>,
    pub position: Position,
    pub lease_days: u32,
    pub started_tick: u64,
    pub expires_tick: u64,
    pub started_at_unix_seconds: u64,
    pub expires_at_unix_seconds: u64,
    pub last_active_tick: u64,
    pub status: ClaimLifecycleStatus,
    pub approved_by: Option<String>,
    pub building_access: bool,
    pub protected_goods_policy: String,
    pub inspection_note: String,
}

impl Settles for ClaimRecord {
    open spec fn is_settled(&self) -> bool {
        self.status == ClaimLifecycleStatus::Reclaimed
    }

    fn settled(&self) -> (r: bool) {
        self.status == ClaimLifecycleStatus::Reclaimed
    }
}

/// The lease records and the plots free to request.
#[derive(Debug, Clone)]
pub struct LandRegistry {
    pub claims: Vec<ClaimRecord>,
    pub available_plots: Vec<Position>,
    pub next_claim_id: u64,
}

/// A validated land-registry command.
#[derive(Debug, Clone)]
pub struct ClaimLifecycleRequest {
    pub action: ClaimLifecycleAction,
    pub claim_id: Option<String>,
    pub target_account_id: Option<String>,
}

/// What the registry needs to know about the world around a command.
#[derive(Debug, Clone)]
pub struct ClaimContext {
    pub actor_id: String,
    pub actor_name: String,
    /// The actor holds the Settlement Steward office.
    pub actor_is_steward: bool,
    /// The display name of the receiving account, when it is recognised.
    pub target_name: Option<String>,
    pub tick: u64,
    /// The current real time, in seconds since the Unix epoch.
    pub now_unix_seconds: u64,
    pub lease_duration_seconds: u64,
}

/// The chronicle entry an accepted command asks for.
#[derive(Debug, Clone, Copy, PartialEq, Eq, Structural)]
pub enum ClaimNote {
    Requested,
    Approved,
    Renewed,
    Transferred,
    Inherited,
    Abandoned,
    Reclaimed,
}

#[derive(Debug, Clone)]
pub struct ClaimLifecycleResponse {
    pub accepted: bool,
    pub claim: Option<ClaimRecord>,
    pub reason: Option<String>,
    pub note: Option<ClaimNote>,
}

// ---------------------------------------------------------------- input

/// Checks the selectors of a land-registry command: a claim identifier and a
/// receiving account, each optional, bounded and free of control characters.
pub fn validate_claim_request(
    action: ClaimLifecycleAction,
    claim_id: Option<&str>,
    target_account_id: Option<&str>,
) -> (r: Result<ClaimLifecycleRequest, RepositoryError>)
    ensures
        selector_refused(opt_text(claim_id)) ==> (r matches Err(e) && e.spec_is(
            400,
            "invalid_claim_id"@,
            "A claim selector must be bounded and contain no control characters."@,
        )),
        !selector_refused(opt_text(claim_id)) && selector_refused(opt_text(target_account_id))
            ==> (r matches Err(e) && e.spec_is(
            400,
            "invalid_target_account_id"@,
            "A target account selector must be bounded and contain no control characters."@,
        )),
        !selector_refused(opt_text(claim_id)) && !selector_refused(opt_text(target_account_id))
            ==> (r matches Ok(q) && q.action == action && selector_kept(
            opt_text(claim_id),
            q.claim_id,
        ) && selector_kept(opt_text(target_account_id), q.target_account_id)),
{
    let claim_id = match validate_optional_identifier(
        claim_id,
        "invalid_claim_id",
        "A claim selector must be bounded and contain no control characters.",
    ) {
        Ok(v) => v,
        Err(e) => return Err(e),
    };
    let target_account_id = match validate_optional_identifier(
        target_account_id,
        "invalid_target_account_id",
        "A target account selector must be bounded and contain no control characters.",
    ) {
        Ok(v) => v,
        Err(e) => return Err(e),
    };
    Ok(ClaimLifecycleRequest { action, claim_id, target_account_id })
}

// ---------------------------------------------------------------- specs

/// A lease in good standing.
pub open spec fn active_like(s: ClaimLifecycleStatus) -> bool {
    s == ClaimLifecycleStatus::Active || s == ClaimLifecycleStatus::Renewed || s
        == ClaimLifecycleStatus::Transferred || s == ClaimLifecycleStatus::Inherited
}

/// `actor` is the recognised holder of `c`.
pub open spec fn held_by(c: ClaimRecord, actor: Seq<char>) -> bool {
    c.owner_account_id matches Some(o) && o@ == actor
}

/// The lease length in whole days, at least one.
pub open spec fn lease_days_spec(seconds: u64) -> u32 {
    let days = seconds / SECONDS_PER_DAY;
    (if days < 1 { 1 } else { days }) as u32
}

/// The lease duration in seconds, at least one.
pub open spec fn duration_spec(seconds: u64) -> u64 {
    if seconds < 1 { 1 } else { seconds }
}

pub open spec fn sat_add(a: u64, b: u64) -> u64 {
    if a + b > u64::MAX { u64::MAX } else { (a + b) as u64 }
}

/// The index of the first record with identifier `id`, or -1.
pub open spec fn index_of_id(s: Seq<ClaimRecord>, id: Seq<char>) -> int
    decreases s.len(),
{
    if s.len() == 0 {
        -1
    } else if s[0].claim_id@ == id {
        0
    } else {
        let r = index_of_id(s.drop_first(), id);
        if r < 0 { -1 } else { r + 1 }
    }
}

/// The index of the first record held by `actor`, or -1.
pub open spec fn index_held_by(s: Seq<ClaimRecord>, actor: Seq<char>) -> int
    decreases s.len(),
{
    if s.len() == 0 {
        -1
    } else if held_by(s[0], actor) {
        0
    } else {
        let r = index_held_by(s.drop_first(), actor);
        if r < 0 { -1 } else { r + 1 }
    }
}

/// The record a command selects: the named one, or the actor's first lease.
pub open spec fn selected(s: Seq<ClaimRecord>, selector: Option<String>, actor: Seq<char>) -> int {
    match selector {
        Some(id) => index_of_id(s, id@),
        None => index_held_by(s, actor),
    }
}

/// The ledger with room for one more record, when it can be made.
pub open spec fn with_room(s: Seq<ClaimRecord>) -> Option<Seq<ClaimRecord>> {
    let t = trimmed_settled(s, MAX_CLAIMS as nat);
    if t.len() < MAX_CLAIMS {
        Some(t)
    } else if first_settled(t) < t.len() {
        Some(t.remove(first_settled(t) as int))
    } else {
        None
    }
}

pub open spec fn refused(r: ClaimLifecycleResponse, text: Seq<char>) -> bool {
    &&& !r.accepted
    &&& r.claim is None
    &&& r.note is None
    &&& r.reason matches Some(s) && s@ == text
}

pub open spec fn granted(r: ClaimLifecycleResponse, c: ClaimRecord, note: ClaimNote) -> bool {
    &&& r.accepted
    &&& r.claim == Some(c)
    &&& r.reason is None
    &&& r.note == Some(note)
}

/// The registry with record `i` replaced by `c`.
pub open spec fn updated(g: LandRegistry, g2: LandRegistry, i: int, c: ClaimRecord) -> bool {
    &&& g2.claims@ == g.claims@.update(i, c)
    &&& g2.available_plots == g.available_plots
    &&& g2.next_claim_id == g.next_claim_id
}

/// The record a request creates.
pub open spec fn requested_record(c: ClaimRecord, g: LandRegistry, ctx: ClaimContext) -> bool {
    &&& c.claim_id@ == "lease-"@ + decimal(g.next_claim_id as nat)
    &&& c.plot_id@ == "plot-"@ + decimal(g.next_claim_id as nat)
    &&& c.owner_account_id == Some(ctx.actor_id)
    &&& c.owner_name == Some(ctx.actor_name)
    &&& c.position == g.available_plots@.last()
    &&& c.lease_days == lease_days_spec(ctx.lease_duration_seconds)
    &&& c.started_tick == ctx.tick && c.expires_tick == ctx.tick
    &&& c.started_at_unix_seconds == 0 && c.expires_at_unix_seconds == 0
    &&& c.last_active_tick == ctx.tick
    &&& c.status == ClaimLifecycleStatus::Requested
    &&& c.approved_by is None
    &&& !c.building_access
    &&& c.protected_goods_policy@
        == "Stored goods and character progression remain safe outside the claim."@
    &&& c.inspection_note@ == "Awaiting a town-hall approval before building access begins."@
}

pub open spec fn request_post(
    g: LandRegistry,
    g2: LandRegistry,
    ctx: ClaimContext,
    r: ClaimLifecycleResponse,
) -> bool {
    if g.available_plots@.len() == 0 {
        refused(
            r,
            "No recognised plot is free; inspect abandoned opportunities or contribute to a public work."@,
        ) && g2 == g
    } else {
        match with_room(g.claims@) {
            None => {
                &&& refused(
                    r,
                    "The claim ledger is full; reclaim settled land before requesting another lease."@,
                )
                &&& g2.claims@ == trimmed_settled(g.claims@, MAX_CLAIMS as nat)
                &&& g2.available_plots == g.available_plots
                &&& g2.next_claim_id == g.next_claim_id
            },
            Some(room) => {
                &&& r.accepted && r.reason is None && r.note == Some(ClaimNote::Requested)
                &&& r.claim matches Some(c) && requested_record(c, g, ctx)
                    && g2.claims@ == room.push(c)
                &&& g2.available_plots@ == g.available_plots@.drop_last()
                &&& g2.next_claim_id == sat_add(g.next_claim_id, 1)
            },
        }
    }
}

pub open spec fn inspect_post(
    g: LandRegistry,
    g2: LandRegistry,
    req: ClaimLifecycleRequest,
    r: ClaimLifecycleResponse,
) -> bool {
    &&& g2 == g
    &&& r.note is None
    &&& match req.claim_id {
        None => r.accepted && r.reason is None && r.claim == (if g.claims@.len() == 0 {
            None
        } else {
            Some(g.claims@.last())
        }),
        Some(id) => {
            let i = index_of_id(g.claims@, id@);
            if i < 0 {
                refused(r, "That claim is not in the land registry."@)
            } else {
                r.accepted && r.reason is None && r.claim == Some(g.claims@[i])
            }
        },
    }
}

pub open spec fn approve_post(
    g: LandRegistry,
    g2: LandRegistry,
    ctx: ClaimContext,
    req: ClaimLifecycleRequest,
    r: ClaimLifecycleResponse,
) -> bool {
    let i = selected(g.claims@, req.claim_id, ctx.actor_id@);
    if i < 0 {
        refused(r, "Name the requested lease to approve."@) && g2 == g
    } else {
        let c = g.claims@[i];
        if !held_by(c, ctx.actor_id@) && !ctx.actor_is_steward {
            refused(r, "The lease-holder or Settlement Steward must approve the claim."@) && g2 == g
        } else if c.status != ClaimLifecycleStatus::Requested {
            refused(r, "That lease is not awaiting approval."@) && g2 == g
        } else {
            let c2 = ClaimRecord {
                status: ClaimLifecycleStatus::Active,
                approved_by: Some(ctx.actor_id),
                lease_days: lease_days_spec(ctx.lease_duration_seconds),
                started_at_unix_seconds: ctx.now_unix_seconds,
                expires_at_unix_seconds: sat_add(
                    ctx.now_unix_seconds,
                    duration_spec(ctx.lease_duration_seconds),
                ),
                expires_tick: ctx.tick,
                building_access: true,
                inspection_note: g2.claims@[i].inspection_note,
                ..c
            };
            &&& granted(r, c2, ClaimNote::Approved)
            &&& updated(g, g2, i, c2)
            &&& c2.inspection_note@
                == "Active recognised land right; renewal and transfer are recorded."@
        }
    }
}

pub open spec fn renew_post(
    g: LandRegistry,
    g2: LandRegistry,
    ctx: ClaimContext,
    req: ClaimLifecycleRequest,
    r: ClaimLifecycleResponse,
) -> bool {
    let i = selected(g.claims@, req.claim_id, ctx.actor_id@);
    if i < 0 {
        refused(r, "Name the lease to renew."@) && g2 == g
    } else {
        let c = g.claims@[i];
        if !held_by(c, ctx.actor_id@) {
            refused(r, "Only the recognised holder may renew this lease."@) && g2 == g
        } else if !(c.status == ClaimLifecycleStatus::Active || c.status
            == ClaimLifecycleStatus::Renewed) {
            refused(r, "Only an active lease can be renewed."@) && g2 == g
        } else {
            let base = if c.expires_at_unix_seconds < ctx.now_unix_seconds {
                ctx.now_unix_seconds
            } else {
                c.expires_at_unix_seconds
            };
            let c2 = ClaimRecord {
                status: ClaimLifecycleStatus::Renewed,
                last_active_tick: ctx.tick,
                lease_days: lease_days_spec(ctx.lease_duration_seconds),
                started_at_unix_seconds: if c.expires_at_unix_seconds == 0 {
                    ctx.now_unix_seconds
                } else {
                    c.started_at_unix_seconds
                },
                expires_at_unix_seconds: sat_add(base, duration_spec(ctx.lease_duration_seconds)),
                expires_tick: ctx.tick,
                ..c
            };
            granted(r, c2, ClaimNote::Renewed) && updated(g, g2, i, c2)
        }
    }
}

pub open spec fn transfer_post(
    g: LandRegistry,
    g2: LandRegistry,
    ctx: ClaimContext,
    req: ClaimLifecycleRequest,
    r: ClaimLifecycleResponse,
) -> bool {
    let i = selected(g.claims@, req.claim_id, ctx.actor_id@);
    if i < 0 {
        refused(r, "Name the lease to transfer."@) && g2 == g
    } else {
        match req.target_account_id {
            None => refused(r, "A transfer or inheritance needs the receiving account."@) && g2
                == g,
            Some(target) => match ctx.target_name {
                None => refused(
                    r,
                    "The receiving player must have a recognised settlement account."@,
                ) && g2 == g,
                Some(target_name) => {
                    let c = g.claims@[i];
                    if !held_by(c, ctx.actor_id@) {
                        refused(
                            r,
                            "Only the recognised holder may transfer or bequeath the claim."@,
                        ) && g2 == g
                    } else if !active_like(c.status) {
                        refused(r, "Only an active lease can be transferred or bequeathed."@) && g2
                            == g
                    } else {
                        let inherit = req.action == ClaimLifecycleAction::Inherit;
                        let c2 = ClaimRecord {
                            owner_account_id: Some(target),
                            owner_name: Some(target_name),
                            status: if inherit {
                                ClaimLifecycleStatus::Inherited
                            } else {
                                ClaimLifecycleStatus::Transferred
                            },
                            last_active_tick: ctx.tick,
                            ..c
                        };
                        granted(
                            r,
                            c2,
                            if inherit {
                                ClaimNote::Inherited
                            } else {
                                ClaimNote::Transferred
                            },
                        ) && updated(g, g2, i, c2)
                    }
                },
            },
        }
    }
}

pub open spec fn abandon_post(
    g: LandRegistry,
    g2: LandRegistry,
    ctx: ClaimContext,
    req: ClaimLifecycleRequest,
    r: ClaimLifecycleResponse,
) -> bool {
    let i = selected(g.claims@, req.claim_id, ctx.actor_id@);
    if i < 0 {
        refused(r, "Name the lease to abandon."@) && g2 == g
    } else {
        let c = g.claims@[i];
        if !held_by(c, ctx.actor_id@) {
            refused(r, "Only the recognised holder may abandon this lease."@) && g2 == g
        } else if !(c.status == ClaimLifecycleStatus::Requested || active_like(c.status)) {
            refused(r, "Only a requested or active lease can be abandoned."@) && g2 == g
        } else {
            let c2 = ClaimRecord {
                status: ClaimLifecycleStatus::Abandoned,
                building_access: false,
                last_active_tick: ctx.tick,
                inspection_note: g2.claims@[i].inspection_note,
                ..c
            };
            &&& granted(r, c2, ClaimNote::Abandoned)
            &&& updated(g, g2, i, c2)
            &&& c2.inspection_note@
                == "Abandoned claim; reclaim it to return the plot to the available land ledger."@
        }
    }
}

/// `plots` with `p` appended unless it is already free.
pub open spec fn freed(plots: Seq<Position>, p: Position) -> Seq<Position> {
    if plots.contains(p) {
        plots
    } else {
        plots.push(p)
    }
}

pub open spec fn reclaim_post(
    g: LandRegistry,
    g2: LandRegistry,
    ctx: ClaimContext,
    grace_ticks: u64,
    req: ClaimLifecycleRequest,
    r: ClaimLifecycleResponse,
) -> bool {
    let i = selected(g.claims@, req.claim_id, ctx.actor_id@);
    if i < 0 {
        refused(r, "Name the expired or abandoned lease to reclaim."@) && g2 == g
    } else {
        let c = g.claims@[i];
        if !(c.status == ClaimLifecycleStatus::Expired || c.status
            == ClaimLifecycleStatus::Abandoned) {
            refused(r, "Only an expired or abandoned claim can be reclaimed."@) && g2 == g
        } else if ctx.tick < c.last_active_tick || ctx.tick - c.last_active_tick < grace_ticks {
            refused(r, "The claim grace period has not yet elapsed."@) && g2 == g
        } else {
            let c2 = ClaimRecord {
                status: ClaimLifecycleStatus::Reclaimed,
                owner_account_id: None,
                owner_name: None,
                building_access: false,
                inspection_note: g2.claims@[i].inspection_note,
                ..c
            };
            &&& granted(r, c2, ClaimNote::Reclaimed)
            &&& g2.claims@ == g.claims@.update(i, c2)
            &&& g2.available_plots@ == freed(g.available_plots@, c.position)
            &&& g2.next_claim_id == g.next_claim_id
            &&& c2.inspection_note@
                == "Reclaimed plot is available to a late player or public contributor."@
        }
    }
}

/// The outcome of any land-registry command.
pub open spec fn claim_post(
    g: LandRegistry,
    g2: LandRegistry,
    ctx: ClaimContext,
    grace_ticks: u64,
    req: ClaimLifecycleRequest,
    r: ClaimLifecycleResponse,
) -> bool {
    match req.action {
        ClaimLifecycleAction::Inspect => inspect_post(g, g2, req, r),
        ClaimLifecycleAction::Request => request_post(g, g2, ctx, r),
        ClaimLifecycleAction::Approve => approve_post(g, g2, ctx, req, r),
        ClaimLifecycleAction::Renew => renew_post(g, g2, ctx, req, r),
        ClaimLifecycleAction::Transfer | ClaimLifecycleAction::Inherit => transfer_post(
            g,
            g2,
            ctx,
            req,
            r,
        ),
        ClaimLifecycleAction::Abandon => abandon_post(g, g2, ctx, req, r),
        ClaimLifecycleAction::Reclaim => reclaim_post(g, g2, ctx, grace_ticks, req, r),
    }
}

// ---------------------------------------------------------------- helpers

/// The lease length in whole days, at least one.
pub fn lease_duration_days(lease_duration_seconds: u64) -> (r: u32)
    ensures
        r == lease_days_spec(lease_duration_seconds),
{
    let days = lease_duration_seconds / SECONDS_PER_DAY;
    let days = if days < 1 {
        1
    } else {
        days
    };
    days as u32
}

fn copy_opt(s: &Option<String>) -> (r: Option<String>)
    ensures
        r == *s,
{
    match s {
        Some(s) => Some(s.clone()),
        None => None,
    }
}

/// A copy of a lease record.
pub fn copy_claim(c: &ClaimRecord) -> (r: ClaimRecord)
    ensures
        r == *c,
{
    ClaimRecord {
        claim_id: c.claim_id.clone(),
        plot_id: c.plot_id.clone(),
        owner_account_id: copy_opt(&c.owner_account_id),
        owner_name: copy_opt(&c.owner_name),
        position: c.position,
        lease_days: c.lease_days,
        started_tick: c.started_tick,
        expires_tick: c.expires_tick,
        started_at_unix_seconds: c.started_at_unix_seconds,
        expires_at_unix_seconds: c.expires_at_unix_seconds,
        last_active_tick: c.last_active_tick,
        status: c.status,
        approved_by: copy_opt(&c.approved_by),
        building_access: c.building_access,
        protected_goods_policy: c.protected_goods_policy.clone(),
        inspection_note: c.inspection_note.clone(),
    }
}

/// Whether `actor` holds `c`.
pub fn is_held_by(c: &ClaimRecord, actor: &String) -> (r: bool)
    ensures
        r == held_by(*c, actor@),
{
    match &c.owner_account_id {
        Some(owner) => *owner == *actor,
        None => false,
    }
}

/// The position of the record with identifier `id`.
pub fn claim_position(claims: &Vec<ClaimRecord>, id: &String) -> (r: Option<usize>)
    ensures
        r is None <==> index_of_id(claims@, id@) < 0,
        r matches Some(i) ==> i as int == index_of_id(claims@, id@),
{
    let n = claims.len();
    let mut i: usize = 0;
    assert(claims@.skip(0) =~= claims@);
    while i < n
        invariant
            n == claims@.len(),
            i <= n,
            index_of_id(claims@, id@) == (if index_of_id(claims@.skip(i as int), id@) < 0 {
                -1
            } else {
                index_of_id(claims@.skip(i as int), id@) + i
            }),
        decreases n - i,
    {
        if claims[i].claim_id == *id {
            return Some(i);
        }
        assert(claims@.skip(i as int).drop_first() =~= claims@.skip(i + 1));
        i = i + 1;
    }
    None
}

/// The position of the first record held by `actor`.
pub fn held_position(claims: &Vec<ClaimRecord>, actor: &String) -> (r: Option<usize>)
    ensures
        r is None <==> index_held_by(claims@, actor@) < 0,
        r matches Some(i) ==> i as int == index_held_by(claims@, actor@),
{
    let n = claims.len();
    let mut i: usize = 0;
    assert(claims@.skip(0) =~= claims@);
    while i < n
        invariant
            n == claims@.len(),
            i <= n,
            index_held_by(claims@, actor@) == (if index_held_by(claims@.skip(i as int), actor@)
                < 0 {
                -1
            } else {
                index_held_by(claims@.skip(i as int), actor@) + i
            }),
        decreases n - i,
    {
        if is_held_by(&claims[i], actor) {
            return Some(i);
        }
        assert(claims@.skip(i as int).drop_first() =~= claims@.skip(i + 1));
        i = i + 1;
    }
    None
}

/// The record a command selects: the named one, or the actor's first lease.
pub fn claim_index(claims: &Vec<ClaimRecord>, selector: &Option<String>, actor: &String) -> (r:
    Option<usize>)
    ensures
        r is None <==> selected(claims@, *selector, actor@) < 0,
        r matches Some(i) ==> i as int == selected(claims@, *selector, actor@),
{
    match selector {
        Some(id) => claim_position(claims, id),
        None => held_position(claims, actor),
    }
}

proof fn lemma_index_bounds(s: Seq<ClaimRecord>, id: Seq<char>, actor: Seq<char>)
    ensures
        index_of_id(s, id) < s.len(),
        index_held_by(s, actor) < s.len(),
        index_of_id(s, id) >= 0 ==> s[index_of_id(s, id)].claim_id@ == id,
        index_held_by(s, actor) >= 0 ==> held_by(s[index_held_by(s, actor)], actor),
    decreases s.len(),
{
    if s.len() > 0 {
        lemma_index_bounds(s.drop_first(), id, actor);
    }
}

proof fn lemma_selected_bounds(s: Seq<ClaimRecord>, selector: Option<String>, actor: Seq<char>)
    ensures
        selected(s, selector, actor) < s.len(),
{
    match selector {
        Some(id) => lemma_index_bounds(s, id@, actor),
        None => lemma_index_bounds(s, seq![], actor),
    }
}

fn refuse(text: &str) -> (r: ClaimLifecycleResponse)
    ensures
        refused(r, text@),
{
    ClaimLifecycleResponse { accepted: false, claim: None, reason: Some(text.to_owned()), note: None }
}

fn grant(c: &ClaimRecord, note: ClaimNote) -> (r: ClaimLifecycleResponse)
    ensures
        granted(r, *c, note),
{
    ClaimLifecycleResponse { accepted: true, claim: Some(copy_claim(c)), reason: None, note: Some(note) }
}

/// Whether `p` is among `plots`.
pub fn plot_is_free(plots: &Vec<Position>, p: Position) -> (r: bool)
    ensures
        r == plots@.contains(p),
{
    let n = plots.len();
    for i in 0..n
        invariant
            n == plots@.len(),
            forall|k: int| 0 <= k < i ==> plots@[k] != p,
    {
        if plots[i] == p {
            assert(plots@[i as int] == p);
            return true;
        }
    }
    false
}

/// Returns `p` to the free plots unless it is already there.
pub fn free_plot(plots: &mut Vec<Position>, p: Position)
    ensures
        final(plots)@ == freed(old(plots)@, p),
{
    if !plot_is_free(plots, p) {
        plots.push(p);
    }
}

// ---------------------------------------------------------------- actions

fn request_claim(registry: &mut LandRegistry, ctx: &ClaimContext) -> (r: ClaimLifecycleResponse)
    ensures
        request_post(*old(registry), *final(registry), *ctx, r),
{
    if registry.available_plots.len() == 0 {
        return refuse(
            "No recognised plot is free; inspect abandoned opportunities or contribute to a public work.",
        );
    }
    if !make_room(&mut registry.claims, MAX_CLAIMS) {
        return refuse(
            "The claim ledger is full; reclaim settled land before requesting another lease.",
        );
    }
    let position = match registry.available_plots.pop() {
        Some(p) => p,
        None => Position { x: 0, y: 0 },
    };
    let id = registry.next_claim_id;
    let claim = ClaimRecord {
        claim_id: numbered("lease-", id),
        plot_id: numbered("plot-", id),
        owner_account_id: Some(ctx.actor_id.clone()),
        owner_name: Some(ctx.actor_name.clone()),
        position,
        lease_days: lease_duration_days(ctx.lease_duration_seconds),
        started_tick: ctx.tick,
        expires_tick: ctx.tick,
        started_at_unix_seconds: 0,
        expires_at_unix_seconds: 0,
        last_active_tick: ctx.tick,
        status: ClaimLifecycleStatus::Requested,
        approved_by: None,
        building_access: false,
        protected_goods_policy: String::from_str(
            "Stored goods and character progression remain safe outside the claim.",
        ),
        inspection_note: String::from_str(
            "Awaiting a town-hall approval before building access begins.",
        ),
    };
    registry.next_claim_id = registry.next_claim_id.saturating_add(1);
    let r = grant(&claim, ClaimNote::Requested);
    registry.claims.push(claim);
    r
}

fn inspect_claim(registry: &LandRegistry, request: &ClaimLifecycleRequest) -> (r:
    ClaimLifecycleResponse)
    ensures
        inspect_post(*registry, *registry, *request, r),
{
    match &request.claim_id {
        None => {
            let n = registry.claims.len();
            let claim = if n == 0 {
                None
            } else {
                Some(copy_claim(&registry.claims[n - 1]))
            };
            ClaimLifecycleResponse { accepted: true, claim, reason: None, note: None }
        },
        Some(id) => match claim_position(&registry.claims, id) {
            None => refuse("That claim is not in the land registry."),
            Some(i) => {
                proof {
                    lemma_index_bounds(registry.claims@, id@, id@);
                }
                assert(i as int == index_of_id(registry.claims@, id@));
                let c = copy_claim(&registry.claims[i]);
                assert(c == registry.claims@[i as int]);
                ClaimLifecycleResponse {
                    accepted: true,
                    claim: Some(copy_claim(&registry.claims[i])),
                    reason: None,
                    note: None,
                }
            },
        },
    }
}

fn approve_claim(
    registry: &mut LandRegistry,
    ctx: &ClaimContext,
    request: &ClaimLifecycleRequest,
) -> (r: ClaimLifecycleResponse)
    ensures
        approve_post(*old(registry), *final(registry), *ctx, *request, r),
{
    proof {
        lemma_selected_bounds(registry.claims@, request.claim_id, ctx.actor_id@);
    }
    let Some(i) = claim_index(&registry.claims, &request.claim_id, &ctx.actor_id) else {
        return refuse("Name the requested lease to approve.");
    };
    let mut claim = copy_claim(&registry.claims[i]);
    if !is_held_by(&claim, &ctx.actor_id) && !ctx.actor_is_steward {
        return refuse("The lease-holder or Settlement Steward must approve the claim.");
    }
    if claim.status != ClaimLifecycleStatus::Requested {
        return refuse("That lease is not awaiting approval.");
    }
    let duration = if ctx.lease_duration_seconds < 1 {
        1
    } else {
        ctx.lease_duration_seconds
    };
    claim.status = ClaimLifecycleStatus::Active;
    claim.approved_by = Some(ctx.actor_id.clone());
    claim.lease_days = lease_duration_days(ctx.lease_duration_seconds);
    claim.started_at_unix_seconds = ctx.now_unix_seconds;
    claim.expires_at_unix_seconds = ctx.now_unix_seconds.saturating_add(duration);
    claim.expires_tick = ctx.tick;
    claim.building_access = true;
    claim.inspection_note = String::from_str(
        "Active recognised land right; renewal and transfer are recorded.",
    );
    let r = grant(&claim, ClaimNote::Approved);
    registry.claims.set(i, claim);
    r
}

fn renew_claim(registry: &mut LandRegistry, ctx: &ClaimContext, request: &ClaimLifecycleRequest) -> (r:
    ClaimLifecycleResponse)
    ensures
        renew_post(*old(registry), *final(registry), *ctx, *request, r),
{
    proof {
        lemma_selected_bounds(registry.claims@, request.claim_id, ctx.actor_id@);
    }
    let Some(i) = claim_index(&registry.claims, &request.claim_id, &ctx.actor_id) else {
        return refuse("Name the lease to renew.");
    };
    let mut claim = copy_claim(&registry.claims[i]);
    if !is_held_by(&claim, &ctx.actor_id) {
        return refuse("Only the recognised holder may renew this lease.");
    }
    if !(claim.status == ClaimLifecycleStatus::Active || claim.status
        == ClaimLifecycleStatus::Renewed) {
        return refuse("Only an active lease can be renewed.");
    }
    let duration = if ctx.lease_duration_seconds < 1 {
        1
    } else {
        ctx.lease_duration_seconds
    };
    let now = ctx.now_unix_seconds;
    claim.status = ClaimLifecycleStatus::Renewed;
    claim.last_active_tick = ctx.tick;
    claim.lease_days = lease_duration_days(ctx.lease_duration_seconds);
    if claim.expires_at_unix_seconds == 0 {
        claim.started_at_unix_seconds = now;
    }
    let base = if claim.expires_at_unix_seconds < now {
        now
    } else {
        claim.expires_at_unix_seconds
    };
    claim.expires_at_unix_seconds = base.saturating_add(duration);
    claim.expires_tick = ctx.tick;
    let r = grant(&claim, ClaimNote::Renewed);
    registry.claims.set(i, claim);
    r
}

fn transfer_claim(
    registry: &mut LandRegistry,
    ctx: &ClaimContext,
    request: &ClaimLifecycleRequest,
) -> (r: ClaimLifecycleResponse)
    ensures
        transfer_post(*old(registry), *final(registry), *ctx, *request, r),
{
    proof {
        lemma_selected_bounds(registry.claims@, request.claim_id, ctx.actor_id@);
    }
    let Some(i) = claim_index(&registry.claims, &request.claim_id, &ctx.actor_id) else {
        return refuse("Name the lease to transfer.");
    };
    let Some(target) = &request.target_account_id else {
        return refuse("A transfer or inheritance needs the receiving account.");
    };
    let Some(target_name) = &ctx.target_name else {
        return refuse("The receiving player must have a recognised settlement account.");
    };
    let mut claim = copy_claim(&registry.claims[i]);
    if !is_held_by(&claim, &ctx.actor_id) {
        return refuse("Only the recognised holder may transfer or bequeath the claim.");
    }
    let active = claim.status == ClaimLifecycleStatus::Active || claim.status
        == ClaimLifecycleStatus::Renewed || claim.status == ClaimLifecycleStatus::Transferred
        || claim.status == ClaimLifecycleStatus::Inherited;
    if !active {
        return refuse("Only an active lease can be transferred or bequeathed.");
    }
    let inherit = request.action == ClaimLifecycleAction::Inherit;
    claim.owner_account_id = Some(target.clone());
    claim.owner_name = Some(target_name.clone());
    claim.status = if inherit {
        ClaimLifecycleStatus::Inherited
    } else {
        ClaimLifecycleStatus::Transferred
    };
    claim.last_active_tick = ctx.tick;
    let r = grant(
        &claim,
        if inherit {
            ClaimNote::Inherited
        } else {
            ClaimNote::Transferred
        },
    );
    registry.claims.set(i, claim);
    r
}

fn abandon_claim(
    registry: &mut LandRegistry,
    ctx: &ClaimContext,
    request: &ClaimLifecycleRequest,
) -> (r: ClaimLifecycleResponse)
    ensures
        abandon_post(*old(registry), *final(registry), *ctx, *request, r),
{
    proof {
        lemma_selected_bounds(registry.claims@, request.claim_id, ctx.actor_id@);
    }
    let Some(i) = claim_index(&registry.claims, &request.claim_id, &ctx.actor_id) else {
        return refuse("Name the lease to abandon.");
    };
    let mut claim = copy_claim(&registry.claims[i]);
    if !is_held_by(&claim, &ctx.actor_id) {
        return refuse("Only the recognised holder may abandon this lease.");
    }
    let open = claim.status == ClaimLifecycleStatus::Requested || claim.status
        == ClaimLifecycleStatus::Active || claim.status == ClaimLifecycleStatus::Renewed
        || claim.status == ClaimLifecycleStatus::Transferred || claim.status
        == ClaimLifecycleStatus::Inherited;
    if !open {
        return refuse("Only a requested or active lease can be abandoned.");
    }
    claim.status = ClaimLifecycleStatus::Abandoned;
    claim.building_access = false;
    claim.last_active_tick = ctx.tick;
    claim.inspection_note = String::from_str(
        "Abandoned claim; reclaim it to return the plot to the available land ledger.",
    );
    let r = grant(&claim, ClaimNote::Abandoned);
    registry.claims.set(i, claim);
    r
}

fn reclaim_claim(
    registry: &mut LandRegistry,
    ctx: &ClaimContext,
    grace_ticks: u64,
    request: &ClaimLifecycleRequest,
) -> (r: ClaimLifecycleResponse)
    ensures
        reclaim_post(*old(registry), *final(registry), *ctx, grace_ticks, *request, r),
{
    proof {
        lemma_selected_bounds(registry.claims@, request.claim_id, ctx.actor_id@);
    }
    let Some(i) = claim_index(&registry.claims, &request.claim_id, &ctx.actor_id) else {
        return refuse("Name the expired or abandoned lease to reclaim.");
    };
    let mut claim = copy_claim(&registry.claims[i]);
    if !(claim.status == ClaimLifecycleStatus::Expired || claim.status
        == ClaimLifecycleStatus::Abandoned) {
        return refuse("Only an expired or abandoned claim can be reclaimed.");
    }
    if ctx.tick < claim.last_active_tick || ctx.tick - claim.last_active_tick < grace_ticks {
        return refuse("The claim grace period has not yet elapsed.");
    }
    let position = claim.position;
    claim.status = ClaimLifecycleStatus::Reclaimed;
    claim.owner_account_id = None;
    claim.owner_name = None;
    claim.building_access = false;
    claim.inspection_note = String::from_str(
        "Reclaimed plot is available to a late player or public contributor.",
    );
    let r = grant(&claim, ClaimNote::Reclaimed);
    registry.claims.set(i, claim);
    free_plot(&mut registry.available_plots, position);
    r
}

/// Applies one land-registry command; `grace_ticks` is how long expired or
/// abandoned land waits before it can be reclaimed.
pub fn claim_lifecycle(
    registry: &mut LandRegistry,
    ctx: &ClaimContext,
    grace_ticks: u64,
    request: &ClaimLifecycleRequest,
) -> (r: ClaimLifecycleResponse)
    ensures
        claim_post(*old(registry), *final(registry), *ctx, grace_ticks, *request, r),
{
    match request.action {
        ClaimLifecycleAction::Inspect => inspect_claim(registry, request),
        ClaimLifecycleAction::Request => request_claim(registry, ctx),
        ClaimLifecycleAction::Approve => approve_claim(registry, ctx, request),
        ClaimLifecycleAction::Renew => renew_claim(registry, ctx, request),
        ClaimLifecycleAction::Transfer | ClaimLifecycleAction::Inherit => transfer_claim(
            registry,
            ctx,
            request,
        ),
        ClaimLifecycleAction::Abandon => abandon_claim(registry, ctx, request),
        ClaimLifecycleAction::Reclaim => reclaim_claim(registry, ctx, grace_ticks, request),
    }
}

// ---------------------------------------------------------------- time

/// A lease in good standing whose real-time term has run out.
pub open spec fn lapses(c: ClaimRecord, now: u64) -> bool {
    active_like(c.status) && c.expires_at_unix_seconds > 0 && now >= c.expires_at_unix_seconds
}

/// `c2` is `c` after the expiry pass of a registry tick.
pub open spec fn expiry_step(c: ClaimRecord, c2: ClaimRecord, tick: u64, now: u64) -> bool {
    if lapses(c, now) {
        &&& c2 == ClaimRecord {
            status: ClaimLifecycleStatus::Expired,
            building_access: false,
            last_active_tick: tick,
            inspection_note: c2.inspection_note,
            ..c
        }
        &&& c2.inspection_note@
            == "The lease expired; access is closed while the registry waits before reclaiming it."@
    } else {
        c2 == c
    }
}

/// Expired or abandoned land whose grace period has passed.
pub open spec fn reclaimable(c: ClaimRecord, tick: u64, grace_ticks: u64) -> bool {
    (c.status == ClaimLifecycleStatus::Abandoned || c.status == ClaimLifecycleStatus::Expired)
        && (if tick < c.last_active_tick { 0 } else { tick - c.last_active_tick }) >= grace_ticks
}

/// `c2` is `c` after the reclaim pass of a registry tick.
pub open spec fn reclaim_step(c: ClaimRecord, c2: ClaimRecord, tick: u64, grace_ticks: u64) -> bool {
    if reclaimable(c, tick, grace_ticks) {
        c2 == ClaimRecord {
            status: ClaimLifecycleStatus::Reclaimed,
            owner_account_id: None,
            owner_name: None,
            building_access: false,
            ..c
        }
    } else {
        c2 == c
    }
}

/// The identifiers of the records of `s` that satisfy `p`, in order.
pub open spec fn ids_where(s: Seq<ClaimRecord>, p: spec_fn(ClaimRecord) -> bool) -> Seq<Seq<char>>
    decreases s.len(),
{
    if s.len() == 0 {
        seq![]
    } else if p(s.last()) {
        ids_where(s.drop_last(), p).push(s.last().claim_id@)
    } else {
        ids_where(s.drop_last(), p)
    }
}

/// The positions of the records of `s` that satisfy `p`, returned in order
/// to the free plots.
pub open spec fn freed_where(
    plots: Seq<Position>,
    s: Seq<ClaimRecord>,
    p: spec_fn(ClaimRecord) -> bool,
) -> Seq<Position>
    decreases s.len(),
{
    if s.len() == 0 {
        plots
    } else if p(s.last()) {
        freed(freed_where(plots, s.drop_last(), p), s.last().position)
    } else {
        freed_where(plots, s.drop_last(), p)
    }
}

/// Closes the leases whose real-time term has run out; returns their
/// identifiers.
pub fn expire_claims(registry: &mut LandRegistry, tick: u64, now: u64) -> (expired: Vec<String>)
    ensures
        final(registry).available_plots == old(registry).available_plots,
        final(registry).next_claim_id == old(registry).next_claim_id,
        final(registry).claims@.len() == old(registry).claims@.len(),
        forall|i: int|
            0 <= i < old(registry).claims@.len() ==> expiry_step(
                #[trigger] old(registry).claims@[i],
                final(registry).claims@[i],
                tick,
                now,
            ),
        crate::ledger::views(expired@) == ids_where(old(registry).claims@, |c| lapses(c, now)),
{
    let ghost start = registry.claims@;
    let mut expired: Vec<String> = Vec::new();
    let n = registry.claims.len();
    for i in 0..n
        invariant
            n == start.len(),
            registry.claims@.len() == n,
            registry.available_plots == old(registry).available_plots,
            registry.next_claim_id == old(registry).next_claim_id,
            start == old(registry).claims@,
            forall|k: int| 0 <= k < i ==> expiry_step(#[trigger] start[k], registry.claims@[k], tick, now),
            forall|k: int| i <= k < n ==> registry.claims@[k] == start[k],
            crate::ledger::views(expired@) == ids_where(start.take(i as int), |c| lapses(c, now)),
    {
        let mut claim = copy_claim(&registry.claims[i]);
        assert(start.take(i + 1).drop_last() =~= start.take(i as int));
        let active = claim.status == ClaimLifecycleStatus::Active || claim.status
            == ClaimLifecycleStatus::Renewed || claim.status == ClaimLifecycleStatus::Transferred
            || claim.status == ClaimLifecycleStatus::Inherited;
        if active && claim.expires_at_unix_seconds > 0 && now >= claim.expires_at_unix_seconds {
            let ghost before = expired@;
            expired.push(claim.claim_id.clone());
            assert(crate::ledger::views(expired@) =~= crate::ledger::views(before).push(
                start[i as int].claim_id@,
            ));
            claim.status = ClaimLifecycleStatus::Expired;
            claim.building_access = false;
            claim.last_active_tick = tick;
            claim.inspection_note = String::from_str(
                "The lease expired; access is closed while the registry waits before reclaiming it.",
            );
            registry.claims.set(i, claim);
        }
    }
    assert(start.take(n as int) =~= start);
    expired
}

/// Returns expired or abandoned land whose grace period has passed to the
/// free plots; returns the identifiers of the reclaimed leases.
pub fn reclaim_claims(registry: &mut LandRegistry, tick: u64, grace_ticks: u64) -> (reclaimed: Vec<
    String,
>)
    ensures
        final(registry).next_claim_id == old(registry).next_claim_id,
        final(registry).claims@.len() == old(registry).claims@.len(),
        forall|i: int|
            0 <= i < old(registry).claims@.len() ==> reclaim_step(
                #[trigger] old(registry).claims@[i],
                final(registry).claims@[i],
                tick,
                grace_ticks,
            ),
        final(registry).available_plots@ == freed_where(
            old(registry).available_plots@,
            old(registry).claims@,
            |c| reclaimable(c, tick, grace_ticks),
        ),
        crate::ledger::views(reclaimed@) == ids_where(
            old(registry).claims@,
            |c| reclaimable(c, tick, grace_ticks),
        ),
{
    let ghost start = registry.claims@;
    let ghost plots = registry.available_plots@;
    let mut reclaimed: Vec<String> = Vec::new();
    let n = registry.claims.len();
    for i in 0..n
        invariant
            n == start.len(),
            registry.claims@.len() == n,
            registry.next_claim_id == old(registry).next_claim_id,
            start == old(registry).claims@,
            plots == old(registry).available_plots@,
            forall|k: int|
                0 <= k < i ==> reclaim_step(#[trigger] start[k], registry.claims@[k], tick, grace_ticks),
            forall|k: int| i <= k < n ==> registry.claims@[k] == start[k],
            crate::ledger::views(reclaimed@) == ids_where(
                start.take(i as int),
                |c| reclaimable(c, tick, grace_ticks),
            ),
            registry.available_plots@ == freed_where(
                plots,
                start.take(i as int),
                |c| reclaimable(c, tick, grace_ticks),
            ),
    {
        let mut claim = copy_claim(&registry.claims[i]);
        assert(start.take(i + 1).drop_last() =~= start.take(i as int));
        let settled = claim.status == ClaimLifecycleStatus::Abandoned || claim.status
            == ClaimLifecycleStatus::Expired;
        let waited = tick.saturating_sub(claim.last_active_tick);
        if settled && waited >= grace_ticks {
            let ghost before = reclaimed@;
            reclaimed.push(claim.claim_id.clone());
            assert(crate::ledger::views(reclaimed@) =~= crate::ledger::views(before).push(
                start[i as int].claim_id@,
            ));
            let position = claim.position;
            claim.status = ClaimLifecycleStatus::Reclaimed;
            claim.owner_account_id = None;
            claim.owner_name = None;
            claim.building_access = false;
            registry.claims.set(i, claim);
            free_plot(&mut registry.available_plots, position);
        }
    }
    assert(start.take(n as int) =~= start);
    reclaimed
}

/// Evicts settled lease records beyond the registry's limit, oldest first;
/// live leases are never evicted.
pub fn trim_claim_history(claims: &mut Vec<ClaimRecord>)
    ensures
        final(claims)@ == trimmed_settled(old(claims)@, MAX_CLAIMS as nat),
{
    crate::retention::trim_settled(claims, MAX_CLAIMS);
}

/// What restoring a saved world does to one lease: its length follows the
/// configured duration, and a lease in good standing saved without a
/// real-time term gets one that starts now.
pub open spec fn restored_claim(c: ClaimRecord, c2: ClaimRecord, lease_duration_seconds: u64, now: u64) -> bool {
    let d = lease_days_spec(lease_duration_seconds);
    if c.expires_at_unix_seconds == 0 && active_like(c.status) {
        c2 == ClaimRecord {
            lease_days: d,
            started_at_unix_seconds: now,
            expires_at_unix_seconds: sat_add(now, duration_spec(lease_duration_seconds)),
            ..c
        }
    } else {
        c2 == ClaimRecord { lease_days: d, ..c }
    }
}

/// Brings saved leases in line with the configured lease duration and gives
/// a term to each lease in good standing that was saved without one.
pub fn restore_claims(claims: &mut Vec<ClaimRecord>, lease_duration_seconds: u64, now: u64)
    ensures
        final(claims)@.len() == old(claims)@.len(),
        forall|i: int|
            0 <= i < old(claims)@.len() ==> restored_claim(
                #[trigger] old(claims)@[i],
                final(claims)@[i],
                lease_duration_seconds,
                now,
            ),
{
    let ghost start = claims@;
    let days = lease_duration_days(lease_duration_seconds);
    let duration = if lease_duration_seconds < 1 {
        1
    } else {
        lease_duration_seconds
    };
    let n = claims.len();
    for i in 0..n
        invariant
            n == start.len(),
            claims@.len() == n,
            start == old(claims)@,
            days == lease_days_spec(lease_duration_seconds),
            duration == duration_spec(lease_duration_seconds),
            forall|k: int|
                0 <= k < i ==> restored_claim(
                    #[trigger] start[k],
                    claims@[k],
                    lease_duration_seconds,
                    now,
                ),
            forall|k: int| i <= k < n ==> claims@[k] == start[k],
    {
        let mut claim = copy_claim(&claims[i]);
        claim.lease_days = days;
        let active = claim.status == ClaimLifecycleStatus::Active || claim.status
            == ClaimLifecycleStatus::Renewed || claim.status == ClaimLifecycleStatus::Transferred
            || claim.status == ClaimLifecycleStatus::Inherited;
        if claim.expires_at_unix_seconds == 0 && active {
            claim.started_at_unix_seconds = now;
            claim.expires_at_unix_seconds = now.saturating_add(duration);
        }
        claims.set(i, claim);
    }
}

// ---------------------------------------------------------------- chronicle

/// The kind, title and text of the chronicle entry an accepted
/// land-registry command by `actor_name` writes.
pub open spec fn claim_entry_spec(note: ClaimNote, actor_name: Seq<char>) -> (Seq<char>, Seq<char>, Seq<char>) {
    match note {
        ClaimNote::Requested => (
            "lease requested"@,
            "A player asks the registry for a piece of land"@,
            actor_name + " requested a lease; approval is still visible in the registry."@,
        ),
        ClaimNote::Approved => (
            "lease approved"@,
            "The registry recognises a land right"@,
            "The requested plot now grants building access without touching stored goods."@,
        ),
        ClaimNote::Renewed => (
            "lease renewed"@,
            "A land right is kept in good standing"@,
            "The registry extended a lease without changing the character or stored-goods ledger."@,
        ),
        ClaimNote::Transferred => (
            "lease transferred"@,
            "A land right changes hands without erasing its history"@,
            "The registry recorded a transfer of a recognised lease."@,
        ),
        ClaimNote::Inherited => (
            "lease transferred"@,
            "A land right changes hands without erasing its history"@,
            "The registry recorded a bounded inheritance of a recognised lease."@,
        ),
        ClaimNote::Abandoned => (
            "lease abandoned"@,
            "A homestead is returned to the registry"@,
            "The abandoned building loses access, while unrelated character and stored goods remain safe."@,
        ),
        ClaimNote::Reclaimed => (
            "lease reclaimed"@,
            "The registry makes abandoned land available again"@,
            "A reclaimed plot offers a late player a clean path into the settlement."@,
        ),
    }
}

/// The chronicle entry an accepted land-registry command by `actor_name`
/// writes.
pub fn claim_entry(note: ClaimNote, actor_name: &str) -> (t: crate::chronicle::EntryText)
    ensures
        (t.kind@, t.title@, t.text@) == claim_entry_spec(note, actor_name@),
{
    match note {
        ClaimNote::Requested => crate::chronicle::EntryText {
            kind: String::from_str("lease requested"),
            title: String::from_str("A player asks the registry for a piece of land"),
            text: actor_name.to_owned().concat(" requested a lease; approval is still visible in the registry."),
        },
        ClaimNote::Approved => crate::chronicle::entry_text(
            "lease approved",
            "The registry recognises a land right",
            "The requested plot now grants building access without touching stored goods.",
        ),
        ClaimNote::Renewed => crate::chronicle::entry_text(
            "lease renewed",
            "A land right is kept in good standing",
            "The registry extended a lease without changing the character or stored-goods ledger.",
        ),
        ClaimNote::Transferred => crate::chronicle::entry_text(
            "lease transferred",
            "A land right changes hands without erasing its history",
            "The registry recorded a transfer of a recognised lease.",
        ),
        ClaimNote::Inherited => crate::chronicle::entry_text(
            "lease transferred",
            "A land right changes hands without erasing its history",
            "The registry recorded a bounded inheritance of a recognised lease.",
        ),
        ClaimNote::Abandoned => crate::chronicle::entry_text(
            "lease abandoned",
            "A homestead is returned to the registry",
            "The abandoned building loses access, while unrelated character and stored goods remain safe.",
        ),
        ClaimNote::Reclaimed => crate::chronicle::entry_text(
            "lease reclaimed",
            "The registry makes abandoned land available again",
            "A reclaimed plot offers a late player a clean path into the settlement.",
        ),
    }
}

/// The chronicle entry for a lease that the registry closed on its own:
/// expired, or reclaimed after its grace period.
pub fn lapse_entry(claim_id: &str, reclaimed: bool) -> (t: crate::chronicle::EntryText)
    ensures
        reclaimed ==> crate::chronicle::reads(
            t,
            "lease reclaimed"@,
            "The registry opens a path for a late player"@,
            "Claim "@ + claim_id@ + " is available again after its grace period."@,
        ),
        !reclaimed ==> crate::chronicle::reads(
            t,
            "lease expired"@,
            "The registry closes an unattended building"@,
            "Claim "@ + claim_id@ + " expired without deleting the character or protected stored goods."@,
        ),
{
    if reclaimed {
        crate::chronicle::EntryText {
            kind: String::from_str("lease reclaimed"),
            title: String::from_str("The registry opens a path for a late player"),
            text: String::from_str("Claim ").concat(claim_id).concat(" is available again after its grace period."),
        }
    } else {
        crate::chronicle::EntryText {
            kind: String::from_str("lease expired"),
            title: String::from_str("The registry closes an unattended building"),
            text: String::from_str("Claim ").concat(claim_id).concat(
                " expired without deleting the character or protected stored goods.",
            ),
        }
    }
}

// ---------------------------------------------------------------- laws

/// The registry never holds more than its limit of lease records.
pub proof fn lemma_claim_ledger_bounded(
    g: LandRegistry,
    g2: LandRegistry,
    ctx: ClaimContext,
    grace_ticks: u64,
    req: ClaimLifecycleRequest,
    r: ClaimLifecycleResponse,
)
    requires
        g.claims@.len() <= MAX_CLAIMS,
        claim_post(g, g2, ctx, grace_ticks, req, r),
    ensures
        g2.claims@.len() <= MAX_CLAIMS,
{
    let t = trimmed_settled(g.claims@, MAX_CLAIMS as nat);
    crate::retention::lemma_trimmed_settled(g.claims@, MAX_CLAIMS as nat);
    crate::retention::lemma_first_settled(t);
    lemma_selected_bounds(g.claims@, req.claim_id, ctx.actor_id@);
    match req.action {
        ClaimLifecycleAction::Request => {
            if g.available_plots@.len() > 0 {
                if t.len() < MAX_CLAIMS {
                    assert(with_room(g.claims@) == Some(t));
                } else if first_settled(t) < t.len() {
                    assert(t.len() == MAX_CLAIMS);
                    assert(t.remove(first_settled(t) as int).len() < MAX_CLAIMS);
                    assert(with_room(g.claims@) == Some(t.remove(first_settled(t) as int)));
                } else {
                    assert(with_room(g.claims@) is None);
                }
            }
        },
        _ => {},
    }
}

/// A lease changes hands, terms or standing only by its holder's command
/// (or, for an approval, the Steward's), and land is reclaimed only once
/// its grace period has passed.
pub proof fn lemma_claim_authority(
    g: LandRegistry,
    g2: LandRegistry,
    ctx: ClaimContext,
    grace_ticks: u64,
    req: ClaimLifecycleRequest,
    r: ClaimLifecycleResponse,
)
    requires
        claim_post(g, g2, ctx, grace_ticks, req, r),
        r.accepted,
    ensures
        ({
            let i = selected(g.claims@, req.claim_id, ctx.actor_id@);
            &&& (req.action == ClaimLifecycleAction::Renew || req.action
                == ClaimLifecycleAction::Transfer || req.action == ClaimLifecycleAction::Inherit
                || req.action == ClaimLifecycleAction::Abandon) ==> held_by(g.claims@[i], ctx.actor_id@)
            &&& req.action == ClaimLifecycleAction::Approve ==> (held_by(g.claims@[i], ctx.actor_id@)
                || ctx.actor_is_steward)
            &&& (req.action == ClaimLifecycleAction::Transfer || req.action
                == ClaimLifecycleAction::Inherit) ==> active_like(g.claims@[i].status)
            &&& req.action == ClaimLifecycleAction::Reclaim ==> reclaimable(g.claims@[i], ctx.tick, grace_ticks)
        }),
{
}

/// A refused command leaves the registry as it was, except that a request
/// refused for a full ledger may already have evicted settled history.
pub proof fn lemma_refusal_changes_nothing(
    g: LandRegistry,
    g2: LandRegistry,
    ctx: ClaimContext,
    grace_ticks: u64,
    req: ClaimLifecycleRequest,
    r: ClaimLifecycleResponse,
)
    requires
        claim_post(g, g2, ctx, grace_ticks, req, r),
        !r.accepted,
    ensures
        req.action != ClaimLifecycleAction::Request ==> g2 == g,
        req.action == ClaimLifecycleAction::Request ==> g2.available_plots == g.available_plots
            && g2.next_claim_id == g.next_claim_id,
{
}

/// A renewal extends the lease from its current expiry, or from now when it
/// has already lapsed, by the lease duration (at least one second), held at
/// the numeric ceiling: a renewal never shortens or forfeits the remaining
/// term, and renewing a lease that runs into the future adds exactly one
/// duration to its expiry.
pub proof fn lemma_renewal_extends_the_term(
    g: LandRegistry,
    g2: LandRegistry,
    ctx: ClaimContext,
    grace_ticks: u64,
    req: ClaimLifecycleRequest,
    r: ClaimLifecycleResponse,
)
    requires
        claim_post(g, g2, ctx, grace_ticks, req, r),
        req.action == ClaimLifecycleAction::Renew,
        r.accepted,
    ensures
        ({
            let i = selected(g.claims@, req.claim_id, ctx.actor_id@);
            let before = g.claims@[i].expires_at_unix_seconds as int;
            let now = ctx.now_unix_seconds as int;
            let duration: int = if ctx.lease_duration_seconds == 0 {
                1
            } else {
                ctx.lease_duration_seconds as int
            };
            let from: int = if before >= now { before } else { now };
            let after = g2.claims@[i].expires_at_unix_seconds as int;
            &&& 0 <= i < g.claims@.len()
            &&& g2.claims@.len() == g.claims@.len()
            &&& r.claim == Some(g2.claims@[i])
            &&& g2.claims@[i].status == ClaimLifecycleStatus::Renewed
            &&& after == (if from + duration > u64::MAX { u64::MAX as int } else { from + duration })
            &&& after >= before
            &&& (before >= now && before + duration <= u64::MAX ==> after == before + duration)
        }),
{
    lemma_selected_bounds(g.claims@, req.claim_id, ctx.actor_id@);
}

/// A lease approved and then renewed at the same moment runs for two lease
/// durations from that moment (while that stays below the numeric ceiling).
pub proof fn lemma_approve_then_renew(
    g: LandRegistry,
    g2: LandRegistry,
    g3: LandRegistry,
    ctx: ClaimContext,
    grace_ticks: u64,
    approve: ClaimLifecycleRequest,
    renew: ClaimLifecycleRequest,
    r: ClaimLifecycleResponse,
    r2: ClaimLifecycleResponse,
)
    requires
        claim_post(g, g2, ctx, grace_ticks, approve, r),
        claim_post(g2, g3, ctx, grace_ticks, renew, r2),
        approve.action == ClaimLifecycleAction::Approve,
        renew.action == ClaimLifecycleAction::Renew,
        r.accepted,
        r2.accepted,
        selected(g2.claims@, renew.claim_id, ctx.actor_id@) == selected(
            g.claims@,
            approve.claim_id,
            ctx.actor_id@,
        ),
        ctx.now_unix_seconds + 2 * ctx.lease_duration_seconds + 2 <= u64::MAX,
    ensures
        ({
            let i = selected(g.claims@, approve.claim_id, ctx.actor_id@);
            let duration: int = if ctx.lease_duration_seconds == 0 {
                1
            } else {
                ctx.lease_duration_seconds as int
            };
            g3.claims@[i].expires_at_unix_seconds == ctx.now_unix_seconds + 2 * duration
        }),
{
    lemma_selected_bounds(g.claims@, approve.claim_id, ctx.actor_id@);
    lemma_selected_bounds(g2.claims@, renew.claim_id, ctx.actor_id@);
}

} // verus!
