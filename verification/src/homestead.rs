//! The frontier homestead beyond the first road: one renewable lease that a
//! player takes up, renews by activity or releases, and that the
//! settlement reclaims once it has gone quiet for too long.
use crate::frontier::Position;
use vstd::prelude::*;
use vstd::string::*;

verus! {

#[derive(Debug, Clone, Copy, PartialEq, Eq, Structural)]
pub enum HomesteadStatus {
    Active,
    Abandoned,
    Reclaimed,
}

#[derive(Debug, Clone, Copy, PartialEq, Eq, Structural)]
pub enum HomesteadAction {
    Inspect,
    Request,
    Renew,
    Abandon,
}

#[derive(Debug, Clone)]
pub struct LandClaim {
    pub claim_id: String,
    pub owner_account_id: String,
    pub owner_name: String,
    pub position: Position,
    pub lease_days: u32,
    pub last_active_tick: u64,
    pub reclaim_after_ticks: u64,
    pub status: HomesteadStatus,
}

/// The chronicle entry an accepted command asks for.
#[derive(Debug, Clone, Copy, PartialEq, Eq, Structural)]
pub enum HomesteadNote {
    Founded,
    Renewed,
    Abandoned,
}

#[derive(Debug, Clone)]
pub struct HomesteadOutcome {
    pub accepted: bool,
    pub claim: Option<LandClaim>,
    pub reason: Option<String>,
    pub note: Option<HomesteadNote>,
}

// ---------------------------------------------------------------- specs

/// The homestead lease a player founds on beat `tick`.
pub open spec fn founded(c: LandClaim, owner: Seq<char>, name: Seq<char>, tick: u64, after: u64) -> bool {
    &&& c.claim_id@ == "homestead-1"@
    &&& c.owner_account_id@ == owner
    &&& c.owner_name@ == name
    &&& c.position == Position { x: 10, y: 8 }
    &&& c.lease_days == 3
    &&& c.last_active_tick == tick
    &&& c.reclaim_after_ticks == after
    &&& c.status == HomesteadStatus::Active
}

pub open spec fn turned_down(
    c: Option<LandClaim>,
    c2: Option<LandClaim>,
    r: HomesteadOutcome,
    text: Seq<char>,
) -> bool {
    &&& !r.accepted
    &&& r.note is None
    &&& r.claim == c
    &&& r.reason matches Some(s) && s@ == text
    &&& c2 == c
}

/// The outcome of a homestead command by `actor` (named `name`) on beat
/// `tick`; a new lease is reclaimed after `after` quiet beats.
pub open spec fn homestead_post(
    c: Option<LandClaim>,
    c2: Option<LandClaim>,
    actor: Seq<char>,
    name: Seq<char>,
    tick: u64,
    after: u64,
    action: HomesteadAction,
    r: HomesteadOutcome,
) -> bool {
    match action {
        HomesteadAction::Inspect => r.accepted && r.reason is None && r.note is None && r.claim == c
            && c2 == c,
        HomesteadAction::Request => if c matches Some(x) && x.status == HomesteadStatus::Active {
            turned_down(c, c2, r, "The recognised homestead is already leased."@)
        } else {
            &&& r.accepted && r.reason is None && r.note == Some(HomesteadNote::Founded)
            &&& c2 matches Some(x) && founded(x, actor, name, tick, after)
            &&& r.claim == c2
        },
        _ => match c {
            None => turned_down(c, c2, r, "There is no homestead lease to change."@),
            Some(x) => if x.owner_account_id@ != actor {
                turned_down(c, c2, r, "Only the lease holder can change this homestead."@)
            } else if x.status != HomesteadStatus::Active {
                turned_down(c, c2, r, "That lease has already returned to the frontier."@)
            } else {
                &&& r.accepted && r.reason is None
                &&& r.claim == c2
                &&& if action == HomesteadAction::Renew {
                    &&& r.note == Some(HomesteadNote::Renewed)
                    &&& c2 == Some(LandClaim { last_active_tick: tick, ..x })
                } else {
                    &&& r.note == Some(HomesteadNote::Abandoned)
                    &&& c2 == Some(LandClaim { status: HomesteadStatus::Abandoned, ..x })
                }
            },
        },
    }
}

/// An active lease that has been quiet for longer than its reclaim window
/// on beat `tick`.
pub open spec fn gone_quiet(c: LandClaim, tick: u64) -> bool {
    c.status == HomesteadStatus::Active && (if tick >= c.last_active_tick {
        tick - c.last_active_tick
    } else {
        0
    }) > c.reclaim_after_ticks
}

// ---------------------------------------------------------------- helpers

/// An exact copy of a lease.
pub fn copy_claim(c: &LandClaim) -> (r: LandClaim)
    ensures
        r == *c,
{
    LandClaim {
        claim_id: c.claim_id.clone(),
        owner_account_id: c.owner_account_id.clone(),
        owner_name: c.owner_name.clone(),
        position: c.position,
        lease_days: c.lease_days,
        last_active_tick: c.last_active_tick,
        reclaim_after_ticks: c.reclaim_after_ticks,
        status: c.status,
    }
}

fn copy_opt(c: &Option<LandClaim>) -> (r: Option<LandClaim>)
    ensures
        r == *c,
{
    match c {
        Some(c) => Some(copy_claim(c)),
        None => None,
    }
}

fn turn_down(c: &Option<LandClaim>, text: &str) -> (r: HomesteadOutcome)
    ensures
        !r.accepted && r.note is None && r.claim == *c && (r.reason matches Some(s) && s@ == text@),
{
    HomesteadOutcome { accepted: false, claim: copy_opt(c), reason: Some(text.to_owned()), note: None }
}

// ---------------------------------------------------------------- commands

/// Carries out one homestead command for the player `actor_id`.
pub fn homestead_command(
    claim: &mut Option<LandClaim>,
    actor_id: &String,
    actor_name: &String,
    tick: u64,
    reclaim_after_ticks: u64,
    action: HomesteadAction,
) -> (r: HomesteadOutcome)
    ensures
        homestead_post(
            *old(claim),
            *final(claim),
            actor_id@,
            actor_name@,
            tick,
            reclaim_after_ticks,
            action,
            r,
        ),
{
    match action {
        HomesteadAction::Inspect => HomesteadOutcome {
            accepted: true,
            claim: copy_opt(claim),
            reason: None,
            note: None,
        },
        HomesteadAction::Request => {
            let leased = match claim {
                Some(c) => c.status == HomesteadStatus::Active,
                None => false,
            };
            if leased {
                return turn_down(claim, "The recognised homestead is already leased.");
            }
            let c = LandClaim {
                claim_id: String::from_str("homestead-1"),
                owner_account_id: actor_id.clone(),
                owner_name: actor_name.clone(),
                position: Position { x: 10, y: 8 },
                lease_days: 3,
                last_active_tick: tick,
                reclaim_after_ticks,
                status: HomesteadStatus::Active,
            };
            let shown = copy_claim(&c);
            *claim = Some(c);
            HomesteadOutcome {
                accepted: true,
                claim: Some(shown),
                reason: None,
                note: Some(HomesteadNote::Founded),
            }
        },
        _ => {
            let Some(mut c) = claim.take() else {
                return turn_down(claim, "There is no homestead lease to change.");
            };
            if c.owner_account_id != *actor_id {
                *claim = Some(c);
                return turn_down(claim, "Only the lease holder can change this homestead.");
            }
            if c.status != HomesteadStatus::Active {
                *claim = Some(c);
                return turn_down(claim, "That lease has already returned to the frontier.");
            }
            let note = if action == HomesteadAction::Renew {
                c.last_active_tick = tick;
                HomesteadNote::Renewed
            } else {
                c.status = HomesteadStatus::Abandoned;
                HomesteadNote::Abandoned
            };
            let shown = copy_claim(&c);
            *claim = Some(c);
            HomesteadOutcome { accepted: true, claim: Some(shown), reason: None, note: Some(note) }
        },
    }
}

/// Reclaims the lease on beat `tick` if it has gone quiet; says whether
/// it did.
pub fn reclaim_homestead(claim: &mut Option<LandClaim>, tick: u64) -> (reclaimed: bool)
    ensures
        reclaimed == (*old(claim) matches Some(c) && gone_quiet(c, tick)),
        reclaimed ==> *final(claim) == Some(
            LandClaim { status: HomesteadStatus::Reclaimed, ..old(claim)->0 },
        ),
        !reclaimed ==> *final(claim) == *old(claim),
{
    let Some(mut c) = claim.take() else {
        return false;
    };
    let quiet = tick.saturating_sub(c.last_active_tick);
    let reclaimed = c.status == HomesteadStatus::Active && quiet > c.reclaim_after_ticks;
    if reclaimed {
        c.status = HomesteadStatus::Reclaimed;
    }
    *claim = Some(c);
    reclaimed
}

// ---------------------------------------------------------------- laws

/// Only the lease holder ever changes an existing homestead lease, and no
/// one takes up a lease while another is active.
pub proof fn lemma_only_the_holder_changes_the_lease(
    c: Option<LandClaim>,
    c2: Option<LandClaim>,
    actor: Seq<char>,
    name: Seq<char>,
    tick: u64,
    after: u64,
    action: HomesteadAction,
    r: HomesteadOutcome,
)
    requires
        homestead_post(c, c2, actor, name, tick, after, action, r),
        c matches Some(x) && x.status == HomesteadStatus::Active && x.owner_account_id@ != actor,
    ensures
        c2 == c,
        !r.accepted || action == HomesteadAction::Inspect,
{
}

/// A renewed lease is not reclaimed on the beat it was renewed.
pub proof fn lemma_renewal_defers_reclamation(
    c: Option<LandClaim>,
    c2: Option<LandClaim>,
    actor: Seq<char>,
    name: Seq<char>,
    tick: u64,
    after: u64,
    r: HomesteadOutcome,
)
    requires
        homestead_post(c, c2, actor, name, tick, after, HomesteadAction::Renew, r),
        r.accepted,
    ensures
        c2 matches Some(x) && !gone_quiet(x, tick),
{
}

/// The chronicle entry an accepted homestead command writes.
pub fn homestead_entry(note: HomesteadNote) -> (t: crate::chronicle::EntryText)
    ensures
        match note {
            HomesteadNote::Founded => crate::chronicle::reads(
                t,
                "claim founded"@,
                "A homestead lease is recognised beyond the first road"@,
                "A player has taken the renewable homestead lease; inactivity will reclaim it."@,
            ),
            HomesteadNote::Renewed => crate::chronicle::reads(
                t,
                "claim renewed"@,
                "The homestead ledger changes"@,
                "The lease holder renewed the homestead."@,
            ),
            HomesteadNote::Abandoned => crate::chronicle::reads(
                t,
                "claim abandoned"@,
                "The homestead ledger changes"@,
                "The lease holder released the homestead."@,
            ),
        },
{
    match note {
        HomesteadNote::Founded => crate::chronicle::entry_text(
            "claim founded",
            "A homestead lease is recognised beyond the first road",
            "A player has taken the renewable homestead lease; inactivity will reclaim it.",
        ),
        HomesteadNote::Renewed => crate::chronicle::entry_text(
            "claim renewed",
            "The homestead ledger changes",
            "The lease holder renewed the homestead.",
        ),
        HomesteadNote::Abandoned => crate::chronicle::entry_text(
            "claim abandoned",
            "The homestead ledger changes",
            "The lease holder released the homestead.",
        ),
    }
}

} // verus!
