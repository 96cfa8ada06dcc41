//! An adventurer's rank and credentials, earned by varied frontier work:
//! a reported watch, a pioneer expedition that founded its outpost, and
//! standing at the Hearth.
use crate::ledger::{contains_name, views};
use vstd::prelude::*;
use vstd::string::*;

verus! {

#[derive(Debug, Clone, Copy, PartialEq, Eq, Structural)]
pub enum AdventurerRank {
    Unproven,
    Trailhand,
    Pathfinder,
    RoadWarden,
}

/// The rank that reported watches, an expedition credential and standing
/// earn.
pub open spec fn rank_for(completed_contracts: u32, expedition: bool, standing: bool) -> AdventurerRank {
    if completed_contracts >= 3 && expedition && standing {
        AdventurerRank::RoadWarden
    } else if completed_contracts > 0 && expedition {
        AdventurerRank::Pathfinder
    } else if completed_contracts > 0 {
        AdventurerRank::Trailhand
    } else {
        AdventurerRank::Unproven
    }
}

/// The credentials earned, in their fixed order.
pub open spec fn credentials_for(completed_contracts: u32, expedition: bool, standing: bool) -> Seq<Seq<char>> {
    let a: Seq<Seq<char>> = if completed_contracts > 0 { seq!["Brambleback watch report"@] } else { Seq::empty() };
    let b: Seq<Seq<char>> = if expedition { seq!["Lantern Rest expedition"@] } else { Seq::empty() };
    let c: Seq<Seq<char>> = if standing { seq!["Hearth standing"@] } else { Seq::empty() };
    a + b + c
}

/// The rank and credentials of the adventurer `account_id`, from the
/// watches they reported, the settlement's expedition credentials and
/// their reputation (standing takes three).
pub fn profile(
    account_id: &String,
    completed_contracts: u32,
    expedition_credentials: &Vec<String>,
    reputation: u32,
) -> (r: (AdventurerRank, Vec<String>))
    ensures
        ({
            let expedition = views(expedition_credentials@).contains(account_id@);
            let standing = reputation >= 3;
            &&& r.0 == rank_for(completed_contracts, expedition, standing)
            &&& views(r.1@) == credentials_for(completed_contracts, expedition, standing)
        }),
{
    let expedition = contains_name(expedition_credentials, account_id);
    let standing = reputation >= 3;
    let mut credentials: Vec<String> = Vec::new();
    let ghost c0 = views(credentials@);
    if completed_contracts > 0 {
        credentials.push(String::from_str("Brambleback watch report"));
    }
    let ghost c1 = views(credentials@);
    if expedition {
        credentials.push(String::from_str("Lantern Rest expedition"));
    }
    let ghost c2 = views(credentials@);
    if standing {
        credentials.push(String::from_str("Hearth standing"));
    }
    proof {
        let a: Seq<Seq<char>> = if completed_contracts > 0 { seq!["Brambleback watch report"@] } else { Seq::empty() };
        let b: Seq<Seq<char>> = if expedition { seq!["Lantern Rest expedition"@] } else { Seq::empty() };
        let c: Seq<Seq<char>> = if standing { seq!["Hearth standing"@] } else { Seq::empty() };
        assert(c1 =~= a);
        assert(c2 =~= a + b);
        assert(views(credentials@) =~= a + b + c);
    }
    let rank = if completed_contracts >= 3 && expedition && standing {
        AdventurerRank::RoadWarden
    } else if completed_contracts > 0 && expedition {
        AdventurerRank::Pathfinder
    } else if completed_contracts > 0 {
        AdventurerRank::Trailhand
    } else {
        AdventurerRank::Unproven
    };
    (rank, credentials)
}

/// A higher rank always carries the credentials below it: a road warden
/// is a pathfinder, and a pathfinder a trailhand.
pub proof fn lemma_ranks_are_earned(completed_contracts: u32, expedition: bool, standing: bool)
    ensures
        rank_for(completed_contracts, expedition, standing) != AdventurerRank::Unproven ==> credentials_for(
            completed_contracts,
            expedition,
            standing,
        ).contains("Brambleback watch report"@),
        rank_for(completed_contracts, expedition, standing) == AdventurerRank::Pathfinder
            || rank_for(completed_contracts, expedition, standing) == AdventurerRank::RoadWarden
            ==> credentials_for(completed_contracts, expedition, standing).contains("Lantern Rest expedition"@),
{
    let a: Seq<Seq<char>> = if completed_contracts > 0 { seq!["Brambleback watch report"@] } else { Seq::empty() };
    let b: Seq<Seq<char>> = if expedition { seq!["Lantern Rest expedition"@] } else { Seq::empty() };
    let c: Seq<Seq<char>> = if standing { seq!["Hearth standing"@] } else { Seq::empty() };
    if completed_contracts > 0 {
        assert((a + b + c)[0] == "Brambleback watch report"@);
    }
    if completed_contracts > 0 && expedition {
        assert((a + b + c)[1] == "Lantern Rest expedition"@);
    }
}

} // verus!
