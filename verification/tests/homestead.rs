use tarrowyn_repository::frontier::Position;
use tarrowyn_repository::homestead::{
    homestead_command, homestead_entry, reclaim_homestead, HomesteadAction, HomesteadNote, HomesteadStatus, LandClaim,
};

fn id(s: &str) -> String {
    s.to_owned()
}

#[test]
fn a_homestead_is_founded_renewed_and_released_by_its_holder() {
    let mut claim: Option<LandClaim> = None;
    let founded = homestead_command(&mut claim, &id("ada"), &id("Ada"), 5, 40, HomesteadAction::Request);
    assert!(founded.accepted);
    assert_eq!(founded.note, Some(HomesteadNote::Founded));
    let held = claim.clone().expect("lease recorded");
    assert_eq!(held.claim_id, "homestead-1");
    assert_eq!(held.owner_account_id, "ada");
    assert_eq!(held.position, Position { x: 10, y: 8 });
    assert_eq!(held.lease_days, 3);
    assert_eq!(held.reclaim_after_ticks, 40);
    assert_eq!(held.status, HomesteadStatus::Active);

    let again = homestead_command(&mut claim, &id("bo"), &id("Bo"), 6, 40, HomesteadAction::Request);
    assert_eq!(again.reason.as_deref(), Some("The recognised homestead is already leased."));

    let stranger = homestead_command(&mut claim, &id("bo"), &id("Bo"), 7, 40, HomesteadAction::Renew);
    assert_eq!(stranger.reason.as_deref(), Some("Only the lease holder can change this homestead."));
    assert_eq!(claim.as_ref().unwrap().last_active_tick, 5);

    let renewed = homestead_command(&mut claim, &id("ada"), &id("Ada"), 9, 40, HomesteadAction::Renew);
    assert_eq!(renewed.note, Some(HomesteadNote::Renewed));
    assert_eq!(claim.as_ref().unwrap().last_active_tick, 9);

    let inspected = homestead_command(&mut claim, &id("bo"), &id("Bo"), 10, 40, HomesteadAction::Inspect);
    assert!(inspected.accepted);
    assert_eq!(inspected.claim.unwrap().owner_account_id, "ada");

    let released = homestead_command(&mut claim, &id("ada"), &id("Ada"), 11, 40, HomesteadAction::Abandon);
    assert_eq!(released.note, Some(HomesteadNote::Abandoned));
    assert_eq!(claim.as_ref().unwrap().status, HomesteadStatus::Abandoned);

    let late = homestead_command(&mut claim, &id("ada"), &id("Ada"), 12, 40, HomesteadAction::Renew);
    assert_eq!(late.reason.as_deref(), Some("That lease has already returned to the frontier."));

    let refounded = homestead_command(&mut claim, &id("bo"), &id("Bo"), 13, 40, HomesteadAction::Request);
    assert!(refounded.accepted);
    assert_eq!(claim.as_ref().unwrap().owner_account_id, "bo");
}

#[test]
fn changing_a_missing_homestead_is_refused() {
    let mut claim: Option<LandClaim> = None;
    let r = homestead_command(&mut claim, &id("ada"), &id("Ada"), 1, 40, HomesteadAction::Abandon);
    assert!(!r.accepted);
    assert_eq!(r.reason.as_deref(), Some("There is no homestead lease to change."));
    assert!(claim.is_none());
}

#[test]
fn a_quiet_homestead_is_reclaimed_only_after_its_window() {
    let mut claim: Option<LandClaim> = None;
    homestead_command(&mut claim, &id("ada"), &id("Ada"), 10, 40, HomesteadAction::Request);
    assert!(!reclaim_homestead(&mut claim, 50));
    assert_eq!(claim.as_ref().unwrap().status, HomesteadStatus::Active);
    assert!(reclaim_homestead(&mut claim, 51));
    assert_eq!(claim.as_ref().unwrap().status, HomesteadStatus::Reclaimed);
    assert!(!reclaim_homestead(&mut claim, 500));
    let mut none: Option<LandClaim> = None;
    assert!(!reclaim_homestead(&mut none, 500));
}

#[test]
fn accepted_homestead_commands_are_chronicled() {
    assert_eq!(homestead_entry(HomesteadNote::Founded).kind, "claim founded");
    assert_eq!(homestead_entry(HomesteadNote::Abandoned).text, "The lease holder released the homestead.");
}
