use tarrowyn_repository::claims::{
    claim_lifecycle, expire_claims, lease_duration_days, reclaim_claims, restore_claims, validate_claim_request, claim_entry, lapse_entry, ClaimContext,
    ClaimLifecycleAction, ClaimLifecycleRequest, ClaimLifecycleStatus, ClaimNote, ClaimRecord,
    LandRegistry, MAX_CLAIMS, SECONDS_PER_DAY,
};
use std::collections::VecDeque;
use tarrowyn_repository::chronicle::{Chronicle, ChronicleEntry};
use tarrowyn_repository::commands::{run_claim_command, CommandCounters};
use tarrowyn_repository::events::EventLog;
use tarrowyn_repository::frontier::Position;
use tarrowyn_repository::replay::ReplayCache;

const NINETY_DAYS: u64 = 90 * 24 * 60 * 60;
const NOW: u64 = 1_700_000_000;

fn registry() -> LandRegistry {
    LandRegistry {
        claims: Vec::new(),
        available_plots: vec![Position { x: 4, y: 9 }, Position { x: 5, y: 9 }],
        next_claim_id: 1,
    }
}

fn ctx(actor: &str, tick: u64) -> ClaimContext {
    ClaimContext {
        actor_id: actor.to_owned(),
        actor_name: format!("{actor} name"),
        actor_is_steward: false,
        target_name: None,
        tick,
        now_unix_seconds: NOW,
        lease_duration_seconds: NINETY_DAYS,
    }
}

fn request(action: ClaimLifecycleAction, claim_id: Option<&str>) -> ClaimLifecycleRequest {
    ClaimLifecycleRequest {
        action,
        claim_id: claim_id.map(str::to_owned),
        target_account_id: None,
    }
}

fn find<'a>(registry: &'a LandRegistry, id: &str) -> &'a ClaimRecord {
    registry
        .claims
        .iter()
        .find(|claim| claim.claim_id == id)
        .expect("claim remains recorded")
}

fn find_mut<'a>(registry: &'a mut LandRegistry, id: &str) -> &'a mut ClaimRecord {
    registry
        .claims
        .iter_mut()
        .find(|claim| claim.claim_id == id)
        .expect("claim remains recorded")
}

#[test]
fn expired_claim_cannot_be_reassigned_or_extend_reclamation_grace() {
    let mut land = registry();
    let owner = ctx("expired-claim-owner", 0);
    let requested = claim_lifecycle(
        &mut land,
        &owner,
        10,
        &request(ClaimLifecycleAction::Request, None),
    )
    .claim
    .expect("requested claim");
    let claim_id = requested.claim_id.clone();
    claim_lifecycle(
        &mut land,
        &owner,
        10,
        &request(ClaimLifecycleAction::Approve, Some(&claim_id)),
    );
    {
        let claim = find_mut(&mut land, &claim_id);
        claim.status = ClaimLifecycleStatus::Expired;
        claim.building_access = false;
        claim.expires_at_unix_seconds = 1;
        claim.last_active_tick = 7;
    }

    let mut transfer_ctx = ctx("expired-claim-owner", 0);
    transfer_ctx.target_name = Some("expired-claim-recipient name".to_owned());
    let mut transfer_request = request(ClaimLifecycleAction::Transfer, Some(&claim_id));
    transfer_request.target_account_id = Some("expired-claim-recipient".to_owned());
    let transfer = claim_lifecycle(&mut land, &transfer_ctx, 10, &transfer_request);
    assert!(!transfer.accepted);
    assert!(transfer
        .reason
        .as_deref()
        .is_some_and(|reason| reason.contains("active lease")));

    let abandon = claim_lifecycle(
        &mut land,
        &owner,
        10,
        &request(ClaimLifecycleAction::Abandon, Some(&claim_id)),
    );
    assert!(!abandon.accepted);
    assert!(abandon
        .reason
        .as_deref()
        .is_some_and(|reason| reason.contains("requested or active")));

    let claim = find(&land, &claim_id);
    assert_eq!(claim.status, ClaimLifecycleStatus::Expired);
    assert_eq!(claim.last_active_tick, 7);
    assert!(!claim.building_access);
}

#[test]
fn reclaim_waits_for_the_configured_grace_period() {
    let mut land = registry();
    let owner = ctx("reclaim-grace-owner", 3);
    let claim = claim_lifecycle(
        &mut land,
        &owner,
        10,
        &request(ClaimLifecycleAction::Request, None),
    )
    .claim
    .expect("requested claim");
    claim_lifecycle(
        &mut land,
        &owner,
        10,
        &request(ClaimLifecycleAction::Approve, Some(&claim.claim_id)),
    );
    {
        let record = find_mut(&mut land, &claim.claim_id);
        record.status = ClaimLifecycleStatus::Abandoned;
        record.building_access = false;
        record.last_active_tick = 3;
    }

    let response = claim_lifecycle(
        &mut land,
        &ctx("reclaim-grace-late-player", 3),
        10,
        &request(ClaimLifecycleAction::Reclaim, Some(&claim.claim_id)),
    );
    assert!(!response.accepted);
    assert!(response
        .reason
        .as_deref()
        .is_some_and(|reason| reason.contains("grace period")));

    let record = find(&land, &claim.claim_id);
    assert_eq!(record.status, ClaimLifecycleStatus::Abandoned);
    assert!(!land.available_plots.contains(&record.position));
}

#[test]
fn unknown_claim_inspection_does_not_fall_back_to_the_latest_record() {
    let mut land = registry();
    let session = ctx("unknown-claim-selector", 0);
    claim_lifecycle(
        &mut land,
        &session,
        1,
        &request(ClaimLifecycleAction::Request, None),
    );

    let response = claim_lifecycle(
        &mut land,
        &session,
        1,
        &request(ClaimLifecycleAction::Inspect, Some("missing-claim")),
    );

    assert!(!response.accepted);
    assert!(response.claim.is_none());
    assert_eq!(
        response.reason.as_deref(),
        Some("That claim is not in the land registry.")
    );
}

fn reclaimed_claim(index: usize) -> ClaimRecord {
    ClaimRecord {
        claim_id: format!("reclaimed-claim-{index}"),
        plot_id: format!("plot-{index}"),
        owner_account_id: None,
        owner_name: None,
        position: Position {
            x: (index % 18) as i32,
            y: (index / 18) as i32,
        },
        lease_days: 90,
        started_tick: index as u64,
        expires_tick: index as u64,
        started_at_unix_seconds: 0,
        expires_at_unix_seconds: 0,
        last_active_tick: index as u64,
        status: ClaimLifecycleStatus::Reclaimed,
        approved_by: None,
        building_access: false,
        protected_goods_policy: "Stored goods remain protected.".to_owned(),
        inspection_note: "This history row is no longer active.".to_owned(),
    }
}

#[test]
fn claim_history_evicts_reclaimed_rows_before_requesting_new_land() {
    let mut land = registry();
    land.claims = (0..MAX_CLAIMS).map(reclaimed_claim).collect();
    land.available_plots.push(Position { x: 17, y: 10 });
    let session = ctx("phase4-claim-retention", 0);

    let created = claim_lifecycle(
        &mut land,
        &session,
        1,
        &request(ClaimLifecycleAction::Request, None),
    );
    assert!(created.accepted);
    assert_eq!(land.claims.len(), MAX_CLAIMS);
    assert!(!land
        .claims
        .iter()
        .any(|claim| claim.claim_id == "reclaimed-claim-0"));
    assert!(land.claims.iter().any(|claim| claim.claim_id == "lease-1"));

    for claim in &mut land.claims {
        claim.status = ClaimLifecycleStatus::Active;
    }
    land.available_plots.push(Position { x: 16, y: 10 });
    let blocked = claim_lifecycle(
        &mut land,
        &session,
        1,
        &request(ClaimLifecycleAction::Request, None),
    );
    assert!(!blocked.accepted);
    assert!(blocked
        .reason
        .as_deref()
        .is_some_and(|reason| reason.contains("claim ledger is full")));
    assert_eq!(land.claims.len(), MAX_CLAIMS);
    assert_eq!(land.available_plots.last(), Some(&Position { x: 16, y: 10 }));
}

#[test]
fn claim_id_stays_at_the_numeric_ceiling() {
    let mut land = registry();
    land.next_claim_id = u64::MAX;
    land.available_plots.push(Position { x: 17, y: 10 });

    let response = claim_lifecycle(
        &mut land,
        &ctx("claim-id-ceiling", 0),
        1,
        &request(ClaimLifecycleAction::Request, None),
    );

    let claim = response.claim.expect("accepted claim");
    assert_eq!(claim.claim_id, format!("lease-{}", u64::MAX));
    assert_eq!(claim.plot_id, format!("plot-{}", u64::MAX));
    assert_eq!(claim.position, Position { x: 17, y: 10 });
    assert_eq!(land.next_claim_id, u64::MAX);
}

#[test]
fn land_rights_complete_the_lifecycle_without_touching_character_state() {
    let mut land = registry();
    let one = ctx("phase4-land-one", 2);
    let requested = claim_lifecycle(
        &mut land,
        &one,
        1,
        &request(ClaimLifecycleAction::Request, None),
    );
    let claim_id = requested.claim.unwrap().claim_id;
    let approved = claim_lifecycle(
        &mut land,
        &one,
        1,
        &request(ClaimLifecycleAction::Approve, Some(&claim_id)),
    );
    assert!(approved.claim.unwrap().building_access);
    let renewed = claim_lifecycle(
        &mut land,
        &one,
        1,
        &request(ClaimLifecycleAction::Renew, Some(&claim_id)),
    );
    assert_eq!(renewed.claim.unwrap().status, ClaimLifecycleStatus::Renewed);

    let mut transfer_ctx = ctx("phase4-land-one", 2);
    transfer_ctx.target_name = Some("phase4-land-two name".to_owned());
    let mut transfer = request(ClaimLifecycleAction::Transfer, Some(&claim_id));
    transfer.target_account_id = Some("phase4-land-two".to_owned());
    assert!(claim_lifecycle(&mut land, &transfer_ctx, 1, &transfer).accepted);

    let two = ctx("phase4-land-two", 2);
    assert!(
        claim_lifecycle(
            &mut land,
            &two,
            1,
            &request(ClaimLifecycleAction::Abandon, Some(&claim_id)),
        )
        .accepted
    );
    let reclaimed = claim_lifecycle(
        &mut land,
        &ctx("phase4-land-two", 3),
        1,
        &request(ClaimLifecycleAction::Reclaim, Some(&claim_id)),
    );
    let reclaimed = reclaimed.claim.unwrap();
    assert_eq!(reclaimed.status, ClaimLifecycleStatus::Reclaimed);
    assert_eq!(reclaimed.owner_account_id, None);
    assert!(land.available_plots.contains(&reclaimed.position));
}

#[test]
fn claim_actions_without_ids_select_the_relevant_actor_lease() {
    let mut land = registry();
    let first = ctx("phase4-claim-fallback-first", 0);
    let second = ctx("phase4-claim-fallback-second", 0);
    let first_claim = claim_lifecycle(
        &mut land,
        &first,
        1,
        &request(ClaimLifecycleAction::Request, None),
    )
    .claim
    .expect("the first player should receive a lease");
    assert!(
        claim_lifecycle(
            &mut land,
            &first,
            1,
            &request(ClaimLifecycleAction::Approve, Some(&first_claim.claim_id)),
        )
        .accepted
    );
    let second_claim = claim_lifecycle(
        &mut land,
        &second,
        1,
        &request(ClaimLifecycleAction::Request, None),
    )
    .claim
    .expect("the second player should receive a lease");
    assert!(
        claim_lifecycle(
            &mut land,
            &second,
            1,
            &request(ClaimLifecycleAction::Approve, Some(&second_claim.claim_id)),
        )
        .accepted
    );
    let renewed = claim_lifecycle(
        &mut land,
        &second,
        1,
        &request(ClaimLifecycleAction::Renew, None),
    );
    assert_eq!(
        renewed.claim.unwrap().owner_account_id.as_deref(),
        Some("phase4-claim-fallback-second")
    );
}

#[test]
fn lease_expiry_uses_real_time_instead_of_the_accelerated_world_clock() {
    let mut land = registry();
    let session = ctx("phase4-real-lease", 0);
    let requested = claim_lifecycle(
        &mut land,
        &session,
        1,
        &request(ClaimLifecycleAction::Request, None),
    );
    let claim_id = requested.claim.unwrap().claim_id;
    let approved = claim_lifecycle(
        &mut land,
        &session,
        1,
        &request(ClaimLifecycleAction::Approve, Some(&claim_id)),
    )
    .claim
    .unwrap();
    assert_eq!(approved.lease_days, 90);
    assert_eq!(
        approved.expires_at_unix_seconds - approved.started_at_unix_seconds,
        NINETY_DAYS
    );

    // Five accelerated world ticks pass within the same real second.
    for tick in 1..=5 {
        assert!(expire_claims(&mut land, tick * 10_000, NOW).is_empty());
        assert!(reclaim_claims(&mut land, tick * 10_000, 1).is_empty());
    }
    assert_eq!(lease_duration_days(NINETY_DAYS), 90);
    assert_eq!(find(&land, &claim_id).status, ClaimLifecycleStatus::Active);

    // Real time running past the term closes the lease.
    let expired = expire_claims(&mut land, 60_000, NOW + NINETY_DAYS);
    assert_eq!(expired, vec![claim_id.clone()]);
    assert_eq!(find(&land, &claim_id).status, ClaimLifecycleStatus::Expired);
}

#[test]
fn lease_days_are_whole_days_and_at_least_one() {
    assert_eq!(lease_duration_days(0), 1);
    assert_eq!(lease_duration_days(SECONDS_PER_DAY - 1), 1);
    assert_eq!(lease_duration_days(3 * SECONDS_PER_DAY + 5), 3);
}

#[test]
fn a_request_without_free_land_is_refused_and_changes_nothing() {
    let mut land = registry();
    land.available_plots.clear();
    let response = claim_lifecycle(
        &mut land,
        &ctx("landless", 0),
        1,
        &request(ClaimLifecycleAction::Request, None),
    );
    assert!(!response.accepted);
    assert!(response.reason.unwrap().starts_with("No recognised plot is free"));
    assert!(land.claims.is_empty());
    assert_eq!(land.next_claim_id, 1);
}

#[test]
fn a_stranger_cannot_approve_but_a_steward_can() {
    let mut land = registry();
    let owner = ctx("approval-owner", 0);
    let claim_id = claim_lifecycle(
        &mut land,
        &owner,
        1,
        &request(ClaimLifecycleAction::Request, None),
    )
    .claim
    .unwrap()
    .claim_id;
    let stranger = ctx("approval-stranger", 0);
    let refused = claim_lifecycle(
        &mut land,
        &stranger,
        1,
        &request(ClaimLifecycleAction::Approve, Some(&claim_id)),
    );
    assert!(!refused.accepted);
    assert_eq!(
        refused.reason.as_deref(),
        Some("The lease-holder or Settlement Steward must approve the claim.")
    );
    let mut steward = ctx("approval-steward", 0);
    steward.actor_is_steward = true;
    let approved = claim_lifecycle(
        &mut land,
        &steward,
        1,
        &request(ClaimLifecycleAction::Approve, Some(&claim_id)),
    );
    assert!(approved.accepted);
    assert_eq!(approved.note, Some(ClaimNote::Approved));
    let claim = approved.claim.unwrap();
    assert_eq!(claim.approved_by.as_deref(), Some("approval-steward"));
    assert_eq!(claim.started_at_unix_seconds, NOW);
    assert_eq!(claim.expires_at_unix_seconds, NOW + NINETY_DAYS);
}

#[test]
fn abandoned_land_returns_to_the_registry_after_the_grace_period() {
    let mut land = registry();
    let owner = ctx("grace-owner", 5);
    let claim = claim_lifecycle(
        &mut land,
        &owner,
        4,
        &request(ClaimLifecycleAction::Request, None),
    )
    .claim
    .unwrap();
    assert_eq!(land.available_plots.len(), 1);
    claim_lifecycle(
        &mut land,
        &owner,
        4,
        &request(ClaimLifecycleAction::Abandon, Some(&claim.claim_id)),
    );
    assert!(reclaim_claims(&mut land, 8, 4).is_empty());
    assert_eq!(reclaim_claims(&mut land, 9, 4), vec![claim.claim_id.clone()]);
    assert_eq!(find(&land, &claim.claim_id).status, ClaimLifecycleStatus::Reclaimed);
    assert_eq!(land.available_plots.last(), Some(&claim.position));
}

#[test]
fn restoring_gives_saved_active_leases_a_real_time_term() {
    let mut active = reclaimed_claim(1);
    active.status = ClaimLifecycleStatus::Active;
    active.lease_days = 3;
    let mut dated = reclaimed_claim(2);
    dated.status = ClaimLifecycleStatus::Renewed;
    dated.started_at_unix_seconds = 10;
    dated.expires_at_unix_seconds = 20;
    let mut requested = reclaimed_claim(3);
    requested.status = ClaimLifecycleStatus::Requested;
    let mut claims = vec![active, dated, requested, reclaimed_claim(4)];
    restore_claims(&mut claims, 2 * SECONDS_PER_DAY + 5, NOW);

    assert!(claims.iter().all(|claim| claim.lease_days == 2));
    assert_eq!(claims[0].started_at_unix_seconds, NOW);
    assert_eq!(claims[0].expires_at_unix_seconds, NOW + 2 * SECONDS_PER_DAY + 5);
    assert_eq!(claims[1].started_at_unix_seconds, 10);
    assert_eq!(claims[1].expires_at_unix_seconds, 20);
    assert_eq!(claims[2].expires_at_unix_seconds, 0);
    assert_eq!(claims[3].expires_at_unix_seconds, 0);

    let mut late = vec![reclaimed_claim(5)];
    late[0].status = ClaimLifecycleStatus::Inherited;
    restore_claims(&mut late, 0, u64::MAX);
    assert_eq!(late[0].lease_days, 1);
    assert_eq!(late[0].expires_at_unix_seconds, u64::MAX);
}

#[test]
fn claim_selectors_reject_unbounded_or_controlled_ids() {
    for claim_id in ["x".repeat(161), "claim\nwith-control".to_owned()] {
        let error = validate_claim_request(ClaimLifecycleAction::Inspect, Some(&claim_id), None)
            .expect_err("invalid claim selector should be rejected");
        assert_eq!(error.status, 400);
        assert_eq!(error.error.code, "invalid_claim_id");
    }
    let error = validate_claim_request(ClaimLifecycleAction::Transfer, Some("lease-1"), Some("to\u{7}ken"))
        .expect_err("invalid target should be rejected");
    assert_eq!(error.error.code, "invalid_target_account_id");
    let ok = validate_claim_request(ClaimLifecycleAction::Transfer, Some("  lease-1 "), None).unwrap();
    assert_eq!(ok.claim_id.as_deref(), Some("lease-1"));
    assert_eq!(ok.target_account_id, None);
}

#[test]
fn accepted_registry_commands_are_chronicled() {
    let requested = claim_entry(ClaimNote::Requested, "Ada");
    assert_eq!(requested.kind, "lease requested");
    assert_eq!(requested.text, "Ada requested a lease; approval is still visible in the registry.");
    assert_eq!(
        claim_entry(ClaimNote::Inherited, "Ada").text,
        "The registry recorded a bounded inheritance of a recognised lease."
    );
    assert_eq!(
        lapse_entry("lease-4", false).text,
        "Claim lease-4 expired without deleting the character or protected stored goods."
    );
    assert_eq!(lapse_entry("lease-4", true).kind, "lease reclaimed");
}

#[test]
fn a_retried_registry_command_is_answered_once_and_chronicled_once() {
    let mut land = registry();
    let owner = ctx("retry-owner", 4);
    let mut cache: ReplayCache<tarrowyn_repository::claims::ClaimLifecycleResponse> = ReplayCache::new();
    let mut chronicle = Chronicle { live: VecDeque::new(), archive: Vec::new(), next_event_id: 1, max_live: 64 };
    let mut log: EventLog<ChronicleEntry> = EventLog::new(256);
    let mut counters = CommandCounters { completed: 0, rejected: 0 };

    let bad = run_claim_command(
        &mut land, &mut cache, &mut chronicle, &mut log, |e| e, &mut counters, &owner, 10,
        "bad\nid", ClaimLifecycleAction::Request, None, None,
    )
    .unwrap_err();
    assert_eq!(bad.error.code, "invalid_request_id");

    let first = run_claim_command(
        &mut land, &mut cache, &mut chronicle, &mut log, |e| e, &mut counters, &owner, 10,
        "req-1", ClaimLifecycleAction::Request, None, None,
    )
    .unwrap();
    assert!(first.accepted);
    let again = run_claim_command(
        &mut land, &mut cache, &mut chronicle, &mut log, |e| e, &mut counters, &owner, 10,
        "req-1", ClaimLifecycleAction::Request, None, None,
    )
    .unwrap();
    assert_eq!(again.claim.as_ref().unwrap().claim_id, first.claim.as_ref().unwrap().claim_id);
    assert_eq!(land.claims.len(), 1);
    assert_eq!(counters.completed, 1);
    assert_eq!(chronicle.live.len(), 1);
    assert_eq!(chronicle.live[0].kind, "lease requested");
    assert_eq!(chronicle.live[0].text, "retry-owner name requested a lease; approval is still visible in the registry.");
    assert_eq!(log.cursor, 1);

    let refused = run_claim_command(
        &mut land, &mut cache, &mut chronicle, &mut log, |e| e, &mut counters, &owner, 10,
        "req-2", ClaimLifecycleAction::Renew, Some("lease-404"), None,
    )
    .unwrap();
    assert!(!refused.accepted);
    assert_eq!(counters.rejected, 1);
    assert_eq!(chronicle.live.len(), 1);
}
