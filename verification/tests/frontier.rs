use std::collections::VecDeque;
use tarrowyn_repository::adventurer::{profile, AdventurerRank};
use tarrowyn_repository::chronicle::{record_entry, Chronicle, ChronicleEntry};
use tarrowyn_repository::events::EventLog;
use tarrowyn_repository::errors::validate_optional_identifier;
use tarrowyn_repository::frontier::{
    backfill_expedition_credentials, expedition_action, expedition_entry, trim_expedition_members,
    validate_expedition_request, validate_outpost_name, Expedition, ExpeditionAction, ExpeditionMember, ExpeditionNote,
    ExpeditionRequest, ExpeditionRequirements, ExpeditionRole, ExpeditionStatus, Frontier,
    Position, MAX_EXPEDITION_MEMBERS,
};

fn requirements() -> ExpeditionRequirements {
    ExpeditionRequirements { food: 6, tools: 3, materials: 8, safety: 3 }
}

fn request(action: ExpeditionAction, id: Option<&str>, role: Option<ExpeditionRole>) -> ExpeditionRequest {
    ExpeditionRequest {
        action,
        expedition_id: id.map(|s| s.to_owned()),
        role,
        food: 0,
        tools: 0,
        materials: 0,
        safety: 0,
        outpost_name: None,
    }
}

fn empty_frontier() -> Frontier {
    Frontier { expedition: None, credentials: Vec::new(), outpost: None }
}

fn act(frontier: &mut Frontier, actor: &str, request: &ExpeditionRequest) -> tarrowyn_repository::frontier::ExpeditionResponse {
    expedition_action(frontier, &actor.to_owned(), &format!("{actor} name"), request, &requirements())
}

fn announced(leader: &str) -> Frontier {
    let mut frontier = empty_frontier();
    let response = act(
        &mut frontier,
        leader,
        &request(ExpeditionAction::Announce, None, Some(ExpeditionRole::Scout)),
    );
    assert!(response.accepted);
    frontier
}

fn member(account: &str, role: ExpeditionRole) -> ExpeditionMember {
    ExpeditionMember { account_id: account.to_owned(), display_name: format!("{account} name"), role }
}

#[test]
fn expedition_rejects_unbounded_or_controlled_outpost_names() {
    for outpost_name in ["x".repeat(81), "Lantern\nRest".to_owned()] {
        let error = validate_outpost_name(Some(outpost_name.as_str()))
            .expect_err("malformed outpost name should be rejected");
        assert_eq!(error.status, 400);
        assert_eq!(error.error.code, "invalid_outpost_name");
        let error = validate_expedition_request(
            ExpeditionAction::Announce,
            None,
            None,
            0,
            0,
            0,
            0,
            Some(outpost_name.as_str()),
        )
        .expect_err("malformed outpost name should be rejected");
        assert_eq!(error.status, 400);
        assert_eq!(error.error.code, "invalid_outpost_name");
    }
}

#[test]
fn expedition_announcement_emits_one_frontier_event() {
    let mut frontier = empty_frontier();
    let response = act(
        &mut frontier,
        "leader",
        &request(ExpeditionAction::Announce, None, Some(ExpeditionRole::Scout)),
    );
    assert!(response.accepted);
    assert_eq!(response.note, Some(ExpeditionNote::Announced));
    assert_eq!(frontier.expedition.as_ref().unwrap().expedition_id, "pioneer-1");
}

#[test]
fn expedition_actions_reject_stale_selectors_without_mutating_the_registry() {
    let mut frontier = announced("leader");
    for action in [
        ExpeditionAction::Join,
        ExpeditionAction::Supply,
        ExpeditionAction::Launch,
        ExpeditionAction::Resolve,
    ] {
        let mut stale = request(action, Some("pioneer-old"), Some(ExpeditionRole::Builder));
        stale.food = 6;
        stale.tools = 3;
        stale.materials = 8;
        stale.safety = 3;
        let response = act(&mut frontier, "member", &stale);
        assert!(!response.accepted);
        assert_eq!(response.reason.as_deref(), Some("That expedition is no longer current."));
    }
    let expedition = frontier.expedition.expect("current expedition");
    assert_eq!(expedition.expedition_id, "pioneer-1");
    assert_eq!(expedition.members.len(), 1);
    assert_eq!(expedition.food, 0);
    assert_eq!(expedition.status, ExpeditionStatus::Planning);
}

#[test]
fn expedition_launch_and_resolve_require_party_membership() {
    let mut frontier = announced("leader");
    for (actor, role) in [("farmer", ExpeditionRole::Farmer), ("builder", ExpeditionRole::Builder)] {
        assert!(act(&mut frontier, actor, &request(ExpeditionAction::Join, Some("pioneer-1"), Some(role))).accepted);
    }
    let outsider_launch = act(&mut frontier, "outsider", &request(ExpeditionAction::Launch, Some("pioneer-1"), None));
    assert!(!outsider_launch.accepted);
    assert_eq!(outsider_launch.reason.as_deref(), Some("Join the pioneer party before launching it."));

    let leader_launch = act(&mut frontier, "leader", &request(ExpeditionAction::Launch, Some("pioneer-1"), None));
    assert!(leader_launch.accepted);

    let outsider_resolve = act(&mut frontier, "outsider", &request(ExpeditionAction::Resolve, Some("pioneer-1"), None));
    assert!(!outsider_resolve.accepted);
    assert_eq!(outsider_resolve.reason.as_deref(), Some("Join the pioneer party before resolving it."));
    assert_eq!(outsider_resolve.expedition.expect("current expedition").status, ExpeditionStatus::Launched);
}

#[test]
fn poorly_prepared_expedition_can_retreat_without_founding_an_outpost() {
    let mut frontier = announced("leader");
    for (actor, role) in [("farmer", ExpeditionRole::Farmer), ("builder", ExpeditionRole::Builder)] {
        assert!(act(&mut frontier, actor, &request(ExpeditionAction::Join, Some("pioneer-1"), Some(role))).accepted);
    }
    let launch = act(&mut frontier, "leader", &request(ExpeditionAction::Launch, Some("pioneer-1"), None));
    assert!(launch.accepted);

    let resolved = act(&mut frontier, "leader", &request(ExpeditionAction::Resolve, Some("pioneer-1"), None));
    assert!(resolved.accepted);
    let expedition = resolved.expedition.expect("retreat projection");
    assert_eq!(expedition.status, ExpeditionStatus::Retreated);
    assert!(expedition.outcome.as_deref().is_some_and(|outcome| outcome.contains("retreat")));
    assert!(frontier.outpost.is_none());
    assert_eq!(resolved.note, Some(ExpeditionNote::Retreated));

    let mut chronicle = Chronicle {
        live: VecDeque::new(),
        archive: Vec::new(),
        next_event_id: 1,
        max_live: 64,
    };
    let mut log: EventLog<ChronicleEntry> = EventLog::new(256);
    for note in [launch.note, resolved.note] {
        record_entry(&mut chronicle, &mut log, |e| e, &expedition_entry(note.unwrap()), 1);
    }
    assert_eq!(
        chronicle.live.back().expect("retreat chronicle entry").title,
        "The pioneer party returns before the outpost is founded"
    );
}

fn member_list_stays_bounded() {
    let mut frontier = announced("leader");
    for index in 1..MAX_EXPEDITION_MEMBERS {
        let joined = act(
            &mut frontier,
            &format!("expedition-member-{index}"),
            &request(ExpeditionAction::Join, Some("pioneer-1"), Some(ExpeditionRole::Builder)),
        );
        assert!(joined.accepted);
    }
    let rejected = act(
        &mut frontier,
        "expedition-member-overflow",
        &request(ExpeditionAction::Join, Some("pioneer-1"), Some(ExpeditionRole::Farmer)),
    );
    assert!(!rejected.accepted);
    assert!(rejected.reason.as_deref().is_some_and(|reason| reason.contains("20-member")));
    assert_eq!(rejected.expedition.expect("expedition projection").members.len(), MAX_EXPEDITION_MEMBERS);
}

fn oversized_record_keeps_a_leader_window() {
    let mut frontier = Frontier {
        expedition: Some(Expedition {
            expedition_id: "legacy-pioneer".to_owned(),
            outpost_name: "Legacy Rest".to_owned(),
            leader_account_id: "account-outside-window".to_owned(),
            members: (0..=MAX_EXPEDITION_MEMBERS)
                .map(|index| ExpeditionMember {
                    account_id: format!("account-{index}"),
                    display_name: format!("Member {index}"),
                    role: ExpeditionRole::Builder,
                })
                .collect(),
            food: 6,
            tools: 3,
            materials: 8,
            safety: 3,
            status: ExpeditionStatus::Planning,
            outcome: None,
            outpost_position: Position { x: 14, y: 8 },
        }),
        credentials: Vec::new(),
        outpost: None,
    };
    trim_expedition_members(&mut frontier);
    let expedition = frontier.expedition.expect("legacy expedition");
    assert_eq!(expedition.members.len(), MAX_EXPEDITION_MEMBERS);
    assert_eq!(expedition.leader_account_id, "account-0");
    assert!(expedition.members.iter().any(|member| member.account_id == expedition.leader_account_id));
}

#[test]
fn expedition_supply_totals_remain_bounded_across_actions() {
    let mut frontier = announced("leader");
    for _ in 0..2 {
        let mut supply = request(ExpeditionAction::Supply, Some("pioneer-1"), None);
        supply.food = u32::MAX;
        supply.tools = u32::MAX;
        supply.materials = u32::MAX;
        supply.safety = u32::MAX;
        let response = act(&mut frontier, "leader", &supply);
        assert!(response.accepted);
        let expedition = response.expedition.expect("expedition projection");
        assert_eq!(expedition.food, 99);
        assert_eq!(expedition.tools, 99);
        assert_eq!(expedition.materials, 99);
        assert_eq!(expedition.safety, 99);
    }
}

#[test]
fn expedition_completion_records_a_credential_beyond_the_current_expedition() {
    let mut frontier = empty_frontier();
    frontier.expedition = Some(Expedition {
        expedition_id: "history-expedition".to_owned(),
        outpost_name: "Lantern Rest".to_owned(),
        leader_account_id: "history".to_owned(),
        members: vec![
            member("history", ExpeditionRole::Scout),
            member("farmer", ExpeditionRole::Farmer),
            member("builder", ExpeditionRole::Builder),
        ],
        food: 6,
        tools: 3,
        materials: 8,
        safety: 3,
        status: ExpeditionStatus::Launched,
        outcome: None,
        outpost_position: Position { x: 14, y: 8 },
    });
    let response = act(&mut frontier, "history", &request(ExpeditionAction::Resolve, Some("history-expedition"), None));
    assert!(response.accepted);
    frontier.expedition = None;
    let (_, credentials) = profile(&"history".to_owned(), 0, &frontier.credentials, 0);
    assert_eq!(credentials, vec!["Lantern Rest expedition".to_owned()]);
}

#[test]
fn legacy_succeeded_expedition_is_backfilled_before_rotation() {
    let mut frontier = empty_frontier();
    frontier.expedition = Some(Expedition {
        expedition_id: "legacy-expedition".to_owned(),
        outpost_name: "Lantern Rest".to_owned(),
        leader_account_id: "legacy".to_owned(),
        members: vec![member("legacy", ExpeditionRole::Scout)],
        food: 0,
        tools: 0,
        materials: 0,
        safety: 0,
        status: ExpeditionStatus::Succeeded,
        outcome: Some("The old outpost stands.".to_owned()),
        outpost_position: Position { x: 14, y: 8 },
    });
    let mut replacement_request = request(ExpeditionAction::Announce, None, Some(ExpeditionRole::Scout));
    replacement_request.outpost_name = Some("Second Lantern Rest".to_owned());
    let replacement = act(&mut frontier, "legacy", &replacement_request);
    assert!(replacement.accepted);
    frontier.expedition = None;
    let (_, credentials) = profile(&"legacy".to_owned(), 0, &frontier.credentials, 0);
    assert_eq!(credentials, vec!["Lantern Rest expedition".to_owned()]);
}

#[test]
fn expedition_selector_rejects_unbounded_or_controlled_ids() {
    let error = validate_optional_identifier(
        Some("expedition\nwith-control"),
        "invalid_expedition_id",
        "An expedition selector must be bounded and contain no control characters.",
    )
    .expect_err("invalid expedition selector should be rejected");
    assert_eq!(error.status, 400);
    assert_eq!(error.error.code, "invalid_expedition_id");
    for expedition_id in ["x".repeat(161), "expedition\nwith-control".to_owned()] {
        let error = validate_expedition_request(
            ExpeditionAction::Join,
            Some(expedition_id.as_str()),
            None,
            0,
            0,
            0,
            0,
            None,
        )
        .expect_err("invalid expedition selector should be rejected");
        assert_eq!(error.status, 400);
        assert_eq!(error.error.code, "invalid_expedition_id");
    }
    let joined = validate_expedition_request(
        ExpeditionAction::Join,
        Some(" pioneer-1 "),
        Some(ExpeditionRole::Farmer),
        1,
        2,
        3,
        4,
        Some("ignored\n"),
    )
    .unwrap();
    assert_eq!(joined.expedition_id.as_deref(), Some("pioneer-1"));
    assert_eq!(joined.outpost_name, None);
    assert_eq!(joined.food, 1);
    let announced = validate_expedition_request(ExpeditionAction::Announce, None, None, 0, 0, 0, 0, Some("  Lantern Rest "))
        .unwrap();
    assert_eq!(announced.outpost_name.as_deref(), Some("Lantern Rest"));
}

#[test]
fn backfill_credits_each_member_of_a_succeeded_expedition_once() {
    let mut frontier = empty_frontier();
    frontier.credentials = vec!["a".to_owned()];
    frontier.expedition = Some(Expedition {
        expedition_id: "pioneer-1".to_owned(),
        outpost_name: "Lantern Rest".to_owned(),
        leader_account_id: "a".to_owned(),
        members: vec![member("a", ExpeditionRole::Scout), member("b", ExpeditionRole::Farmer)],
        food: 0,
        tools: 0,
        materials: 0,
        safety: 0,
        status: ExpeditionStatus::Succeeded,
        outcome: None,
        outpost_position: Position { x: 14, y: 8 },
    });
    backfill_expedition_credentials(&mut frontier);
    backfill_expedition_credentials(&mut frontier);
    assert_eq!(frontier.credentials, vec!["a".to_owned(), "b".to_owned()]);
}

#[test]
fn a_supplied_party_founds_its_outpost_and_credits_its_members() {
    let mut frontier = announced("leader");
    for (actor, role) in [("farmer", ExpeditionRole::Farmer), ("builder", ExpeditionRole::Builder)] {
        assert!(act(&mut frontier, actor, &request(ExpeditionAction::Join, Some("pioneer-1"), Some(role))).accepted);
    }
    let mut supply = request(ExpeditionAction::Supply, Some("pioneer-1"), None);
    supply.food = 6;
    supply.tools = 3;
    supply.materials = 8;
    supply.safety = 3;
    assert!(act(&mut frontier, "farmer", &supply).accepted);
    assert!(act(&mut frontier, "leader", &request(ExpeditionAction::Launch, Some("pioneer-1"), None)).accepted);
    let resolved = act(&mut frontier, "builder", &request(ExpeditionAction::Resolve, Some("pioneer-1"), None));
    assert!(resolved.accepted);
    assert_eq!(resolved.note, Some(ExpeditionNote::OutpostFounded));
    assert_eq!(resolved.expedition.unwrap().status, ExpeditionStatus::Succeeded);
    assert_eq!(frontier.outpost, Some(Position { x: 14, y: 8 }));
    assert_eq!(frontier.credentials, vec!["leader".to_owned(), "farmer".to_owned(), "builder".to_owned()]);
    let (rank, _) = profile(&"farmer".to_owned(), 1, &frontier.credentials, 0);
    assert_eq!(rank, AdventurerRank::Pathfinder);
}

#[test]
fn tests_pioneer_expedition_keeps_its_durable_member_list_bounded() {
    member_list_stays_bounded();
}

#[test]
fn expedition_limits_pioneer_expedition_keeps_its_durable_member_list_bounded() {
    member_list_stays_bounded();
}

#[test]
fn tests_loading_an_oversized_pioneer_record_keeps_a_valid_leader_window() {
    oversized_record_keeps_a_leader_window();
}

#[test]
fn expedition_limits_loading_an_oversized_pioneer_record_keeps_a_valid_leader_window() {
    oversized_record_keeps_a_leader_window();
}
