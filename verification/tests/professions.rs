use tarrowyn_repository::professions::{
    default_materials, default_profiles, profession_entry, profession_order, remember_credential,
    validate_profession_request, MaterialStock,
    Practitioner, ProfessionAction, ProfessionKind, ProfessionNote, ProfessionRequest,
    ServiceBoard, ServiceOrder, ServiceOrderStatus, ServiceRecipe,
};

fn recipe() -> ServiceRecipe {
    ServiceRecipe {
        profession: ProfessionKind::Carpenter,
        service: "Repair a field tool".to_owned(),
        materials: MaterialStock { wood: 1, iron: 1, cloth: 0, bandages: 0, tools: 0 },
        tools_required: 1,
        reward_gold: 5,
        benefit: "The requester gets a reliable tool back for field work.".to_owned(),
    }
}

fn practitioner(account: &str) -> Practitioner {
    Practitioner {
        account_id: account.to_owned(),
        display_name: format!("{account} name"),
        profiles: default_profiles(),
        materials: default_materials(),
        credentials: Vec::new(),
        gold: 0,
        skill: 0,
    }
}

fn service_order(index: usize, status: ServiceOrderStatus) -> ServiceOrder {
    ServiceOrder {
        order_id: format!("service-order-{index}"),
        requester_account_id: "other-account".to_owned(),
        requester_name: "Resident".to_owned(),
        provider_account_id: None,
        provider_name: None,
        service: "Repair the farmer's field tool".to_owned(),
        required_profession: ProfessionKind::Carpenter,
        materials: MaterialStock { wood: 1, iron: 1, cloth: 0, bandages: 0, tools: 1 },
        tools_required: 1,
        reward_gold: 8,
        benefit: "The requesting field tool returns to working condition.".to_owned(),
        status,
        quality: if status == ServiceOrderStatus::Completed { 100 } else { 0 },
        created_tick: index as u64,
        completed_tick: (status == ServiceOrderStatus::Completed).then_some(index as u64),
    }
}

fn create_request() -> ProfessionRequest {
    ProfessionRequest {
        action: ProfessionAction::CreateOrder,
        order_id: None,
        profession: Some(ProfessionKind::Carpenter),
        timing_score: None,
    }
}

#[test]
fn repeated_profession_work_keeps_one_matching_credential() {
    let mut credentials = vec!["completed Repair a field tool".to_owned()];
    remember_credential(&mut credentials, "completed Repair a field tool".to_owned());
    assert_eq!(credentials, vec!["completed Repair a field tool".to_owned()]);
}

#[test]
fn service_orders_use_the_validated_recipe_boundary() {
    let mut p = practitioner("phase4-recipe-authority");
    let mut board = ServiceBoard { orders: Vec::new(), next_order_id: 1 };
    let rejected = profession_order(
        &mut p,
        &mut board,
        &recipe(),
        0,
        &ProfessionRequest {
            action: ProfessionAction::CreateOrder,
            order_id: None,
            profession: Some(ProfessionKind::Steward),
            timing_score: None,
        },
    );
    assert!(!rejected.accepted);
    assert!(rejected.reason.unwrap().contains("Carpenter"));

    let accepted = profession_order(
        &mut p,
        &mut board,
        &recipe(),
        0,
        &ProfessionRequest {
            action: ProfessionAction::CreateOrder,
            order_id: None,
            profession: None,
            timing_score: None,
        },
    );
    let order = accepted.order.expect("the order should be returned");
    assert_eq!(order.required_profession, ProfessionKind::Carpenter);
    assert_eq!(order.service, "Repair a field tool");
    assert_eq!(order.reward_gold, 5);
    assert!(order.benefit.contains("reliable tool"));
}

#[test]
fn service_order_history_evicts_settled_records_and_preserves_live_escrow() {
    let mut p = practitioner("phase4-service-retention");
    let mut board = ServiceBoard {
        orders: (0..64).map(|index| service_order(index, ServiceOrderStatus::Completed)).collect(),
        next_order_id: 64,
    };
    let created = profession_order(&mut p, &mut board, &recipe(), 0, &create_request());
    assert!(created.accepted);
    assert_eq!(board.orders.len(), 64);
    assert!(!board.orders.iter().any(|order| order.order_id == "service-order-0"));
    assert!(board.orders.iter().any(|order| order.order_id == "service-order-64"));

    board.orders = (0..64).map(|index| service_order(index, ServiceOrderStatus::Open)).collect();
    let blocked = profession_order(&mut p, &mut board, &recipe(), 0, &create_request());
    assert!(!blocked.accepted);
    assert!(blocked.reason.as_deref().is_some_and(|reason| reason.contains("board is full")));
    assert_eq!(p.materials, MaterialStock { wood: 2, iron: 1, cloth: 1, bandages: 1, tools: 0 });
    assert_eq!(board.orders.len(), 64);
}

#[test]
fn service_order_id_stays_at_the_numeric_ceiling() {
    let mut p = practitioner("service-order-id-ceiling");
    let mut board = ServiceBoard { orders: Vec::new(), next_order_id: u64::MAX };
    let response = profession_order(&mut p, &mut board, &recipe(), 0, &create_request());
    assert!(response.accepted);
    assert_eq!(response.order.expect("created service order").order_id, format!("service-order-{}", u64::MAX));
    assert_eq!(board.next_order_id, u64::MAX);
}

#[test]
fn profession_selectors_reject_unbounded_or_controlled_ids() {
    let long = "x".repeat(161);
    let cases = [
        (Some(long.as_str()), None, "invalid_order_id"),
        (None, Some("capability\nwith-control"), "invalid_capability_id"),
    ];
    for (order_id, capability_id, expected_code) in cases {
        let error = validate_profession_request(
            ProfessionAction::Inspect,
            order_id,
            Some(ProfessionKind::Carpenter),
            capability_id,
            None,
        )
        .expect_err("invalid profession selector should be rejected");
        assert_eq!(error.status, 400);
        assert_eq!(error.error.code, expected_code);
    }
    let ok = validate_profession_request(
        ProfessionAction::AcceptOrder,
        Some(" service-order-3 "),
        None,
        Some("carpentry"),
        Some(40),
    )
    .expect("bounded selectors are accepted");
    assert_eq!(ok.order_id.as_deref(), Some("service-order-3"));
    assert_eq!(ok.timing_score, Some(40));
}

#[test]
fn profession_inspection_projects_defaults_without_materializing_player_state() {
    let profiles = default_profiles();
    assert_eq!(profiles.len(), 1);
    assert_eq!(profiles[0].profession, ProfessionKind::Farmer);
    assert_eq!(default_materials().wood, 3);
}

#[test]
fn professions_knowledge_and_households_make_the_settlement_interdependent() {
    let mut requester = practitioner("phase4-requester");
    let mut provider = practitioner("phase4-provider");
    let mut board = ServiceBoard { orders: Vec::new(), next_order_id: 1 };
    let order = profession_order(&mut requester, &mut board, &recipe(), 0, &create_request())
        .order
        .unwrap();
    let learn = ProfessionRequest {
        action: ProfessionAction::LearnCapability,
        order_id: None,
        profession: Some(ProfessionKind::Carpenter),
        timing_score: None,
    };
    assert!(profession_order(&mut provider, &mut board, &recipe(), 0, &learn).accepted);
    let accept = ProfessionRequest {
        action: ProfessionAction::AcceptOrder,
        order_id: Some(order.order_id.clone()),
        profession: None,
        timing_score: None,
    };
    assert!(profession_order(&mut provider, &mut board, &recipe(), 0, &accept).accepted);
    let invalid_timing = profession_order(
        &mut provider,
        &mut board,
        &recipe(),
        0,
        &ProfessionRequest {
            action: ProfessionAction::CompleteOrder,
            order_id: Some(order.order_id.clone()),
            profession: None,
            timing_score: Some(101),
        },
    );
    assert!(!invalid_timing.accepted);
    assert!(invalid_timing
        .reason
        .as_deref()
        .is_some_and(|reason| reason.contains("0 to 100")));
    let completed = profession_order(
        &mut provider,
        &mut board,
        &recipe(),
        0,
        &ProfessionRequest {
            action: ProfessionAction::CompleteOrder,
            order_id: Some(order.order_id),
            profession: None,
            timing_score: Some(100),
        },
    );
    assert_eq!(
        completed.order.unwrap().quality,
        100,
        "a centered timing result reaches the server's quality ceiling"
    );
    assert_eq!(completed.restores_field_tool_of, Some("phase4-requester".to_owned()));
}

#[test]
fn a_service_order_is_answered_by_another_credentialed_role() {
    let mut requester = practitioner("requester");
    let mut carpenter = practitioner("carpenter");
    let mut board = ServiceBoard { orders: Vec::new(), next_order_id: 1 };
    let created = profession_order(&mut requester, &mut board, &recipe(), 3, &create_request());
    let order_id = created.order.unwrap().order_id;

    let own = profession_order(
        &mut requester,
        &mut board,
        &recipe(),
        4,
        &ProfessionRequest { action: ProfessionAction::AcceptOrder, order_id: Some(order_id.clone()), profession: None, timing_score: None },
    );
    assert!(!own.accepted);

    let unqualified = profession_order(
        &mut carpenter,
        &mut board,
        &recipe(),
        4,
        &ProfessionRequest { action: ProfessionAction::AcceptOrder, order_id: Some(order_id.clone()), profession: None, timing_score: None },
    );
    assert!(!unqualified.accepted);

    let learned = profession_order(
        &mut carpenter,
        &mut board,
        &recipe(),
        4,
        &ProfessionRequest { action: ProfessionAction::LearnCapability, order_id: None, profession: Some(ProfessionKind::Carpenter), timing_score: None },
    );
    assert!(learned.accepted);
    assert_eq!(learned.note, Some(ProfessionNote::CapabilityLearned(ProfessionKind::Carpenter)));
    assert_eq!(carpenter.credentials, vec!["Carpenter apprentice credential".to_owned()]);

    let accepted = profession_order(
        &mut carpenter,
        &mut board,
        &recipe(),
        5,
        &ProfessionRequest { action: ProfessionAction::AcceptOrder, order_id: Some(order_id.clone()), profession: None, timing_score: None },
    );
    assert!(accepted.accepted);
    let completed = profession_order(
        &mut carpenter,
        &mut board,
        &recipe(),
        6,
        &ProfessionRequest { action: ProfessionAction::CompleteOrder, order_id: Some(order_id.clone()), profession: None, timing_score: Some(100) },
    );
    assert!(completed.accepted);
    assert_eq!(completed.note, Some(ProfessionNote::OrderCompleted));
    assert_eq!(carpenter.gold, 5);
    assert_eq!(carpenter.skill, 1);
    assert!(carpenter.credentials.contains(&"completed Repair a field tool".to_owned()));
    assert_eq!(completed.restores_field_tool_of, Some("requester".to_owned()));
    let order = completed.order.unwrap();
    assert_eq!(order.status, ServiceOrderStatus::Completed);
    assert_eq!(order.quality, 100);
    assert_eq!(order.completed_tick, Some(6));
}

#[test]
fn accepted_profession_commands_are_chronicled() {
    let learned = profession_entry(ProfessionNote::CapabilityLearned(ProfessionKind::Smith), "Ada", "", 0);
    assert_eq!(learned.text, "Ada learned the Smith capability; a new character can now enter that order.");
    let done = profession_entry(ProfessionNote::OrderCompleted, "Bo", "field tool repair", 88);
    assert_eq!(done.kind, "service order completed");
    assert_eq!(done.text, "Bo completed field tool repair at 88 quality; the requesting role receives the listed benefit.");
}
