use tarrowyn_repository::adventurer::{profile, AdventurerRank};
use tarrowyn_repository::frontier::{ExpeditionStatus, Position};
use tarrowyn_repository::combat::Combatant;
use tarrowyn_repository::watch::{
    contract_command, contract_view, expedition_reminder_due, face_threat, frontier_beat,
    movement_blocked, normalize_opportunity_score,
    refresh_contract, rumours, Adventurer, ContractAction, ContractNote, ContractProgress,
    ContractStatus, ContractTemplate, ContractTerms, FieldPractice, FrontierPressure,
    HouseholdStatus, HouseholdTransition, OpportunitySignal, ThreatAction, ThreatRequest,
    ThreatResult, WildernessZone,
};

const TERMS: ContractTerms = ContractTerms { required_progress: 3, reward_gold: 5 };

fn fresh_contract() -> ContractProgress {
    ContractProgress {
        progress: 0,
        status: ContractStatus::Available,
        completion_count: 0,
        available_at_tick: 0,
    }
}

fn adventurer() -> Adventurer {
    Adventurer { position: Position { x: 8, y: 5 }, gold: 12, skill: 0, reputation: 0 }
}

#[test]
fn completing_a_watch_earns_a_trailhand_credential() {
    let mut contract = fresh_contract();
    let mut a = adventurer();
    let accepted = contract_command(&mut contract, &mut a, TERMS, "brambleback-watch", 1, ContractAction::Accept)
        .expect("a bounded selector");
    assert_eq!(accepted.note, Some(ContractNote::Accepted));

    a.position = Position { x: 10, y: 4 };
    for _ in 0..3 {
        let step = contract_command(&mut contract, &mut a, TERMS, "brambleback-watch", 2, ContractAction::Progress)
            .expect("a bounded selector");
        assert!(step.accepted);
        assert_eq!(step.practice, Some(FieldPractice::Navigation));
    }
    let report = contract_command(&mut contract, &mut a, TERMS, "brambleback-watch", 3, ContractAction::Report)
        .expect("a bounded selector");
    assert_eq!(report.note, Some(ContractNote::Reported));
    assert_eq!(contract.completion_count, 1);
    assert_eq!(a.gold, 17);

    let (rank, credentials) = profile(&"adventurer-rank".to_owned(), contract.completion_count, &Vec::new(), a.reputation);
    assert_eq!(rank, AdventurerRank::Trailhand);
    assert_eq!(credentials, vec!["Brambleback watch report".to_owned()]);
}

#[test]
fn contract_selector_rejects_unbounded_or_controlled_ids() {
    for contract_id in ["x".repeat(161), "contract\nwith-control".to_owned()] {
        let mut contract = fresh_contract();
        let mut a = adventurer();
        let error = contract_command(&mut contract, &mut a, TERMS, &contract_id, 1, ContractAction::Accept)
            .expect_err("invalid contract selector should be rejected");
        assert_eq!(error.status, 400);
        assert_eq!(error.error.code, "invalid_contract_id");
        assert_eq!(contract, fresh_contract());
    }
}

#[test]
fn a_reported_contract_rests_before_it_is_posted_again() {
    let mut contract = fresh_contract();
    let mut a = adventurer();
    a.position = Position { x: 11, y: 4 };
    contract_command(&mut contract, &mut a, TERMS, "brambleback-watch", 1, ContractAction::Accept).unwrap();
    let early = contract_command(&mut contract, &mut a, TERMS, "brambleback-watch", 1, ContractAction::Report).unwrap();
    assert_eq!(
        early.reason.as_deref(),
        Some("Three signs are needed before the tavern can pay the report.")
    );
    for _ in 0..4 {
        contract_command(&mut contract, &mut a, TERMS, "brambleback-watch", 1, ContractAction::Progress).unwrap();
    }
    assert_eq!(contract.progress, 3);
    contract_command(&mut contract, &mut a, TERMS, "brambleback-watch", 10, ContractAction::Report).unwrap();
    assert_eq!(contract.status, ContractStatus::Cooldown);
    assert_eq!(contract.available_at_tick, 12);
    let resting = contract_command(&mut contract, &mut a, TERMS, "brambleback-watch", 11, ContractAction::Accept).unwrap();
    assert!(!resting.accepted);
    refresh_contract(&mut contract, 11);
    assert_eq!(contract.status, ContractStatus::Cooldown);
    refresh_contract(&mut contract, 12);
    assert_eq!(contract.status, ContractStatus::Available);
    let unknown = contract_command(&mut contract, &mut a, TERMS, "missing-contract", 12, ContractAction::Accept).unwrap();
    assert_eq!(
        unknown.reason.as_deref(),
        Some("That contract is not written in the tavern ledger.")
    );
}

fn template() -> ContractTemplate {
    ContractTemplate {
        id: "brambleback-watch".to_owned(),
        title: "Brambleback watch".to_owned(),
        description: "Keep the trail clear.".to_owned(),
        target: "brambleback".to_owned(),
        required_progress: 3,
        reward_gold: 5,
    }
}

#[test]
fn the_board_shows_untouched_contracts_and_the_repeat_bonus() {
    let fresh = contract_view(&template(), None);
    assert_eq!(fresh.contract_id, "brambleback-watch");
    assert_eq!(fresh.progress, 0);
    assert_eq!(fresh.status, ContractStatus::Available);
    assert_eq!(fresh.reward_gold, 5);
    assert_eq!(fresh.available_at_tick, 0);

    let worked = ContractProgress {
        progress: 2,
        status: ContractStatus::Cooldown,
        completion_count: 3,
        available_at_tick: 40,
    };
    let seen = contract_view(&template(), Some(worked));
    assert_eq!(seen.reward_gold, 11);
    assert_eq!(seen.progress, 2);
    assert_eq!(seen.status, ContractStatus::Cooldown);
    assert_eq!(seen.completion_count, 3);
    assert_eq!(seen.available_at_tick, 40);

    let veteran = ContractProgress { completion_count: u32::MAX, ..worked };
    assert_eq!(contract_view(&template(), Some(veteran)).reward_gold, u32::MAX);
}

#[test]
fn rumours_pass_on_the_wild_the_household_and_the_expedition() {
    let zone = "Tracks circle the old well.".to_owned();
    let clue = "The Alder family lost a goat.".to_owned();
    let party = "The Oakward party".to_owned();
    assert_eq!(rumours(&zone, None, None), vec![zone.clone()]);
    assert_eq!(
        rumours(&zone, Some(&clue), Some((&party, ExpeditionStatus::Launched))),
        vec![
            zone.clone(),
            clue.clone(),
            "The Oakward party is Launched beyond the first road.".to_owned(),
        ]
    );
}

fn edge() -> WildernessZone {
    WildernessZone {
        position: Position { x: 14, y: 4 },
        threat_active: true,
        road_open: false,
        monster_health: 30,
        price_modifier_percent: 20,
    }
}

fn fighter(x: i32) -> Combatant {
    Combatant {
        position: Position { x, y: 4 },
        gold: 10,
        skill: 1,
        bandages: 0,
        seeds: 2,
        knocked_out: false,
        injuries: 0,
        recovery_cost: 0,
    }
}

#[test]
fn only_the_iron_sword_clears_the_brambleback() {
    let mut zone = edge();
    let mut far = fighter(10);
    let r = face_threat(&mut zone, &mut far, ThreatRequest { action: ThreatAction::Strike, with_iron_sword: true });
    assert_eq!(r.reason.as_deref(), Some("Stand near Whisperwood Edge before facing the threat."));
    assert!(zone.threat_active);

    let mut p = fighter(13);
    let retreat = face_threat(&mut zone, &mut p, ThreatRequest { action: ThreatAction::Retreat, with_iron_sword: false });
    assert_eq!(retreat.result, Some(ThreatResult::Retreated));
    assert_eq!(p, fighter(13));

    let loss = face_threat(&mut zone, &mut p, ThreatRequest { action: ThreatAction::Strike, with_iron_sword: false });
    assert_eq!(loss.result, Some(ThreatResult::KnockedOut));
    assert!(p.knocked_out);
    assert_eq!(p.injuries, 1);
    assert_eq!(p.recovery_cost, 3);
    assert_eq!(p.position, Position { x: 8, y: 5 });
    assert_eq!(p.seeds, 1);
    assert_eq!(zone, edge());

    let blocked = face_threat(&mut zone, &mut p, ThreatRequest { action: ThreatAction::Strike, with_iron_sword: true });
    assert_eq!(blocked.reason.as_deref(), Some("You are knocked out; tap Self, Rescuer, or Healer below."));

    let mut hero = fighter(14);
    let win = face_threat(&mut zone, &mut hero, ThreatRequest { action: ThreatAction::Strike, with_iron_sword: true });
    assert_eq!(win.result, Some(ThreatResult::Victory));
    assert!(!zone.threat_active);
    assert!(zone.road_open);
    assert_eq!(zone.monster_health, 0);
    assert_eq!(hero.gold, 15);
    assert_eq!(hero.skill, 3);

    let quiet = face_threat(&mut zone, &mut hero, ThreatRequest { action: ThreatAction::Retreat, with_iron_sword: false });
    assert_eq!(quiet.reason.as_deref(), Some("The Brambleback threat is already quiet."));
}

#[test]
fn the_frontier_household_arrives_under_demand_and_leaves_a_neglected_road() {
    let mut zone = edge();
    let mut pressure = FrontierPressure { unmet_demand_ticks: 0, poor_condition_ticks: 0 };
    let mut households = vec![OpportunitySignal {
        opportunity_score: 1,
        status: HouseholdStatus::Travelling,
        clue: "A mender is on the road.".to_owned(),
    }];
    assert_eq!(frontier_beat(&mut zone, &mut pressure, &mut households), None);
    assert_eq!(frontier_beat(&mut zone, &mut pressure, &mut households), None);
    assert_eq!(households[0].opportunity_score, 0);
    assert_eq!(
        frontier_beat(&mut zone, &mut pressure, &mut households),
        Some(HouseholdTransition::ArrivalCandidate)
    );
    assert_eq!(households[0].status, HouseholdStatus::Candidate);
    assert_eq!(households[0].opportunity_score, 0);
    assert_eq!(frontier_beat(&mut zone, &mut pressure, &mut households), None);
    assert_eq!(
        frontier_beat(&mut zone, &mut pressure, &mut households),
        Some(HouseholdTransition::Arrival)
    );
    assert_eq!(
        households[0].clue,
        "The Maren household has opened a small repair bench at the Hearth."
    );
    assert_eq!(pressure.unmet_demand_ticks, 5);
    let mut departed = None;
    for _ in 0..7 {
        departed = frontier_beat(&mut zone, &mut pressure, &mut households);
    }
    assert_eq!(departed, Some(HouseholdTransition::Departure));
    assert_eq!(households[0].status, HouseholdStatus::Departed);
    assert_eq!(zone.price_modifier_percent, 20);

    zone.threat_active = false;
    let mut none: Vec<OpportunitySignal> = Vec::new();
    assert_eq!(frontier_beat(&mut zone, &mut pressure, &mut none), None);
    assert_eq!(pressure.poor_condition_ticks, 0);
    assert_eq!(pressure.unmet_demand_ticks, 12);
    assert_eq!(zone.price_modifier_percent, 0);
}

#[test]
fn the_expedition_reminder_runs_every_fourth_beat_while_launched() {
    assert!(expedition_reminder_due(true, 8));
    assert!(!expedition_reminder_due(true, 9));
    assert!(!expedition_reminder_due(false, 8));
}

#[test]
fn saved_opportunity_scores_are_brought_into_range() {
    for (saved, expected) in [(-7i16, 0i16), (0, 0), (55, 55), (100, 100), (i16::MAX, 100)] {
        let mut score = saved;
        normalize_opportunity_score(&mut score);
        assert_eq!(score, expected);
    }
}

#[test]
fn the_active_threat_closes_the_road_east_of_the_edge() {
    let mut zone = edge();
    assert!(movement_blocked(&zone, Position { x: 15, y: 4 }));
    assert!(!movement_blocked(&zone, Position { x: 14, y: 9 }));
    zone.threat_active = false;
    assert!(!movement_blocked(&zone, Position { x: 15, y: 4 }));
}
