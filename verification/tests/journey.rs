use tarrowyn_repository::journey::{
    has_credit, next_action, record_arrival, record_farming, record_forge, record_interaction,
    record_resource, record_storehouse, record_trade, restore_progress, EvidenceKind, FieldWork,
    FutureGoalState, JourneyContract, JourneyProgress, MilestoneDefinition, MilestoneKind,
};

fn milestone(id: &str, kind: MilestoneKind, evidence_kind: EvidenceKind) -> MilestoneDefinition {
    MilestoneDefinition {
        milestone_id: id.to_owned(),
        kind,
        evidence_kind,
        direction: format!("Next: {id}"),
    }
}

fn contract() -> JourneyContract {
    JourneyContract {
        journey_id: "first-beacon".to_owned(),
        milestones: vec![
            milestone("arrive", MilestoneKind::ArriveAtBeacon, EvidenceKind::Session),
            milestone("consult", MilestoneKind::ConsultLocalNeed, EvidenceKind::Interaction),
            milestone("plant", MilestoneKind::PlantCommonField, EvidenceKind::Farming),
            milestone("harvest", MilestoneKind::HarvestCommonField, EvidenceKind::Farming),
            milestone("replant", MilestoneKind::ReplantCommonField, EvidenceKind::Farming),
            milestone("woodland", MilestoneKind::ExploreWoodland, EvidenceKind::Resource),
            milestone("timber", MilestoneKind::GatherTimber, EvidenceKind::Resource),
            milestone("seam", MilestoneKind::ExploreStoneSeam, EvidenceKind::Resource),
            milestone("stone", MilestoneKind::MineStone, EvidenceKind::Resource),
            milestone("forge", MilestoneKind::ForgeFieldTool, EvidenceKind::Forge),
            milestone("barter", MilestoneKind::CompleteBarter, EvidenceKind::Trade),
            milestone("storehouse", MilestoneKind::ContributeStorehouse, EvidenceKind::Storehouse),
        ],
        future_goal_direction: "Bring in the return harvest.".to_owned(),
    }
}

fn lost_progress() -> JourneyProgress {
    JourneyProgress {
        journey_id: String::new(),
        credits: Vec::new(),
        revision: 9,
        completed_tick: Some(3),
        future_goal_state: FutureGoalState::Complete,
        future_goal_completed_tick: Some(4),
    }
}

#[test]
fn a_lost_journey_restarts_fresh() {
    let mut p = lost_progress();
    restore_progress(&mut p, &"first-beacon".to_owned());
    assert_eq!(p.journey_id, "first-beacon");
    assert_eq!(p.revision, 0);
    assert_eq!(p.completed_tick, None);
    assert_eq!(p.future_goal_state, FutureGoalState::NotStarted);
}

#[test]
fn each_milestone_is_credited_once_with_its_evidence() {
    let c = contract();
    let mut p = lost_progress();
    record_arrival(&mut p, &c, 1);
    assert_eq!(p.journey_id, "first-beacon");
    assert_eq!(p.credits.len(), 1);
    assert_eq!(p.credits[0].evidence_ref, "session:arrive-first-beacon");
    assert_eq!(p.credits[0].evidence_kind, EvidenceKind::Session);
    record_arrival(&mut p, &c, 2);
    assert_eq!(p.credits.len(), 1);
    assert_eq!(p.revision, 1);

    record_interaction(&mut p, &c, "open-the-door", 3);
    assert!(!has_credit(&p, &c, MilestoneKind::ConsultLocalNeed));
    record_interaction(&mut p, &c, "read-local-needs", 3);
    assert!(has_credit(&p, &c, MilestoneKind::ConsultLocalNeed));
    assert_eq!(p.credits[1].evidence_ref, "interaction:read-local-needs");
    assert_eq!(next_action(&p, &c), "Next: plant");

    // Replanting counts only after a harvest.
    record_farming(&mut p, &c, FieldWork::Plant, "req-1", 4);
    record_farming(&mut p, &c, FieldWork::Plant, "req-2", 5);
    assert!(!has_credit(&p, &c, MilestoneKind::ReplantCommonField));
    record_farming(&mut p, &c, FieldWork::Tend, "req-3", 6);
    record_farming(&mut p, &c, FieldWork::Harvest, "req-4", 7);
    record_farming(&mut p, &c, FieldWork::Plant, "req-5", 8);
    assert!(has_credit(&p, &c, MilestoneKind::ReplantCommonField));
    let replant = p.credits.iter().find(|credit| credit.milestone_id == "replant").unwrap();
    assert_eq!(replant.evidence_ref, "farming:req-5");
    assert_eq!(replant.credited_tick, 8);

    record_resource(&mut p, &c, false, "wood-1", 9);
    record_resource(&mut p, &c, true, "ore-1", 10);
    assert!(has_credit(&p, &c, MilestoneKind::ExploreWoodland));
    assert!(has_credit(&p, &c, MilestoneKind::GatherTimber));
    assert!(has_credit(&p, &c, MilestoneKind::MineStone));
    let seam = p.credits.iter().find(|credit| credit.milestone_id == "seam").unwrap();
    assert_eq!(seam.evidence_ref, "resource:ore-1:arrival");

    record_forge(&mut p, &c, false, "forge-1", 11);
    assert!(!has_credit(&p, &c, MilestoneKind::ForgeFieldTool));
    record_forge(&mut p, &c, true, "forge-2", 11);
    record_trade(&mut p, &c, "trade-7", 12);
    assert_eq!(p.future_goal_state, FutureGoalState::NotStarted);
    assert_eq!(next_action(&p, &c), "Next: storehouse");

    record_storehouse(&mut p, &c, true, "store-1", 13);
    assert_eq!(p.credits.len(), 12);
    assert_eq!(p.completed_tick, Some(13));
    assert_eq!(p.future_goal_state, FutureGoalState::Active);
    assert_eq!(next_action(&p, &c), "Bring in the return harvest.");

    record_farming(&mut p, &c, FieldWork::Harvest, "req-9", 20);
    assert_eq!(p.future_goal_state, FutureGoalState::Complete);
    assert_eq!(p.future_goal_completed_tick, Some(20));
    assert_eq!(
        next_action(&p, &c),
        "The return harvest is complete; choose your next work at the Beacon."
    );
}
