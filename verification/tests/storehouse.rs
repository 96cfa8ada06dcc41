use tarrowyn_repository::frontier::Position;
use tarrowyn_repository::governance::InfrastructureRecord;
use tarrowyn_repository::storehouse::{
    interaction_message, remaining_units, remove_contributor, replace_account_in_project,
    storehouse_command, ContributionInput, Contributor, Requirement, ResourceKind, StageGate,
    StorehouseAction, StorehouseProject, StorehouseRequest, StorehouseStage, UnitsRequired,
};

fn project() -> StorehouseProject {
    StorehouseProject {
        project_id: "first-beacon-storehouse".to_owned(),
        builder_landmark_id: "mara".to_owned(),
        noticeboard_landmark_id: "noticeboard".to_owned(),
        site_landmark_id: "storehouse-site".to_owned(),
        operational_infrastructure_id: "first-beacon-storehouse".to_owned(),
        requirements: vec![
            Requirement { kind: ResourceKind::Timber, units_required: 10, gold_per_unit: 2 },
            Requirement { kind: ResourceKind::Stone, units_required: 6, gold_per_unit: 3 },
        ],
        stages: vec![
            StageGate {
                stage: StorehouseStage::Building,
                credited_units_required: vec![UnitsRequired { kind: ResourceKind::Timber, amount: 1 }],
                visible_label: "Frame rising".to_owned(),
            },
            StageGate {
                stage: StorehouseStage::Operational,
                credited_units_required: vec![
                    UnitsRequired { kind: ResourceKind::Timber, amount: 10 },
                    UnitsRequired { kind: ResourceKind::Stone, amount: 6 },
                ],
                visible_label: "Storehouse open".to_owned(),
            },
        ],
        contributions: Vec::new(),
        current_stage: StorehouseStage::SiteMarked,
        completion: None,
        revision: 0,
    }
}

fn resident(id: &str) -> Contributor {
    Contributor {
        account_id: id.to_owned(),
        display_name: format!("{id} name"),
        position: Position { x: 6, y: 7 },
        gold: 100,
        timber: 20,
        stone: 20,
        iron_ore: 0,
    }
}

fn contribute(landmark: &str, input: ContributionInput) -> StorehouseRequest {
    StorehouseRequest {
        action: StorehouseAction::Contribute,
        landmark_id: landmark.to_owned(),
        contribution: Some(input),
    }
}

const SITE: Option<Position> = Some(Position { x: 6, y: 7 });

#[test]
fn contributions_credit_materials_and_gold_until_the_storehouse_opens() {
    let mut p = project();
    let mut infra: Vec<InfrastructureRecord> = Vec::new();
    let mut ada = resident("ada");
    let mut bo = resident("bo");

    let out = storehouse_command(
        &mut p,
        &mut infra,
        &mut ada,
        SITE,
        3,
        &contribute("storehouse-site", ContributionInput::Material { kind: ResourceKind::Timber, amount: 4 }),
    )
    .expect("valid landmark");
    assert!(out.accepted);
    assert_eq!(out.chronicle, vec!["ada name contributes 4 timber to Mara's project.".to_owned()]);
    assert_eq!(ada.timber, 16);
    assert_eq!(p.current_stage, StorehouseStage::Building);
    assert_eq!(p.contributions[0].contribution_id, "storehouse-contribution-1");
    assert_eq!(remaining_units(&p, ResourceKind::Timber), 6);

    let odd = storehouse_command(
        &mut p,
        &mut infra,
        &mut bo,
        SITE,
        4,
        &contribute("mara", ContributionInput::Gold { toward: ResourceKind::Stone, amount: 7 }),
    )
    .unwrap();
    assert!(!odd.accepted);
    assert_eq!(odd.reason.as_deref(), Some("Mara credits stone at exactly 3 gold per unit."));
    assert_eq!(bo.gold, 100);

    let gold = storehouse_command(
        &mut p,
        &mut infra,
        &mut bo,
        SITE,
        5,
        &contribute("mara", ContributionInput::Gold { toward: ResourceKind::Stone, amount: 18 }),
    )
    .unwrap();
    assert!(gold.accepted);
    assert_eq!(bo.gold, 82);
    assert_eq!(
        gold.chronicle,
        vec!["bo name contributes 18 gold toward 6 stone to Mara's project.".to_owned()]
    );

    let too_much = storehouse_command(
        &mut p,
        &mut infra,
        &mut ada,
        SITE,
        6,
        &contribute("storehouse-site", ContributionInput::Material { kind: ResourceKind::Stone, amount: 1 }),
    )
    .unwrap();
    assert_eq!(too_much.reason.as_deref(), Some("Only 0 more stone can be credited."));

    let last = storehouse_command(
        &mut p,
        &mut infra,
        &mut ada,
        SITE,
        7,
        &contribute("storehouse-site", ContributionInput::Material { kind: ResourceKind::Timber, amount: 6 }),
    )
    .unwrap();
    assert!(last.accepted);
    assert_eq!(last.chronicle.len(), 2);
    assert_eq!(p.current_stage, StorehouseStage::Operational);
    let done = p.completion.as_ref().expect("storehouse completes");
    assert_eq!(done.completed_tick, 7);
    assert_eq!(done.contributor_account_ids, vec!["ada".to_owned(), "bo".to_owned()]);
    assert_eq!(infra.len(), 1);
    assert_eq!(infra[0].infrastructure_id, "first-beacon-storehouse");
    assert_eq!(infra[0].name, "First Beacon storehouse");

    let after = storehouse_command(
        &mut p,
        &mut infra,
        &mut bo,
        SITE,
        8,
        &contribute("mara", ContributionInput::Material { kind: ResourceKind::Timber, amount: 1 }),
    )
    .unwrap();
    assert_eq!(after.reason.as_deref(), Some("The First Beacon storehouse is already built."));
}

#[test]
fn storehouse_commands_check_the_landmark_distance_and_noticeboard() {
    let mut p = project();
    let mut infra: Vec<InfrastructureRecord> = Vec::new();
    let mut ada = resident("ada");
    let input = ContributionInput::Material { kind: ResourceKind::Timber, amount: 1 };

    let err = storehouse_command(&mut p, &mut infra, &mut ada, SITE, 1, &contribute("   ", input))
        .expect_err("blank landmark");
    assert_eq!(err.status, 400);
    assert_eq!(err.error.code, "invalid_storehouse_landmark");

    let far = storehouse_command(
        &mut p,
        &mut infra,
        &mut ada,
        Some(Position { x: 9, y: 9 }),
        1,
        &contribute("mara", input),
    )
    .unwrap();
    assert_eq!(far.reason.as_deref(), Some("Walk beside that storehouse landmark first."));

    let board = storehouse_command(&mut p, &mut infra, &mut ada, SITE, 1, &contribute("noticeboard", input))
        .unwrap();
    assert_eq!(
        board.reason.as_deref(),
        Some("Read the need here, then contribute beside Mara or the storehouse site.")
    );

    let unknown = storehouse_command(&mut p, &mut infra, &mut ada, SITE, 1, &contribute("well", input))
        .unwrap();
    assert_eq!(
        unknown.reason.as_deref(),
        Some("Use Mara, the First Beacon noticeboard, or the marked storehouse site.")
    );

    let inspect = StorehouseRequest {
        action: StorehouseAction::Inspect,
        landmark_id: "noticeboard".to_owned(),
        contribution: None,
    };
    let seen = storehouse_command(&mut p, &mut infra, &mut ada, SITE, 1, &inspect).unwrap();
    assert!(seen.accepted);
    assert!(p.contributions.is_empty());
    assert_eq!(ada.timber, 20);
}

#[test]
fn interaction_messages_report_what_remains() {
    let mut p = project();
    assert_eq!(
        interaction_message(&p, "read-local-needs").as_deref(),
        Some("LOCAL NEED — First storehouse: 10 timber (2 gold each) and 6 stone (3 gold each) remain.")
    );
    assert_eq!(
        interaction_message(&p, "inspect-storehouse-site").as_deref(),
        Some("Marked storehouse site — 10 timber and 6 stone remain before the storehouse can open.")
    );
    assert_eq!(interaction_message(&p, "open-the-door"), None);

    let mut infra: Vec<InfrastructureRecord> = Vec::new();
    let mut ada = resident("ada");
    storehouse_command(
        &mut p,
        &mut infra,
        &mut ada,
        SITE,
        2,
        &contribute("mara", ContributionInput::Material { kind: ResourceKind::Timber, amount: 3 }),
    )
    .unwrap();
    assert_eq!(
        interaction_message(&p, "speak-with-builder").as_deref(),
        Some(
            "Mara: The first storehouse still needs 7 timber and 6 stone. The noticeboard lists exact gold substitutes; bring goods or gold to me or the site."
        )
    );
    assert_eq!(
        interaction_message(&p, "inspect-storehouse-site").as_deref(),
        Some("Frame rising — 7 timber and 6 stone remain before the storehouse can open.")
    );
}

#[test]
fn renaming_and_removing_an_account_keeps_each_contributor_once() {
    let mut p = project();
    let mut infra: Vec<InfrastructureRecord> = Vec::new();
    let mut ada = resident("ada");
    let mut bo = resident("bo");
    let timber = |amount| ContributionInput::Material { kind: ResourceKind::Timber, amount };
    let stone = |amount| ContributionInput::Material { kind: ResourceKind::Stone, amount };
    storehouse_command(&mut p, &mut infra, &mut ada, SITE, 1, &contribute("mara", timber(5))).unwrap();
    storehouse_command(&mut p, &mut infra, &mut bo, SITE, 2, &contribute("mara", timber(5))).unwrap();
    storehouse_command(&mut p, &mut infra, &mut ada, SITE, 3, &contribute("mara", stone(6))).unwrap();
    assert!(p.completion.is_some());

    replace_account_in_project(&mut p, &"bo".to_owned(), &"ada".to_owned());
    assert!(p.contributions.iter().all(|c| c.account_id == "ada"));
    assert_eq!(
        p.completion.as_ref().unwrap().contributor_account_ids,
        vec!["ada".to_owned()]
    );
    assert_eq!(p.contributions[1].credited_units, 5);

    remove_contributor(&mut p, &"ada".to_owned());
    assert!(p.contributions.iter().all(|c| c.account_id == "former-resident"));
    assert_eq!(
        p.completion.as_ref().unwrap().contributor_account_ids,
        vec!["former-resident".to_owned()]
    );
}
