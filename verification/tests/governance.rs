use tarrowyn_repository::replay::{settlement_cache_key, ReplayCache};
use tarrowyn_repository::frontier::Position;
use tarrowyn_repository::governance::{
    governance_action, governance_entry, validate_governance_request, Governance, GovernanceAction,
    GovernanceContext, GovernanceDecision, GovernanceNote, GovernanceRequest, HouseholdLifeStatus,
    HouseholdRecord, InfrastructureKind, InfrastructureRecord, InfrastructureStatus, OfficeKind,
    OfficeRecord, ProposalStatus, PublicAction, PublicProposal, TaxCollection,
};
use tarrowyn_repository::households::{household_beat, HouseholdNote, SettlementConditions};
use tarrowyn_repository::taxes::{collect_taxes, governance_tick, TaxPayer};
use tarrowyn_repository::upkeep::pay_upkeep;

fn office(id: &str, kind: OfficeKind, title: &str) -> OfficeRecord {
    OfficeRecord {
        office_id: id.to_owned(),
        kind,
        title: title.to_owned(),
        authority: "May act for the settlement.".to_owned(),
        holder_account_id: None,
        holder_name: None,
        last_active_tick: 0,
        vacant: true,
        vacancy_reason: Some("The first office-holder has not yet been chosen.".to_owned()),
    }
}

fn structure(id: &str, name: &str, kind: InfrastructureKind, condition: u8) -> InfrastructureRecord {
    InfrastructureRecord {
        infrastructure_id: id.to_owned(),
        name: name.to_owned(),
        kind,
        position: Position { x: 8, y: 4 },
        condition,
        upkeep_per_day: 2,
        service_quality: 70,
        status: InfrastructureStatus::Recovering,
        last_maintained_tick: 0,
        failure_note: None,
    }
}

fn household() -> HouseholdRecord {
    HouseholdRecord {
        household_id: "bellweather".to_owned(),
        status: HouseholdLifeStatus::Arrived,
        last_decision_tick: 0,
        demand: 50,
        safety: 70,
        housing: 70,
        food: 70,
        competition: 10,
        service_quality: 70,
        clue: "The miller and healer are settling in.".to_owned(),
    }
}

fn town_hall() -> Governance {
    Governance {
        offices: vec![
            office("steward", OfficeKind::Steward, "Settlement Steward"),
            office("works-warden", OfficeKind::WorksWarden, "Works Warden"),
            office("registrar", OfficeKind::Registrar, "Settlement Registrar"),
        ],
        proposals: Vec::new(),
        decisions: Vec::new(),
        public_treasury: 48,
        administration_quality: 80,
        service_funding_until_tick: 0,
        tax_rate_percent: Some(5),
        infrastructure: vec![
            structure("north-road", "North road", InfrastructureKind::Road, 70),
            structure("hearth-services", "Hearth services", InfrastructureKind::Service, 70),
        ],
        households: vec![household()],
        next_proposal_id: 1,
        next_decision_id: 1,
        tax_ledger: Vec::new(),
        next_tax_id: 1,
    }
}

fn ctx(actor: &str) -> GovernanceContext {
    GovernanceContext {
        actor_id: actor.to_owned(),
        actor_name: format!("{actor} name"),
        tick: 3,
    }
}

fn governance_request(action: GovernanceAction) -> GovernanceRequest {
    GovernanceRequest {
        action,
        office_id: None,
        proposal_id: None,
        public_action: None,
        target: None,
        cost: None,
        tax_rate_percent: None,
    }
}

fn claim_steward(g: &mut Governance, actor: &GovernanceContext) {
    let mut claim = governance_request(GovernanceAction::ClaimOffice);
    claim.office_id = Some("steward".to_owned());
    assert!(governance_action(g, actor, &claim).accepted);
}

fn complete_public_action(g: &mut Governance, actor: &GovernanceContext, action: PublicAction) {
    let mut propose = governance_request(GovernanceAction::Propose);
    propose.public_action = Some(action);
    assert!(governance_action(g, actor, &propose).accepted);
    let proposal_id = g.proposals.last().expect("created proposal").proposal_id.clone();
    let mut approve = governance_request(GovernanceAction::Approve);
    approve.proposal_id = Some(proposal_id.clone());
    assert!(governance_action(g, actor, &approve).accepted);
    let mut complete = governance_request(GovernanceAction::Complete);
    complete.proposal_id = Some(proposal_id);
    assert!(governance_action(g, actor, &complete).accepted);
}

fn resident(account: &str, gold: u32) -> TaxPayer {
    TaxPayer {
        account_id: account.to_owned(),
        display_name: format!("{account} name"),
        gold,
        last_tax_day: 1,
        knocked_out: false,
        position: Position { x: 8, y: 5 },
    }
}

#[test]
fn governance_public_work_is_authorised_costed_and_auditable() {
    let mut g = town_hall();
    let steward = ctx("phase4-steward");
    claim_steward(&mut g, &steward);

    let mut propose = governance_request(GovernanceAction::Propose);
    propose.public_action = Some(PublicAction::RepairRoad);
    let proposed = governance_action(&mut g, &steward, &propose);
    assert_eq!(proposed.note, Some(GovernanceNote::Proposed));
    let proposal_id = g.proposals[0].proposal_id.clone();

    let mut approve = governance_request(GovernanceAction::Approve);
    approve.proposal_id = Some(proposal_id.clone());
    assert!(governance_action(&mut g, &steward, &approve).accepted);
    let mut complete = governance_request(GovernanceAction::Complete);
    complete.proposal_id = Some(proposal_id);
    let completed = governance_action(&mut g, &steward, &complete);
    assert!(completed.accepted);
    assert_eq!(g.public_treasury, 40);
    assert!(g.decisions.iter().any(|decision| decision.cost == 8));
    assert_eq!(
        g.infrastructure
            .iter()
            .find(|record| record.infrastructure_id == "north-road")
            .unwrap()
            .condition,
        100
    );
    // The completion asks the chronicle for a "public action completed" entry.
    assert_eq!(completed.note, Some(GovernanceNote::Completed));
}

#[test]
fn settlement_tax_is_bounded_daily_and_recorded_in_the_public_ledger() {
    let mut g = town_hall();
    let steward = ctx("phase4-taxpayer");
    claim_steward(&mut g, &steward);

    let mut set_tax = governance_request(GovernanceAction::SetTaxRate);
    set_tax.tax_rate_percent = Some(7);
    let changed = governance_action(&mut g, &steward, &set_tax);
    assert!(changed.accepted);
    assert_eq!(g.tax_rate_percent, Some(7));
    assert!(g.tax_ledger.is_empty());

    let mut excessive = governance_request(GovernanceAction::SetTaxRate);
    excessive.tax_rate_percent = Some(11);
    let rejected = governance_action(&mut g, &steward, &excessive);
    assert!(!rejected.accepted);
    assert!(rejected.reason.unwrap().contains("0% and 10%"));

    let mut payers = vec![resident("phase4-taxpayer", 100)];
    governance_tick(&mut g, &mut payers, 1, 2, 1_000);
    assert_eq!(payers[0].gold, 93);
    assert_eq!(g.public_treasury, 55);
    assert_eq!(g.tax_ledger.len(), 1);
    assert_eq!(g.tax_ledger[0].amount, 7);
    assert_eq!(g.tax_ledger[0].day, 2);

    governance_tick(&mut g, &mut payers, 2, 3, 1_000);
    assert_eq!(payers[0].gold, 87);
}

#[test]
fn public_work_cannot_create_a_duplicate_infrastructure_record() {
    let mut g = town_hall();
    let steward = ctx("phase4-public-work-once");
    claim_steward(&mut g, &steward);
    complete_public_action(&mut g, &steward, PublicAction::CommissionPublicWork);

    let mut propose = governance_request(GovernanceAction::Propose);
    propose.public_action = Some(PublicAction::CommissionPublicWork);
    assert!(governance_action(&mut g, &steward, &propose).accepted);
    let proposal_id = g.proposals.last().unwrap().proposal_id.clone();
    let mut approve = governance_request(GovernanceAction::Approve);
    approve.proposal_id = Some(proposal_id.clone());
    assert!(governance_action(&mut g, &steward, &approve).accepted);
    let mut complete = governance_request(GovernanceAction::Complete);
    complete.proposal_id = Some(proposal_id);
    let rejected = governance_action(&mut g, &steward, &complete);

    assert!(!rejected.accepted);
    assert!(rejected.reason.unwrap().contains("already been commissioned"));
    assert_eq!(g.public_treasury, 36);
    assert_eq!(
        g.proposals
            .iter()
            .filter(|proposal| proposal.action == PublicAction::CommissionPublicWork
                && proposal.status == ProposalStatus::Completed)
            .count(),
        1
    );
    assert_eq!(
        g.infrastructure
            .iter()
            .filter(|record| record.infrastructure_id == "hearth-workshop")
            .count(),
        1
    );
}

fn fixture_infrastructure(index: usize) -> InfrastructureRecord {
    InfrastructureRecord {
        infrastructure_id: format!("fixture-infrastructure-{index}"),
        name: "Fixture road".to_owned(),
        kind: InfrastructureKind::Road,
        position: Position { x: index as i32, y: 0 },
        condition: 100,
        upkeep_per_day: 1,
        service_quality: 80,
        status: InfrastructureStatus::Operational,
        last_maintained_tick: index as u64,
        failure_note: None,
    }
}

fn tax_collection(index: usize) -> TaxCollection {
    TaxCollection {
        collection_id: format!("tax-{index}"),
        payer_account_id: "payer".to_owned(),
        payer_name: "Resident".to_owned(),
        amount: 1,
        rate_percent: 1,
        territory: "the Hearth".to_owned(),
        day: index as u32,
        created_tick: index as u64,
    }
}

#[test]
fn governance_recent_decisions_and_public_work_keep_newest_records() {
    let mut g = town_hall();
    let steward = ctx("phase4-history-retention");
    claim_steward(&mut g, &steward);
    g.next_decision_id = 64;
    g.decisions = (0..64)
        .map(|index| GovernanceDecision {
            decision_id: format!("decision-{index}"),
            actor_account_id: "account".to_owned(),
            actor_name: "Resident".to_owned(),
            action: PublicAction::RepairRoad,
            proposal_id: format!("proposal-{index}"),
            cost: 1,
            service_affected: "the north road".to_owned(),
            created_tick: index as u64,
        })
        .collect();

    complete_public_action(&mut g, &steward, PublicAction::RepairRoad);
    assert_eq!(g.decisions.len(), 64);
    assert!(!g.decisions.iter().any(|decision| decision.decision_id == "decision-0"));
    assert!(g.decisions.iter().any(|decision| decision.decision_id == "decision-64"));

    g.infrastructure = (0..32).map(fixture_infrastructure).collect();
    complete_public_action(&mut g, &steward, PublicAction::CommissionPublicWork);
    assert_eq!(g.infrastructure.len(), 32);
    assert!(!g
        .infrastructure
        .iter()
        .any(|record| record.infrastructure_id == "fixture-infrastructure-0"));
    assert!(g
        .infrastructure
        .iter()
        .any(|record| record.infrastructure_id == "hearth-workshop"));
}

#[test]
fn recent_tax_ledger_keeps_the_newest_receipt() {
    let mut g = town_hall();
    let steward = ctx("phase4-tax-retention");
    claim_steward(&mut g, &steward);
    let mut set_tax = governance_request(GovernanceAction::SetTaxRate);
    set_tax.tax_rate_percent = Some(1);
    assert!(governance_action(&mut g, &steward, &set_tax).accepted);
    g.next_tax_id = 64;
    g.tax_ledger = (0..64).map(tax_collection).collect();

    let mut payers = vec![resident("phase4-tax-retention", 100)];
    governance_tick(&mut g, &mut payers, 1, 2, 1_000);

    assert_eq!(g.tax_ledger.len(), 64);
    assert!(!g.tax_ledger.iter().any(|receipt| receipt.collection_id == "tax-0"));
    assert!(g.tax_ledger.iter().any(|receipt| receipt.collection_id == "tax-64"));
}

#[test]
fn proposal_id_stays_at_the_numeric_ceiling() {
    let mut g = town_hall();
    g.next_proposal_id = u64::MAX;
    let mut request = governance_request(GovernanceAction::Propose);
    request.public_action = Some(PublicAction::RepairRoad);
    let response = governance_action(&mut g, &ctx("proposal-id-ceiling"), &request);

    assert!(response.accepted);
    assert_eq!(
        g.proposals.last().expect("created proposal").proposal_id,
        format!("public-work-{}", u64::MAX)
    );
    assert_eq!(g.next_proposal_id, u64::MAX);
}

#[test]
fn decision_id_stays_at_the_numeric_ceiling() {
    let mut g = town_hall();
    let steward = ctx("decision-id-ceiling");
    claim_steward(&mut g, &steward);
    g.next_decision_id = u64::MAX;

    complete_public_action(&mut g, &steward, PublicAction::RepairRoad);

    assert_eq!(g.next_decision_id, u64::MAX);
    assert!(g
        .decisions
        .iter()
        .any(|decision| decision.decision_id == format!("decision-{}", u64::MAX)));
}

#[test]
fn tax_collection_id_stays_at_the_numeric_ceiling() {
    let mut g = town_hall();
    let steward = ctx("tax-id-ceiling");
    claim_steward(&mut g, &steward);
    let mut set_tax = governance_request(GovernanceAction::SetTaxRate);
    set_tax.tax_rate_percent = Some(1);
    assert!(governance_action(&mut g, &steward, &set_tax).accepted);
    g.next_tax_id = u64::MAX;

    let mut payers = vec![resident("tax-id-ceiling", 100)];
    governance_tick(&mut g, &mut payers, 1, 2, 1_000);

    assert_eq!(g.next_tax_id, u64::MAX);
    assert!(g
        .tax_ledger
        .iter()
        .any(|receipt| receipt.collection_id == format!("tax-{}", u64::MAX)));
}

fn proposal(index: usize, status: ProposalStatus) -> PublicProposal {
    PublicProposal {
        proposal_id: format!("proposal-{index}"),
        proposer_account_id: "account".to_owned(),
        proposer_name: "Resident".to_owned(),
        action: PublicAction::RepairRoad,
        target: "the north road".to_owned(),
        cost: 1,
        status,
        created_tick: index as u64,
        approved_by: None,
        completed_tick: (status == ProposalStatus::Completed).then_some(index as u64),
    }
}

#[test]
fn governance_proposals_trim_closed_history_and_bound_active_work() {
    let mut g = town_hall();
    let resident = ctx("phase4-proposal-retention");
    g.proposals = (0..64).map(|index| proposal(index, ProposalStatus::Completed)).collect();

    let mut request = governance_request(GovernanceAction::Propose);
    request.public_action = Some(PublicAction::RepairRoad);
    let created = governance_action(&mut g, &resident, &request);
    assert!(created.accepted);
    assert_eq!(g.proposals.len(), 64);
    assert!(!g.proposals.iter().any(|proposal| proposal.proposal_id == "proposal-0"));

    g.proposals = (0..64).map(|index| proposal(index, ProposalStatus::Proposed)).collect();
    let blocked = governance_action(&mut g, &resident, &request);
    assert!(!blocked.accepted);
    assert!(blocked
        .reason
        .as_deref()
        .is_some_and(|reason| reason.contains("ledger is full")));
    assert_eq!(g.proposals.len(), 64);
}

#[test]
fn infrastructure_upkeep_cannot_wrap_into_a_funded_treasury() {
    let mut g = town_hall();
    g.public_treasury = u32::MAX - 1;
    for record in &mut g.infrastructure {
        record.upkeep_per_day = u32::MAX;
        record.condition = 100;
        record.status = InfrastructureStatus::Operational;
    }

    let failures = pay_upkeep(&mut g, 12);

    assert!(failures.is_empty());
    assert_eq!(g.public_treasury, u32::MAX - 1);
    assert!(g.infrastructure.iter().all(|record| record.condition == 95));
}

#[test]
fn failed_infrastructure_does_not_repeat_the_same_failure_chronicle() {
    let mut g = town_hall();
    g.public_treasury = 0;
    g.infrastructure[0].condition = 25;
    g.infrastructure[0].status = InfrastructureStatus::NeedsRepair;
    let mut payers: Vec<TaxPayer> = Vec::new();

    let mut failure_records = 0;
    for tick in 12..=25 {
        failure_records += governance_tick(&mut g, &mut payers, tick, 1, 1_000).failures.len();
    }

    assert_eq!(failure_records, 1);
    assert_eq!(g.infrastructure[0].status, InfrastructureStatus::Failed);
}

#[test]
fn departed_npc_does_not_repeat_the_same_departure_chronicle() {
    let mut households = vec![household()];
    households[0].status = HouseholdLifeStatus::Departed;
    let failed_road = SettlementConditions {
        road_safe: false,
        open_orders: 0,
        plots_available: true,
        crops_growing: false,
        funded: false,
    };

    let mut departure_records = 0;
    for tick in 1..=2 {
        departure_records += household_beat(&mut households, failed_road, tick, 1)
            .iter()
            .filter(|note| **note == HouseholdNote::Departure)
            .count();
    }

    assert_eq!(departure_records, 0);
    assert_eq!(households[0].status, HouseholdLifeStatus::Departed);
}

#[test]
fn governance_rejects_unbounded_or_controlled_proposal_targets() {
    for target in ["x".repeat(81), "North\nroad".to_owned()] {
        let error = validate_governance_request(
            GovernanceAction::Propose,
            None,
            None,
            Some(PublicAction::RepairRoad),
            Some(target.as_str()),
            None,
            None,
        )
        .expect_err("malformed proposal target should be rejected");
        assert_eq!(error.status, 400);
        assert_eq!(error.error.code, "invalid_proposal_target");
    }
    let accepted = validate_governance_request(
        GovernanceAction::Propose,
        None,
        None,
        Some(PublicAction::RepairRoad),
        Some("  the north road  "),
        None,
        None,
    )
    .expect("a bounded target is accepted");
    assert_eq!(accepted.target.as_deref(), Some("the north road"));
}

#[test]
fn governance_selectors_reject_unbounded_or_controlled_ids() {
    let long = "x".repeat(161);
    let cases = [
        (Some("office\nwith-control"), None, "invalid_office_id"),
        (None, Some(long.as_str()), "invalid_proposal_id"),
    ];
    for (office_id, proposal_id, expected_code) in cases {
        let error = validate_governance_request(
            GovernanceAction::Inspect,
            office_id,
            proposal_id,
            None,
            None,
            None,
            None,
        )
        .expect_err("invalid governance selector should be rejected");
        assert_eq!(error.status, 400);
        assert_eq!(error.error.code, expected_code);
    }
}

#[test]
fn governance_inspection_is_fresh_and_side_effect_free() {
    let mut g = town_hall();
    let reader = ctx("phase4-governance-read-view");
    let mut cache = ReplayCache::new();
    let before = governance_action(&mut g, &reader, &governance_request(GovernanceAction::Inspect));
    assert!(before.accepted);
    assert_eq!(before.note, None);
    assert!(g.offices[0].holder_account_id.is_none());
    assert_eq!(g.public_treasury, 48);
    assert!(g.proposals.is_empty());
    cache.record(settlement_cache_key("phase4-governance-read-view", "inspect-before"), before, true);
    assert!(cache.entries.is_empty());

    claim_steward(&mut g, &reader);

    let after = governance_action(&mut g, &reader, &governance_request(GovernanceAction::Inspect));
    assert!(after.accepted);
    assert_eq!(
        g.offices[0].holder_account_id.as_deref(),
        Some("phase4-governance-read-view")
    );
}

#[test]
fn only_the_steward_approves_spending() {
    let mut g = town_hall();
    let resident = ctx("phase4-proposer");
    let mut propose = governance_request(GovernanceAction::Propose);
    propose.public_action = Some(PublicAction::HostFestival);
    assert!(governance_action(&mut g, &resident, &propose).accepted);
    let mut approve = governance_request(GovernanceAction::Approve);
    approve.proposal_id = Some("public-work-1".to_owned());
    let refused = governance_action(&mut g, &resident, &approve);
    assert_eq!(
        refused.reason.as_deref(),
        Some("Only the Settlement Steward may approve public spending.")
    );
    assert_eq!(g.proposals[0].status, ProposalStatus::Proposed);
    assert_eq!(g.proposals[0].cost, 10);
    assert_eq!(g.proposals[0].target, "host a settlement festival");
}

#[test]
fn collection_skips_knocked_out_and_distant_players() {
    let mut g = town_hall();
    claim_steward(&mut g, &ctx("collector"));
    let mut payers = vec![resident("near", 100), resident("away", 100), resident("down", 100)];
    payers[1].position = Position { x: 20, y: 20 };
    payers[2].knocked_out = true;
    let report = collect_taxes(&mut g, &mut payers, 2, 5).expect("one payer is charged");
    assert_eq!(report.payer_count, 1);
    assert_eq!(report.total, 5);
    assert_eq!(payers[0].gold, 95);
    assert_eq!(payers[1].gold, 100);
    assert_eq!(payers[2].gold, 100);
    assert!(payers.iter().all(|payer| payer.last_tax_day == 2));
    assert!(collect_taxes(&mut g, &mut payers, 2, 6).is_none());
    assert_eq!(g.public_treasury, 53);
}

#[test]
fn accepted_governance_commands_are_chronicled() {
    let proposal = PublicProposal {
        proposal_id: "public-work-3".to_owned(),
        proposer_account_id: "ada".to_owned(),
        proposer_name: "Ada".to_owned(),
        action: PublicAction::RepairRoad,
        target: "the north road".to_owned(),
        cost: 8,
        status: ProposalStatus::Approved,
        created_tick: 1,
        approved_by: None,
        completed_tick: None,
    };
    let filled = governance_entry(GovernanceNote::OfficeFilled, "Ada", "steward", &proposal);
    assert_eq!(filled.kind, "office filled");
    assert_eq!(filled.text, "Ada now holds the steward office.");
    let tax = governance_entry(
        GovernanceNote::TaxChanged { previous_percent: 5, rate_percent: 7 },
        "Ada",
        "steward",
        &proposal,
    );
    assert_eq!(tax.text, "Ada changed the Hearth tax from 5% to 7% on nearby carried gold.");
    let proposed = governance_entry(GovernanceNote::Proposed, "Ada", "", &proposal);
    assert_eq!(proposed.text, "Ada proposes to repair the north road for 8 public gold.");
    let approved = governance_entry(GovernanceNote::Approved, "Bo", "", &proposal);
    assert_eq!(approved.text, "Bo approves proposal public-work-3.");
    let done = governance_entry(GovernanceNote::Completed, "Bo", "", &proposal);
    assert_eq!(done.title, "A public resource reaches the service it promised");
    assert_eq!(done.text, "Bo completed repair the north road for 8 public gold; the north road changed.");
}
