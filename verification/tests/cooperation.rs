use tarrowyn_repository::cooperation::{
    migrate_account, record_forge, record_gather, record_trade, record_work, recent_credit_tick,
    remove_account, replace_account, Cooperation, CooperationGoal, TradeFacts, WorkKind,
    MAX_RECENT_WORK,
};
use tarrowyn_repository::forge::{ForgeAction, ForgeMaterialKind, MaterialAmount};
use tarrowyn_repository::gathering::{GatherAction, ResourceAmount};
use tarrowyn_repository::storehouse::ResourceKind;

fn cooperation() -> Cooperation {
    Cooperation {
        goal: CooperationGoal {
            required_inputs: vec![
                MaterialAmount { kind: ForgeMaterialKind::Timber, amount: 2 },
                MaterialAmount { kind: ForgeMaterialKind::IronOre, amount: 1 },
            ],
            solo_work_actions: 6,
        },
        recent_work: Vec::new(),
        active_attempts: Vec::new(),
        latest_result: None,
    }
}

fn barter(ore: u32) -> TradeFacts {
    TradeFacts {
        trade_id: "trade-1".to_owned(),
        creator_account_id: "mia".to_owned(),
        recipient_account_id: "lou".to_owned(),
        offered_iron_ore: ore,
    }
}

#[test]
fn gathering_credits_only_forge_materials() {
    let mut c = cooperation();
    record_gather(
        &mut c,
        "mia".to_owned(),
        GatherAction::Mine,
        &vec![
            ResourceAmount { kind: ResourceKind::Stone, amount: 2 },
            ResourceAmount { kind: ResourceKind::IronOre, amount: 1 },
        ],
        3,
    );
    assert_eq!(c.recent_work.len(), 1);
    assert_eq!(c.recent_work[0].kind, WorkKind::Mine);
    assert_eq!(
        c.recent_work[0].materials,
        vec![MaterialAmount { kind: ForgeMaterialKind::IronOre, amount: 1 }]
    );
    assert_eq!(
        recent_credit_tick(&c, &"mia".to_owned(), WorkKind::Mine, ForgeMaterialKind::IronOre, 1),
        Some(3)
    );
    assert_eq!(
        recent_credit_tick(&c, &"mia".to_owned(), WorkKind::Mine, ForgeMaterialKind::IronOre, 2),
        None
    );
}

#[test]
fn the_work_ledger_keeps_its_newest_credits() {
    let mut c = cooperation();
    for tick in 0..(MAX_RECENT_WORK as u64 + 5) {
        record_work(&mut c, "ada".to_owned(), WorkKind::Log, Vec::new(), tick);
    }
    assert_eq!(c.recent_work.len(), MAX_RECENT_WORK);
    assert_eq!(c.recent_work[0].tick, 5);
    assert_eq!(c.recent_work.last().unwrap().tick, MAX_RECENT_WORK as u64 + 4);
}

#[test]
fn a_barter_opens_a_cooperative_attempt_that_beats_solo_work() {
    let mut c = cooperation();
    record_gather(
        &mut c,
        "mia".to_owned(),
        GatherAction::Mine,
        &vec![ResourceAmount { kind: ResourceKind::IronOre, amount: 1 }],
        3,
    );
    record_gather(
        &mut c,
        "lou".to_owned(),
        GatherAction::Log,
        &vec![ResourceAmount { kind: ResourceKind::Timber, amount: 2 }],
        4,
    );

    let mut short = c.clone();
    record_trade(&mut short, &barter(0), Some(2), 5);
    assert!(short.active_attempts.is_empty());
    record_trade(&mut short, &barter(1), Some(1), 5);
    assert!(short.active_attempts.is_empty());
    assert_eq!(short.recent_work.len(), 2);

    record_trade(&mut c, &barter(1), Some(2), 5);
    assert!(c.recent_work.is_empty());
    assert_eq!(c.active_attempts.len(), 1);
    let attempt = &c.active_attempts[0];
    assert_eq!(attempt.coordinator_account_id, "lou");
    assert_eq!(attempt.participant_account_ids, vec!["lou".to_owned(), "mia".to_owned()]);
    assert_eq!(attempt.work_actions, 2);
    assert_eq!(attempt.started_tick, 5);

    let lou = "lou".to_owned();
    record_forge(&mut c, &lou, ForgeAction::Inspect, 6);
    assert_eq!(c.active_attempts[0].work_actions, 2);
    record_forge(&mut c, &lou, ForgeAction::BurnCharcoal, 6);
    record_forge(&mut c, &lou, ForgeAction::ShapeHandle, 7);
    assert_eq!(c.active_attempts[0].work_actions, 4);
    assert_eq!(c.active_attempts[0].contributions[0].work_actions, 3);
    record_forge(&mut c, &lou, ForgeAction::ForgeFieldTool, 8);
    assert!(c.active_attempts.is_empty());
    let result = c.latest_result.as_ref().expect("cooperation beat solo work");
    assert_eq!(result.work_actions, 5);
    assert_eq!(result.saved_work_actions, 1);
    assert_eq!(result.completed_tick, 8);
    assert_eq!(result.trade_id, "trade-1");
    assert_eq!(c.recent_work.len(), 3);
    assert_eq!(c.recent_work[2].kind, WorkKind::ForgeFieldTool);
}

fn cooperating() -> Cooperation {
    let mut c = cooperation();
    record_gather(
        &mut c,
        "mia".to_owned(),
        GatherAction::Mine,
        &vec![ResourceAmount { kind: ResourceKind::IronOre, amount: 1 }],
        3,
    );
    record_gather(
        &mut c,
        "lou".to_owned(),
        GatherAction::Log,
        &vec![ResourceAmount { kind: ResourceKind::Timber, amount: 2 }],
        4,
    );
    record_trade(&mut c, &barter(1), Some(2), 5);
    record_work(&mut c, "ada".to_owned(), WorkKind::Log, Vec::new(), 6);
    record_work(&mut c, "mia".to_owned(), WorkKind::Mine, Vec::new(), 7);
    c
}

#[test]
fn replacing_an_account_renames_only_that_account() {
    let mut v = "mia".to_owned();
    replace_account(&mut v, &"mia".to_owned(), &"mira".to_owned());
    assert_eq!(v, "mira");
    replace_account(&mut v, &"mia".to_owned(), &"zed".to_owned());
    assert_eq!(v, "mira");
}

#[test]
fn migrating_an_account_moves_its_credits_attempts_and_result() {
    let mut c = cooperating();
    migrate_account(&mut c, &"mia".to_owned(), &"mira".to_owned());
    let accounts: Vec<&str> = c.recent_work.iter().map(|w| w.account_id.as_str()).collect();
    assert_eq!(accounts, vec!["ada", "mira"]);
    let attempt = &c.active_attempts[0];
    assert_eq!(attempt.coordinator_account_id, "lou");
    assert_eq!(attempt.participant_account_ids, vec!["lou".to_owned(), "mira".to_owned()]);
    assert_eq!(attempt.contributions[1].account_id, "mira");
    assert_eq!(attempt.contributions[1].work_actions, 1);
}

#[test]
fn removing_an_account_forgets_its_work_and_its_attempts() {
    let mut c = cooperating();
    remove_account(&mut c, &"ada".to_owned());
    assert_eq!(c.recent_work.len(), 1);
    assert_eq!(c.active_attempts.len(), 1);

    remove_account(&mut c, &"mia".to_owned());
    assert!(c.recent_work.is_empty());
    assert!(c.active_attempts.is_empty());

    let mut finished = cooperating();
    let lou = "lou".to_owned();
    record_forge(&mut finished, &lou, ForgeAction::BurnCharcoal, 8);
    record_forge(&mut finished, &lou, ForgeAction::ForgeFieldTool, 9);
    assert!(finished.latest_result.is_some());
    remove_account(&mut finished, &"zed".to_owned());
    assert!(finished.latest_result.is_some());
    remove_account(&mut finished, &lou);
    assert!(finished.latest_result.is_none());
}
