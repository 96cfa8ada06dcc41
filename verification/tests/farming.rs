use tarrowyn_repository::farming::{
    day_rollover, farming_command, fresh_animals, price_with_modifier, restore_animals, CropKind,
    CropRules, CropState, FarmAnimal, FarmPractice, Farmer, FarmingAction, FarmingOutcome,
    FieldPlot,
};
use tarrowyn_repository::frontier::Position;

const PEN: Position = Position { x: 2, y: 7 };
const RULES: CropRules = CropRules {
    mature_stage: 3,
    wheat_value: 4,
    turnip_value: 5,
    moonberry_value: 7,
};

fn plots() -> Vec<FieldPlot> {
    vec![
        FieldPlot { position: Position { x: 2, y: 8 }, crop: None },
        FieldPlot { position: Position { x: 2, y: 9 }, crop: None },
        FieldPlot { position: Position { x: 10, y: 7 }, crop: None },
    ]
}

fn farmer(position: Position) -> Farmer {
    Farmer {
        position,
        knocked_out: false,
        seeds: 3,
        seeds_planted: 0,
        field_tool_condition: 3,
        skill: 0,
        gold: 12,
        wheat: 0,
        turnips: 0,
        moonberries: 0,
    }
}

struct Fields {
    plots: Vec<FieldPlot>,
    animals: Vec<FarmAnimal>,
    tick: u64,
    day: u32,
}

impl Fields {
    fn new() -> Self {
        Fields { plots: plots(), animals: fresh_animals(PEN), tick: 1, day: 1 }
    }

    fn work(&mut self, f: &mut Farmer, action: FarmingAction, at: Position) -> FarmingOutcome {
        farming_command(
            &mut self.plots,
            &mut self.animals,
            f,
            RULES,
            CropKind::Wheat,
            0,
            self.tick,
            self.day,
            at,
            action,
        )
    }
}

#[test]
fn animal_care_is_visible_persistent_and_records_husbandry_practice() {
    let mut fields = Fields::new();
    assert_eq!(fields.animals.len(), 1);
    assert_eq!(fields.animals[0].name, "Bellweather");
    assert_eq!(fields.animals[0].condition, 2);
    fields.day = 2;
    day_rollover(&mut fields.animals, fields.day);
    assert_eq!(fields.animals[0].condition, 1);

    let mut f = farmer(Position { x: 3, y: 7 });
    let cared = fields.work(&mut f, FarmingAction::TendAnimal, PEN);
    assert!(cared.accepted);
    assert_eq!(cared.animal, Some(0));
    assert_eq!(cared.practice, Some(FarmPractice::AnimalHusbandry));
    assert_eq!(fields.animals[0].condition, 3);
    assert_eq!(fields.animals[0].last_cared_day, 2);
    assert_eq!(f.skill, 1);

    // A second care on a thriving goat changes nothing.
    let retry = fields.work(&mut f, FarmingAction::TendAnimal, PEN);
    assert!(!retry.accepted);
    assert_eq!(fields.animals[0].condition, 3);
    assert_eq!(f.skill, 1);
    // Cared for today, the goat keeps its condition over the next rollover.
    day_rollover(&mut fields.animals, 2);
    assert_eq!(fields.animals[0].condition, 3);
}

#[test]
fn animal_care_requires_distance_to_the_actual_animal_position() {
    let mut fields = Fields::new();
    fields.animals[0].condition = 1;
    let request_position = Position { x: PEN.x, y: PEN.y - 1 };
    let mut f = farmer(Position { x: PEN.x, y: PEN.y - 2 });

    let response = fields.work(&mut f, FarmingAction::TendAnimal, request_position);

    assert!(!response.accepted);
    assert!(response
        .reason
        .as_deref()
        .is_some_and(|reason| reason.contains("beside the animal")));
    assert_eq!(response.animal, Some(0));
    assert_eq!(fields.animals[0].condition, 1);
}

#[test]
fn legacy_bellweather_position_restores_beside_manifest_fields() {
    let mut restored = vec![FarmAnimal {
        animal_id: "bellweather-goat".to_owned(),
        name: "Bellweather".to_owned(),
        position: Position { x: 3, y: 5 },
        condition: 1,
        max_condition: 3,
        last_cared_tick: 9,
        last_cared_day: 2,
    }];
    restore_animals(&mut restored, PEN);

    assert_eq!(restored[0].position, PEN);
    assert_eq!(restored[0].condition, 1);
    assert_eq!(restored[0].last_cared_tick, 9);
}

#[test]
fn field_tool_condition_connects_active_farming_to_a_repair_order() {
    let mut fields = Fields::new();
    let plot = fields.plots[2].position;
    let mut f = farmer(Position { x: 10, y: 6 });
    assert!(fields.work(&mut f, FarmingAction::Plant, plot).accepted);
    let tended = fields.work(&mut f, FarmingAction::Tend, plot);
    assert!(tended.accepted);
    assert_eq!(f.field_tool_condition, 2);

    // The shared clock grows the crop to maturity.
    fields.plots[2].crop.as_mut().unwrap().stage = RULES.mature_stage;
    fields.tick = 4;
    let harvest = fields.work(&mut f, FarmingAction::Harvest, plot);
    assert!(harvest.accepted);
    assert_eq!(f.wheat, 1);
    // Wheat is worth 4, raised by the crop's quality of 2.
    assert_eq!(f.gold, 18);
    assert!(fields.plots[2].crop.is_none());
}

fn rewards_saturate() {
    let mut fields = Fields::new();
    let plot = fields.plots[0].position;
    fields.plots[0].crop = Some(CropState {
        kind: CropKind::Wheat,
        stage: RULES.mature_stage,
        quality: 1,
        planted_tick: 0,
        last_tended_tick: None,
    });
    let mut f = farmer(plot);
    f.wheat = u32::MAX;
    f.gold = u32::MAX;
    f.skill = u32::MAX;

    let response = fields.work(&mut f, FarmingAction::Harvest, plot);
    assert!(response.accepted);
    assert_eq!(f.wheat, u32::MAX);
    assert_eq!(f.gold, u32::MAX);
    assert_eq!(f.skill, u32::MAX);
}

#[test]
fn farming_farming_rewards_saturate_player_counters_at_the_numeric_ceiling() {
    rewards_saturate();
}

#[test]
fn guards_farming_rewards_saturate_player_counters_at_the_numeric_ceiling() {
    rewards_saturate();
}

#[test]
fn knocked_out_player_cannot_change_shared_fields_before_recovery() {
    let mut fields = Fields::new();
    let plot = fields.plots[0].position;
    let mut f = farmer(plot);
    f.knocked_out = true;
    let before = f;

    let response = fields.work(&mut f, FarmingAction::Plant, plot);

    assert!(!response.accepted);
    assert!(f.knocked_out);
    assert!(response
        .reason
        .as_deref()
        .is_some_and(|reason| reason.contains("tap Self, Rescuer, or Healer")));
    assert_eq!(f, before);
    assert!(fields.plots[0].crop.is_none());
}

fn same_beat_burst() {
    let mut fields = Fields::new();
    let plot = fields.plots[0].position;
    fields.plots[0].crop = Some(CropState {
        kind: CropKind::Wheat,
        stage: 0,
        quality: 1,
        planted_tick: 0,
        last_tended_tick: None,
    });
    let mut f = farmer(plot);

    assert!(fields.work(&mut f, FarmingAction::Tend, plot).accepted);
    let rejected = fields.work(&mut f, FarmingAction::Tend, plot);
    assert!(!rejected.accepted);
    assert!(rejected
        .reason
        .as_deref()
        .is_some_and(|reason| reason.contains("already been tended")));
    assert_eq!(f.field_tool_condition, 2);
    assert_eq!(fields.plots[0].crop.unwrap().stage, 1);

    fields.tick += 1;
    assert!(fields.work(&mut f, FarmingAction::Tend, plot).accepted);
    assert_eq!(f.field_tool_condition, 1);
}

#[test]
fn farming_crop_tending_rejects_a_same_beat_burst_without_spending_tool_condition() {
    same_beat_burst();
}

#[test]
fn guards_crop_tending_rejects_a_same_beat_burst_without_spending_tool_condition() {
    same_beat_burst();
}

#[test]
fn a_worn_tool_and_an_empty_pouch_are_refused() {
    let mut fields = Fields::new();
    let plot = fields.plots[1].position;
    let mut f = farmer(plot);
    f.seeds = 0;
    let empty = fields.work(&mut f, FarmingAction::Plant, plot);
    assert_eq!(
        empty.reason.as_deref(),
        Some("The seed pouch is empty; trade for more at the Hearth.")
    );
    f.seeds = 1;
    assert!(fields.work(&mut f, FarmingAction::Plant, plot).accepted);
    assert_eq!(f.seeds, 0);
    assert_eq!(f.seeds_planted, 1);
    f.field_tool_condition = 0;
    let worn = fields.work(&mut f, FarmingAction::Tend, plot);
    assert!(worn.reason.unwrap().contains("worn out"));
    let unripe = fields.work(&mut f, FarmingAction::Harvest, plot);
    assert!(unripe.reason.unwrap().contains("not ready"));
    let away = fields.work(&mut f, FarmingAction::Tend, Position { x: 30, y: 30 });
    assert_eq!(away.reason.as_deref(), Some("That position is not a shared field plot."));
}

#[test]
fn harvest_prices_rise_only_with_a_positive_modifier() {
    assert_eq!(price_with_modifier(10, 0), 10);
    assert_eq!(price_with_modifier(10, -20), 10);
    assert_eq!(price_with_modifier(10, 25), 12);
    assert_eq!(price_with_modifier(u32::MAX, 50), u32::MAX / 100);
}
