use tarrowyn_repository::farming::{
    farming_command, CropKind, CropRules, CropState, FarmAnimal, Farmer, FarmingAction, FieldPlot,
};
use tarrowyn_repository::forge::{
    forge_command, forge_state, max_condition, FieldToolKind, ForgeAction, Smith,
};
use tarrowyn_repository::frontier::Position;

/// The rough forge at the first beacon.
const FORGE: Position = Position { x: 11, y: 5 };

fn smith(position: Position) -> Smith {
    Smith {
        position,
        knocked_out: false,
        timber: 0,
        iron_ore: 0,
        charcoal: 0,
        tool_handles: 0,
        field_tool_kind: FieldToolKind::Crude,
        field_tool_condition: 3,
    }
}

#[test]
fn rough_forge_is_proximity_checked_and_missing_costs_are_atomic() {
    let mut s = smith(Position { x: 4, y: 5 });
    s.timber = 1;
    let too_far = forge_command(&mut s, FORGE, ForgeAction::BurnCharcoal);
    assert!(!too_far.accepted);
    assert_eq!(s.timber, 1);
    assert_eq!(s.charcoal, 0);

    s.position = Position { x: 10, y: 5 };
    let missing = forge_command(&mut s, FORGE, ForgeAction::ForgeFieldTool);
    assert!(!missing.accepted);
    assert_eq!(s.timber, 1);
    assert_eq!(s.field_tool_kind, FieldToolKind::Crude);
    assert_eq!(
        missing.reason.as_deref(),
        Some("Forging the iron field tool needs 2 iron ore, 1 charcoal, and 1 tool handle.")
    );
}

#[test]
fn gathered_inputs_become_an_iron_tool_once_and_survive_restart() {
    let mut s = smith(Position { x: 10, y: 5 });
    s.timber = 2;
    s.iron_ore = 2;

    let inspect = forge_command(&mut s, FORGE, ForgeAction::Inspect);
    assert!(inspect.accepted);
    assert!(!inspect.practised);
    let forge = forge_state();
    assert_eq!(forge.recipes.len(), 3);
    assert_eq!(forge.crude_tool_action_capacity, 3);
    assert_eq!(forge.improved_tool_action_capacity, 6);

    let charcoal = forge_command(&mut s, FORGE, ForgeAction::BurnCharcoal);
    assert!(charcoal.accepted);
    assert!(charcoal.practised);
    assert_eq!(s.timber, 1);
    assert_eq!(s.charcoal, 1);

    let handle = forge_command(&mut s, FORGE, ForgeAction::ShapeHandle);
    assert!(handle.accepted);
    assert_eq!(s.timber, 0);
    assert_eq!(s.tool_handles, 1);

    let forged = forge_command(&mut s, FORGE, ForgeAction::ForgeFieldTool);
    assert!(forged.accepted);
    assert_eq!(s.iron_ore, 0);
    assert_eq!(s.charcoal, 0);
    assert_eq!(s.tool_handles, 0);
    assert_eq!(s.field_tool_kind, FieldToolKind::Iron);
    assert_eq!(s.field_tool_condition, 6);

    // Forging again is refused: the tool is made once.
    let again = forge_command(&mut s, FORGE, ForgeAction::ForgeFieldTool);
    assert!(!again.accepted);
    assert_eq!(
        again.reason.as_deref(),
        Some("The iron field tool is already in full working order.")
    );
}

fn accepted_tending_actions(tool: FieldToolKind, attempts: u8) -> u8 {
    let rules = CropRules { mature_stage: 3, wheat_value: 4, turnip_value: 5, moonberry_value: 7 };
    let plot = Position { x: 10, y: 8 };
    let mut f = Farmer {
        position: plot,
        knocked_out: false,
        seeds: 0,
        seeds_planted: 0,
        field_tool_condition: max_condition(tool),
        skill: 0,
        gold: 0,
        wheat: 0,
        turnips: 0,
        moonberries: 0,
    };
    let mut animals: Vec<FarmAnimal> = Vec::new();
    let mut accepted = 0;
    for _ in 0..attempts {
        let mut plots = vec![FieldPlot {
            position: plot,
            crop: Some(CropState {
                kind: CropKind::Wheat,
                stage: 0,
                quality: 1,
                planted_tick: 0,
                last_tended_tick: None,
            }),
        }];
        let response = farming_command(
            &mut plots,
            &mut animals,
            &mut f,
            rules,
            CropKind::Wheat,
            0,
            1,
            1,
            plot,
            FarmingAction::Tend,
        );
        accepted += u8::from(response.accepted);
    }
    accepted
}

#[test]
fn iron_field_tool_doubles_useful_actions_without_removing_crude_fallback() {
    let crude_actions = accepted_tending_actions(FieldToolKind::Crude, 7);
    let iron_actions = accepted_tending_actions(FieldToolKind::Iron, 7);

    assert_eq!(crude_actions, 3);
    assert_eq!(iron_actions, 6);
    assert_eq!(iron_actions, crude_actions * 2);
}

#[test]
fn a_knocked_out_smith_is_sent_to_recover() {
    let mut s = smith(Position { x: 10, y: 5 });
    s.timber = 1;
    s.knocked_out = true;
    let refused = forge_command(&mut s, FORGE, ForgeAction::ShapeHandle);
    assert_eq!(refused.reason.as_deref(), Some("Recover before working at the rough forge."));
    assert_eq!(s.timber, 1);
    assert_eq!(s.tool_handles, 0);
}
