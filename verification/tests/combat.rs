use tarrowyn_repository::combat::{
    combat_entry, default_combat, label, local_combat, technique_damage, weapon_damage, CombatNote,
    CombatOutcome, CombatPractice, Combatant, LocalCombatAction, LocalCombatRequest,
    LocalCombatState, LocalCombatStatus, WeaponKind,
};
use tarrowyn_repository::frontier::Position;
use tarrowyn_repository::travel::{
    travel_command, RouteRecord, RouteStatus, TravelAction, TravelRequest, TravelState,
};

/// Whisperwood Edge, where the local encounter waits.
const ZONE: Position = Position { x: 10, y: 3 };

/// A fighter two steps from the encounter, as after the four opening moves.
fn fighter() -> Combatant {
    Combatant {
        position: Position { x: 9, y: 2 },
        gold: 12,
        skill: 0,
        bandages: 1,
        seeds: 2,
        knocked_out: false,
        injuries: 0,
        recovery_cost: 0,
    }
}

struct Encounter {
    combat: LocalCombatState,
    player: Combatant,
    tick: u64,
    cooldown: u64,
}

impl Encounter {
    fn new(cooldown: u64) -> Self {
        Encounter { combat: default_combat(), player: fighter(), tick: 0, cooldown }
    }

    fn act(&mut self, action: LocalCombatAction, weapon: WeaponKind) -> CombatOutcome {
        local_combat(
            &mut self.combat,
            &mut self.player,
            ZONE,
            self.tick,
            self.cooldown,
            &LocalCombatRequest { action, weapon },
        )
    }
}

#[test]
fn local_combat_accepts_one_opening_weapon_technique() {
    let mut fight = Encounter::new(0);
    fight.act(LocalCombatAction::Prepare, WeaponKind::IronSword);
    fight.player.position.x -= 1;
    let out_of_range = fight.act(LocalCombatAction::Strike, WeaponKind::IronSword);
    assert!(!out_of_range.accepted);
    assert_eq!(fight.combat.turn, 0);
    assert!(out_of_range
        .reason
        .as_deref()
        .is_some_and(|reason| reason.contains("Whisperwood")));
    fight.player.position.x += 1;

    let technique = fight.act(LocalCombatAction::Technique, WeaponKind::IronSword);
    assert!(technique.accepted);
    assert_eq!(fight.combat.enemy_health, 1);
    assert_eq!(fight.combat.turn, 1);
    assert!(technique.prompt.contains("technique"));

    let repeated = fight.act(LocalCombatAction::Technique, WeaponKind::IronSword);
    assert!(!repeated.accepted);
    assert_eq!(fight.combat.turn, 1);
    assert!(repeated.reason.unwrap().contains("opening"));
}

#[test]
fn local_combat_rejects_same_tick_actions_until_the_server_window_opens() {
    let mut fight = Encounter::new(1);
    let prepared = fight.act(LocalCombatAction::Prepare, WeaponKind::IronSword);
    assert!(prepared.accepted);
    assert_eq!(fight.combat.action_available_at_tick, 1);

    let too_soon = fight.act(LocalCombatAction::Strike, WeaponKind::IronSword);
    assert!(!too_soon.accepted);
    assert!(too_soon.reason.unwrap().contains("server beat 1"));
    assert_eq!(fight.combat.turn, 0);

    fight.tick = 1;
    let after_window = fight.act(LocalCombatAction::Strike, WeaponKind::IronSword);
    assert!(after_window.accepted);
    assert_eq!(fight.combat.turn, 1);
    assert_eq!(fight.combat.enemy_health, 1);
    assert_eq!(fight.combat.action_available_at_tick, 2);
}

#[test]
fn local_combat_can_spend_a_bandage_after_a_bounded_injury() {
    let mut fight = Encounter::new(0);
    fight.act(LocalCombatAction::Prepare, WeaponKind::Shield);
    fight.act(LocalCombatAction::Strike, WeaponKind::Shield);
    assert_eq!(fight.combat.player_health, 1);
    let treated = fight.act(LocalCombatAction::UseItem, WeaponKind::Shield);
    assert!(treated.accepted);
    assert_eq!(fight.combat.player_health, 2);
    assert_eq!(fight.combat.turn, 2);
    assert_eq!(fight.player.bandages, 0);
}

#[test]
fn local_combat_reposition_protects_the_next_strike() {
    let mut fight = Encounter::new(0);
    fight.act(LocalCombatAction::Prepare, WeaponKind::Shield);
    let repositioned = fight.act(LocalCombatAction::Reposition, WeaponKind::Shield);
    assert!(repositioned.accepted);
    assert!(fight.combat.reposition_ready);
    let protected_strike = fight.act(LocalCombatAction::Strike, WeaponKind::Shield);
    assert!(protected_strike.accepted);
    assert_eq!(fight.combat.player_health, 2);
    assert!(!fight.combat.reposition_ready);
}

fn north_road() -> RouteRecord {
    RouteRecord {
        route_id: "north-pack-road".to_owned(),
        origin_location_id: "hearth".to_owned(),
        destination_location_id: "north-camp".to_owned(),
        travel_ticks: 4,
        risk_percent: 10,
        status: RouteStatus::Operational,
        condition: 90,
        capacity: 8,
        repair_cost: 6,
        last_action_tick: 0,
    }
}

#[test]
fn knocked_out_local_player_cannot_reenter_before_recovery() {
    let mut fight = Encounter::new(0);
    fight.act(LocalCombatAction::Prepare, WeaponKind::Shield);
    fight.act(LocalCombatAction::Strike, WeaponKind::Shield);
    let knockout = fight.act(LocalCombatAction::Strike, WeaponKind::Shield);
    assert_eq!(fight.combat.status, LocalCombatStatus::KnockedOut);
    assert_eq!(knockout.note, Some(CombatNote::Knockout));
    assert!(fight.player.knocked_out);
    assert_eq!(fight.player.position, Position { x: 8, y: 5 });
    assert_eq!(fight.player.seeds, 1);

    let bypass = fight.act(LocalCombatAction::Prepare, WeaponKind::IronSword);
    assert!(!bypass.accepted);
    assert_eq!(fight.combat.status, LocalCombatStatus::KnockedOut);
    assert!(bypass
        .reason
        .as_deref()
        .is_some_and(|reason| reason.contains("recovery")));

    let mut journey: Option<TravelState> = None;
    let mut next_travel_id = 1;
    let travel_bypass = travel_command(
        &mut journey,
        &vec![north_road()],
        &mut next_travel_id,
        &"hearth".to_owned(),
        fight.player.knocked_out,
        0,
        &TravelRequest {
            action: TravelAction::Start,
            route_id: Some("north-pack-road".to_owned()),
        },
    );
    assert!(!travel_bypass.accepted);
    assert!(travel_bypass
        .reason
        .as_deref()
        .is_some_and(|reason| reason.contains("recovery")));
    assert!(journey.is_none());

    // The recovery choice clears the knockout; the fighter walks back.
    fight.player.knocked_out = false;
    fight.player.position = fighter().position;
    let prepared = fight.act(LocalCombatAction::Prepare, WeaponKind::IronSword);
    assert!(prepared.accepted);
    assert_eq!(fight.combat.status, LocalCombatStatus::Engaged);
    assert_eq!(fight.combat.enemy_health, 3);
    assert_eq!(fight.combat.player_health, 2);
}

fn wind_spark_once_per_encounter() {
    let mut fight = Encounter::new(0);
    fight.act(LocalCombatAction::Prepare, WeaponKind::IronSword);
    let cast = fight.act(LocalCombatAction::CastSpell, WeaponKind::IronSword);
    assert!(cast.accepted);
    assert_eq!(fight.combat.enemy_health, 1);
    assert!(!fight.combat.spell_ready);
    assert_eq!(cast.practice, Some(CombatPractice::WindMagic));

    let repeated = fight.act(LocalCombatAction::CastSpell, WeaponKind::IronSword);
    assert!(!repeated.accepted);
    assert!(repeated.reason.unwrap().contains("spent"));
}

#[test]
fn combat_actions_local_combat_can_cast_one_wind_spark_per_encounter() {
    wind_spark_once_per_encounter();
}

#[test]
fn magic_local_combat_can_cast_one_wind_spark_per_encounter() {
    wind_spark_once_per_encounter();
}

fn spear_and_axe_experience() {
    let mut fight = Encounter::new(0);
    for weapon in [WeaponKind::Spear, WeaponKind::Axe] {
        fight.act(LocalCombatAction::Prepare, weapon);
        let first = fight.act(LocalCombatAction::Strike, weapon);
        assert!(first.accepted);
        let second = fight.act(LocalCombatAction::Strike, weapon);
        assert_eq!(fight.combat.status, LocalCombatStatus::Victorious);
        assert_eq!(second.note, Some(CombatNote::Victory));
        assert_eq!(second.practice, Some(CombatPractice::WeaponVictory(weapon)));
    }
    assert_eq!(fight.player.gold, 18);
    assert_eq!(fight.player.skill, 2);
}

#[test]
fn combat_actions_local_combat_records_spear_and_axe_experience() {
    spear_and_axe_experience();
}

#[test]
fn weapon_experience_local_combat_records_spear_and_axe_experience() {
    spear_and_axe_experience();
}

fn readable_recovery_and_safe_storage() {
    let mut fight = Encounter::new(0);
    let prepared = fight.act(LocalCombatAction::Prepare, WeaponKind::IronSword);
    assert!(prepared.accepted);
    assert!(prepared.prompt.contains("TECHNIQUE"));
    let guarded = fight.act(LocalCombatAction::Guard, WeaponKind::IronSword);
    assert!(guarded.accepted);
    assert_eq!(fight.combat.turn, 1);
    assert_eq!(fight.combat.player_health, 2);
    let strike = fight.act(LocalCombatAction::Strike, WeaponKind::IronSword);
    assert!(strike.accepted);
    fight.act(LocalCombatAction::Strike, WeaponKind::IronSword);
    assert_eq!(fight.combat.status, LocalCombatStatus::Victorious);
    assert!(fight.combat.stored_property_safe);
}

#[test]
fn recovery_local_combat_has_readable_recovery_and_safe_storage_rules() {
    readable_recovery_and_safe_storage();
}

#[test]
fn tests_local_combat_has_readable_recovery_and_safe_storage_rules() {
    readable_recovery_and_safe_storage();
}

#[test]
fn combat_status_projects_ready_state_without_inserting_a_record() {
    let fresh = default_combat();
    assert_eq!(fresh.status, LocalCombatStatus::Ready);
    assert_eq!(fresh.enemy_health, 3);
    assert_eq!(fresh.player_health, 2);
    assert!(fresh.spell_ready);
}

#[test]
fn acting_before_preparing_is_refused_without_change() {
    let mut fight = Encounter::new(0);
    let refused = fight.act(LocalCombatAction::Strike, WeaponKind::Bow);
    assert!(!refused.accepted);
    assert_eq!(
        refused.reason.as_deref(),
        Some("Prepare the local encounter before striking.")
    );
    assert_eq!(fight.combat.status, LocalCombatStatus::Ready);
    let retreat = fight.act(LocalCombatAction::Retreat, WeaponKind::Bow);
    assert!(!retreat.accepted);
    fight.act(LocalCombatAction::Prepare, WeaponKind::Bow);
    let retreat = fight.act(LocalCombatAction::Retreat, WeaponKind::Bow);
    assert!(retreat.accepted);
    assert_eq!(retreat.note, Some(CombatNote::Retreat));
    assert_eq!(fight.combat.status, LocalCombatStatus::Retreated);
    assert_eq!(fight.player, fighter());
}

#[test]
fn weapon_tables_and_labels() {
    assert_eq!(weapon_damage(WeaponKind::Spear), 3);
    assert_eq!(weapon_damage(WeaponKind::Shield), 1);
    assert_eq!(technique_damage(WeaponKind::Bow), 2);
    assert_eq!(label(WeaponKind::ImprovisedClub), "improvised club");
}

#[test]
fn accepted_encounter_steps_are_chronicled() {
    let win = combat_entry(CombatNote::Victory, WeaponKind::IronSword, 2);
    assert_eq!(win.kind, "combat victory");
    assert_eq!(win.text, format!("The {} ended the encounter after 2 turns.", label(WeaponKind::IronSword)));
    assert_eq!(combat_entry(CombatNote::Knockout, WeaponKind::Shield, 0).kind, "combat knockout");
    assert_eq!(combat_entry(CombatNote::Retreat, WeaponKind::Shield, 0).title, "A traveller chooses a reversible retreat");
}
