use tarrowyn_repository::frontier::Position;
use tarrowyn_repository::placement::{
    escape_path, preview_for_footprint, Direction, Footprint, PlacementRule, PlacementScene,
    TileKind, WorldMap,
};
use tarrowyn_repository::property::{
    integrity_ok, migrate_account, movement_blocked, placement_scene, property_command,
    property_projection, remove_account, restore_properties, BuilderPolicy, MaterialCost,
    Materials, PropertyAccess, PropertyAction, PropertyContract, PropertyLedger, PropertyOutcome,
    PropertyRequest, PropertyStage, Resident, StageDefinition, UpkeepPolicy,
};
use tarrowyn_repository::storehouse::ResourceKind;

const DAY: u64 = 86_400_000;
const NOW: u64 = 1_700_000_000_000;

/// A 16 by 12 meadow with the protected road along row 10.
fn map_with(blocked_row: Option<i32>) -> WorldMap {
    let mut tiles = Vec::new();
    for y in 0..12 {
        for _x in 0..16 {
            tiles.push(if y == 10 {
                TileKind::Path
            } else if Some(y) == blocked_row {
                TileKind::Blocked
            } else {
                TileKind::Meadow
            });
        }
    }
    WorldMap { width: 16, height: 12, tiles }
}

fn contract() -> PropertyContract {
    let cost = |kind, amount| MaterialCost { kind, amount };
    PropertyContract {
        stages: vec![
            StageDefinition {
                stage: PropertyStage::Tent,
                footprint: Footprint { width: 2, height: 2 },
                storage_capacity: 10,
                material_costs: Vec::new(),
            },
            StageDefinition {
                stage: PropertyStage::Camp,
                footprint: Footprint { width: 3, height: 2 },
                storage_capacity: 20,
                material_costs: vec![cost(ResourceKind::Timber, 4), cost(ResourceKind::Stone, 2)],
            },
            StageDefinition {
                stage: PropertyStage::House,
                footprint: Footprint { width: 3, height: 3 },
                storage_capacity: 40,
                material_costs: vec![
                    cost(ResourceKind::Timber, 6),
                    cost(ResourceKind::Stone, 4),
                    cost(ResourceKind::IronOre, 1),
                ],
            },
        ],
        upkeep: UpkeepPolicy {
            interval_real_days: 7,
            condition_loss_per_interval: 10,
            minimum_condition: 20,
            maintenance_restores_condition: 30,
        },
        builder: BuilderPolicy { timber_gold_per_unit: 2, stone_gold_per_unit: 3 },
        builder_position: Position { x: 9, y: 6 },
    }
}

fn resident(account: &str, position: Position) -> Resident {
    Resident {
        account_id: account.to_owned(),
        display_name: format!("{account} name"),
        position,
        knocked_out: false,
        gold: 0,
        materials: Materials { timber: 0, stone: 0, iron_ore: 0 },
    }
}

fn request(action: PropertyAction) -> PropertyRequest {
    PropertyRequest {
        action,
        property_id: None,
        anchor: None,
        entrance: None,
        access: None,
        resource: None,
        amount: 0,
    }
}

struct Settlement {
    ledger: PropertyLedger,
    contract: PropertyContract,
    map: WorldMap,
}

impl Settlement {
    fn new() -> Self {
        Settlement {
            ledger: PropertyLedger { properties: Vec::new(), next_property: 1 },
            contract: contract(),
            map: map_with(None),
        }
    }

    fn scene(&self, players: Vec<Position>) -> PlacementScene {
        placement_scene(self.map.clone(), Vec::new(), players, 2, &self.ledger, &self.contract)
    }

    fn act(&mut self, a: &mut Resident, now: u64, req: &PropertyRequest, others: &[Position]) -> PropertyOutcome {
        let mut players = vec![a.position];
        players.extend_from_slice(others);
        let sc = self.scene(players);
        property_command(&mut self.ledger, &self.contract, &sc, a, now, req).expect("a valid selector")
    }
}

fn place_at(anchor: Position) -> PropertyRequest {
    let mut req = request(PropertyAction::PlaceTent);
    req.anchor = Some(anchor);
    req
}

#[test]
fn a_tent_is_placed_once_on_open_ground() {
    let mut s = Settlement::new();
    let mut a = resident("tent-owner", Position { x: 2, y: 4 });
    let placed = s.act(&mut a, NOW, &place_at(Position { x: 3, y: 4 }), &[]);
    assert!(placed.accepted, "{:?}", placed.reason);
    let preview = placed.preview.unwrap();
    assert!(preview.accepted);
    assert_eq!(preview.entrance, Direction::South);
    let tent = &s.ledger.properties[0];
    assert_eq!(tent.property_id, "personal-property-1");
    assert_eq!(tent.stage, PropertyStage::Tent);
    assert_eq!(tent.storage_capacity, 10);
    assert_eq!(tent.condition, 100);
    assert_eq!(tent.revision, 1);
    assert_eq!(tent.access, PropertyAccess::OwnerOnly);
    assert_eq!(s.ledger.next_property, 2);

    a.position = Position { x: 10, y: 2 };
    let second = s.act(&mut a, NOW, &place_at(Position { x: 11, y: 2 }), &[]);
    assert!(!second.accepted);
    assert_eq!(second.reason.as_deref(), Some("Each resident may place one personal shelter."));
    assert_eq!(s.ledger.properties.len(), 1);
    assert!(movement_blocked(&s.ledger, &s.contract, Position { x: 4, y: 5 }));
    assert!(!movement_blocked(&s.ledger, &s.contract, Position { x: 5, y: 5 }));
}

#[test]
fn the_road_and_the_commons_stay_public() {
    let mut s = Settlement::new();
    let mut a = resident("road-builder", Position { x: 2, y: 4 });
    let mut preview = request(PropertyAction::PreviewPlacement);
    preview.anchor = Some(Position { x: 5, y: 9 });
    let on_road = s.act(&mut a, NOW, &preview, &[]);
    assert!(!on_road.accepted);
    let pv = on_road.preview.unwrap();
    assert_eq!(
        pv.rejected_rules,
        vec![PlacementRule::ClearTerrain, PlacementRule::OutsideProtectedRoute]
    );
    assert_eq!(pv.message, "Placement is blocked by unclear terrain, a protected road.");

    preview.anchor = Some(Position { x: 7, y: 5 });
    let commons = s.act(&mut a, NOW, &preview, &[]).preview.unwrap();
    assert!(commons.rejected_rules.contains(&PlacementRule::OutsideBeaconCommons));
    assert!(s.ledger.properties.is_empty());
}

#[test]
fn a_tent_must_leave_a_way_to_the_road() {
    let mut s = Settlement::new();
    s.map = map_with(Some(8));
    let mut a = resident("walled-in", Position { x: 2, y: 4 });
    let placed = s.act(&mut a, NOW, &place_at(Position { x: 3, y: 4 }), &[]);
    assert!(!placed.accepted);
    assert_eq!(
        placed.preview.unwrap().rejected_rules,
        vec![PlacementRule::EscapePathOpen]
    );
    let sc = s.scene(vec![a.position]);
    let fp = Footprint { width: 2, height: 2 };
    assert!(!escape_path(&sc, Position { x: 3, y: 4 }, fp, &None, Position { x: 4, y: 6 }));
    assert!(escape_path(&sc, Position { x: 3, y: 4 }, fp, &None, Position { x: 4, y: 9 }));
}

#[test]
fn a_tent_cannot_box_a_neighbour_in_or_be_placed_far_away() {
    let mut s = Settlement::new();
    let mut a = resident("careful-builder", Position { x: 2, y: 4 });
    // A neighbour standing in the corner at (0, 0) keeps a way out past a
    // tent at (1, 0) only through (0, 1).
    s.map.tiles[16] = TileKind::Blocked;
    let boxed = s.act(&mut a, NOW, &place_at(Position { x: 1, y: 0 }), &[Position { x: 0, y: 0 }]);
    let pv = boxed.preview.unwrap();
    assert!(pv.rejected_rules.contains(&PlacementRule::EscapePathOpen));
    assert!(pv.rejected_rules.contains(&PlacementRule::EntranceClear));

    let far = s.act(&mut a, NOW, &place_at(Position { x: 12, y: 2 }), &[]);
    assert_eq!(far.preview.unwrap().rejected_rules, vec![PlacementRule::EntranceClear]);
}

#[test]
fn improving_needs_materials_or_the_builder() {
    let mut s = Settlement::new();
    let mut a = resident("improver", Position { x: 2, y: 4 });
    assert!(s.act(&mut a, NOW, &place_at(Position { x: 3, y: 4 }), &[]).accepted);

    let short = s.act(&mut a, NOW, &request(PropertyAction::UpgradeWithMaterials), &[]);
    assert!(!short.accepted);
    assert_eq!(short.reason.as_deref(), Some("This stage needs 4 timber."));

    a.materials = Materials { timber: 5, stone: 2, iron_ore: 1 };
    let camp = s.act(&mut a, NOW + DAY, &request(PropertyAction::UpgradeWithMaterials), &[]);
    assert!(camp.accepted, "{:?}", camp.reason);
    assert_eq!(s.ledger.properties[0].stage, PropertyStage::Camp);
    assert_eq!(s.ledger.properties[0].storage_capacity, 20);
    assert_eq!(s.ledger.properties[0].revision, 2);
    assert_eq!(a.materials, Materials { timber: 1, stone: 0, iron_ore: 1 });

    let not_at_mara = s.act(&mut a, NOW, &request(PropertyAction::HireBuilder), &[]);
    assert_eq!(
        not_at_mara.reason.as_deref(),
        Some("Talk to Mara beside the Beacon to hire builder help.")
    );
    a.position = Position { x: 9, y: 7 };
    a.gold = 15;
    let expensive = s.act(&mut a, NOW, &request(PropertyAction::HireBuilder), &[]);
    assert_eq!(
        expensive.reason.as_deref(),
        Some("Mara needs 22 gold to supply the missing materials for this stage.")
    );
    a.gold = 25;
    let house = s.act(&mut a, NOW, &request(PropertyAction::HireBuilder), &[]);
    assert!(house.accepted, "{:?}", house.reason);
    assert_eq!(a.gold, 3);
    assert_eq!(a.materials, Materials { timber: 0, stone: 0, iron_ore: 0 });
    assert_eq!(s.ledger.properties[0].stage, PropertyStage::House);

    a.position = Position { x: 2, y: 4 };
    let done = s.act(&mut a, NOW, &request(PropertyAction::UpgradeWithMaterials), &[]);
    assert_eq!(done.reason.as_deref(), Some("This shelter is already a first house."));
}

#[test]
fn chests_move_materials_within_their_room_and_access() {
    let mut s = Settlement::new();
    let mut owner = resident("chest-owner", Position { x: 2, y: 4 });
    owner.materials.timber = 12;
    assert!(s.act(&mut owner, NOW, &place_at(Position { x: 3, y: 4 }), &[]).accepted);

    let mut store = request(PropertyAction::Store);
    store.resource = Some(ResourceKind::Timber);
    store.amount = 11;
    let too_much = s.act(&mut owner, NOW, &store, &[]);
    assert_eq!(too_much.reason.as_deref(), Some("That shelter chest does not have enough room."));
    store.amount = 6;
    assert!(s.act(&mut owner, NOW, &store, &[]).accepted);
    assert_eq!(owner.materials.timber, 6);
    assert_eq!(s.ledger.properties[0].storage.timber, 6);

    let mut guest = resident("chest-guest", Position { x: 5, y: 4 });
    guest.materials.stone = 3;
    let mut guest_store = request(PropertyAction::Store);
    guest_store.property_id = Some("personal-property-1".to_owned());
    guest_store.resource = Some(ResourceKind::Stone);
    guest_store.amount = 2;
    let closed = s.act(&mut guest, NOW, &guest_store, &[]);
    assert_eq!(
        closed.reason.as_deref(),
        Some("The owner has not opened this chest to guest deposits.")
    );
    let mut open = request(PropertyAction::SetAccess);
    open.access = Some(PropertyAccess::GuestsAllowed);
    assert!(s.act(&mut owner, NOW, &open, &[]).accepted);
    assert!(s.act(&mut guest, NOW, &guest_store, &[]).accepted);
    assert_eq!(guest.materials.stone, 1);

    let mut take = guest_store.clone();
    take.action = PropertyAction::Collect;
    let refused = s.act(&mut guest, NOW, &take, &[]);
    assert_eq!(refused.reason.as_deref(), Some("Only the owner may collect from this chest."));

    let mut collect = request(PropertyAction::Collect);
    collect.resource = Some(ResourceKind::Timber);
    collect.amount = 4;
    assert!(s.act(&mut owner, NOW, &collect, &[]).accepted);
    assert_eq!(owner.materials.timber, 10);
    assert_eq!(s.ledger.properties[0].storage, Materials { timber: 2, stone: 2, iron_ore: 0 });
    collect.amount = 100;
    let bounded = s.act(&mut owner, NOW, &collect, &[]);
    assert_eq!(bounded.reason.as_deref(), Some("Move between 1 and 99 materials at once."));
}

#[test]
fn shelters_decay_in_real_time_and_maintenance_restores_them() {
    let mut s = Settlement::new();
    let mut a = resident("keeper", Position { x: 2, y: 4 });
    assert!(s.act(&mut a, NOW, &place_at(Position { x: 3, y: 4 }), &[]).accepted);
    let later = NOW + 15 * DAY;
    let (summaries, own) = property_projection(&s.ledger, &s.contract, &a.account_id, later);
    assert_eq!(summaries[0].condition, 80);
    assert_eq!(own.unwrap().condition, 80);
    let (_, far_later) = property_projection(&s.ledger, &s.contract, &a.account_id, NOW + 700 * DAY);
    assert_eq!(far_later.unwrap().condition, 20);

    assert!(s.act(&mut a, later, &request(PropertyAction::Maintain), &[]).accepted);
    assert_eq!(s.ledger.properties[0].condition, 100);
    assert_eq!(s.ledger.properties[0].last_maintained_unix_millis, later);

    let mut stranger = resident("stranger", Position { x: 5, y: 4 });
    let mut maintain = request(PropertyAction::Maintain);
    maintain.property_id = Some("personal-property-1".to_owned());
    let refused = s.act(&mut stranger, later, &maintain, &[]);
    assert_eq!(refused.reason.as_deref(), Some("Only the owner may maintain this shelter."));
}

#[test]
fn knocked_out_residents_only_look() {
    let mut s = Settlement::new();
    let mut a = resident("resting", Position { x: 2, y: 4 });
    a.knocked_out = true;
    let refused = s.act(&mut a, NOW, &place_at(Position { x: 3, y: 4 }), &[]);
    assert_eq!(
        refused.reason.as_deref(),
        Some("Recover at the First Beacon before working on personal shelter.")
    );
    assert!(s.ledger.properties.is_empty());
    let mut preview = request(PropertyAction::PreviewPlacement);
    preview.anchor = Some(Position { x: 3, y: 4 });
    let looked = s.act(&mut a, NOW, &preview, &[]);
    assert!(!looked.accepted);
    assert!(looked.preview.unwrap().accepted);
}

#[test]
fn property_selectors_are_bounded() {
    let mut s = Settlement::new();
    let mut a = resident("selector", Position { x: 2, y: 4 });
    let mut req = request(PropertyAction::Inspect);
    req.property_id = Some("bad\nselector".to_owned());
    let sc = s.scene(vec![a.position]);
    let error = property_command(&mut s.ledger, &s.contract, &sc, &mut a, NOW, &req)
        .expect_err("a controlled selector is refused");
    assert_eq!(error.status, 400);
    assert_eq!(error.error.code, "invalid_property_id");
    req.property_id = Some("personal-property-9".to_owned());
    let missing = s.act(&mut a, NOW, &req, &[]);
    assert_eq!(missing.reason.as_deref(), Some("That personal shelter does not exist."));
}

#[test]
fn stored_ledgers_are_checked_restored_and_moved_between_accounts() {
    let mut s = Settlement::new();
    let mut a = resident("stored-owner", Position { x: 2, y: 4 });
    assert!(s.act(&mut a, NOW, &place_at(Position { x: 3, y: 4 }), &[]).accepted);
    let accounts = vec!["stored-owner".to_owned()];
    let residents = vec![("stored-owner".to_owned(), a.position)];
    let sc = s.scene(vec![a.position]);
    assert!(integrity_ok(&s.ledger, &s.contract, &sc, &accounts, &residents));
    assert!(!integrity_ok(&s.ledger, &s.contract, &sc, &Vec::new(), &residents));
    let mut broken = s.ledger.clone();
    broken.next_property = 0;
    assert!(!integrity_ok(&broken, &s.contract, &sc, &accounts, &residents));

    let mut stored = s.ledger.properties.clone();
    stored[0].condition = 0;
    stored[0].revision = 0;
    stored[0].storage_capacity = 99;
    restore_properties(&mut stored, &s.contract);
    assert_eq!(stored[0].condition, 1);
    assert_eq!(stored[0].revision, 1);
    assert_eq!(stored[0].storage_capacity, 10);

    migrate_account(&mut s.ledger, &"stored-owner".to_owned(), &"new-owner".to_owned(), &"New Owner".to_owned());
    assert_eq!(s.ledger.properties[0].owner_account_id, "new-owner");
    assert_eq!(s.ledger.properties[0].owner_name, "New Owner");
    remove_account(&mut s.ledger, &"new-owner".to_owned());
    assert!(s.ledger.properties.is_empty());
}

#[test]
fn a_larger_shelter_must_still_fit() {
    let mut s = Settlement::new();
    let mut a = resident("cramped", Position { x: 2, y: 8 });
    assert!(s.act(&mut a, NOW, &place_at(Position { x: 3, y: 8 }), &[]).accepted);
    // The tent's entrance opens onto the road at (4, 10); a camp fits, but
    // a house would reach over the road.
    let sc = s.scene(vec![a.position]);
    let house = preview_for_footprint(
        &sc,
        a.position,
        Some(Position { x: 3, y: 8 }),
        Some(Direction::South),
        false,
        Footprint { width: 3, height: 3 },
        &Some("personal-property-1".to_owned()),
    );
    assert!(house.rejected_rules.contains(&PlacementRule::OutsideProtectedRoute));
    a.materials = Materials { timber: 4, stone: 2, iron_ore: 0 };
    assert!(s.act(&mut a, NOW, &request(PropertyAction::UpgradeWithMaterials), &[]).accepted);
    a.materials = Materials { timber: 6, stone: 4, iron_ore: 1 };
    let blocked = s.act(&mut a, NOW, &request(PropertyAction::UpgradeWithMaterials), &[]);
    assert!(!blocked.accepted);
    assert!(blocked
        .reason
        .unwrap()
        .starts_with("The larger shelter cannot fit here: Placement is blocked by"));
    assert_eq!(a.materials, Materials { timber: 6, stone: 4, iron_ore: 1 });
}
