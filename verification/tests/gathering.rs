use tarrowyn_repository::frontier::Position;
use tarrowyn_repository::gathering::{
    foundation_resource, fresh_resource_nodes, fresh_tool_access, recover_resource_nodes,
    GatherAction, GatherPractice, Gatherer, Landmark, ResourceAmount, ResourceNode,
};
use tarrowyn_repository::storehouse::ResourceKind;

fn landmarks() -> Vec<Landmark> {
    vec![
        Landmark { id: "whisperwood-edge".to_owned(), position: Position { x: 12, y: 2 } },
        Landmark { id: "first-beacon-mine".to_owned(), position: Position { x: 10, y: 3 } },
        Landmark { id: "first-beacon-tool-rack".to_owned(), position: Position { x: 8, y: 5 } },
    ]
}

fn gatherer(position: Position) -> Gatherer {
    Gatherer { position, knocked_out: false, timber: 0, stone: 0, iron_ore: 0 }
}

#[test]
fn fresh_state_exposes_shared_crude_tools_and_bounded_nodes() {
    let nodes = fresh_resource_nodes();
    assert_eq!(nodes.len(), 2);
    assert!(nodes.iter().all(|node| {
        node.recovery_interval_ticks > 0
            && node
                .deposits
                .iter()
                .all(|deposit| deposit.remaining == deposit.capacity && deposit.capacity > 0)
    }));
    let tools = fresh_tool_access();
    assert_eq!(tools.len(), 1);
    assert!(tools[0].available_to_all);
}

#[test]
fn depleted_resources_recover_deterministically_without_exceeding_capacity() {
    let mut nodes = fresh_resource_nodes();
    nodes[0].deposits[0].remaining = 2;

    recover_resource_nodes(&mut nodes, 18);

    assert_eq!(nodes[0].deposits[0].remaining, 5);
    assert_eq!(nodes[0].last_recovered_tick, 18);

    recover_resource_nodes(&mut nodes, 600);
    assert_eq!(nodes[0].deposits[0].remaining, 12);
}

#[test]
fn logging_is_proximity_checked_and_replay_safe() {
    let mut nodes = fresh_resource_nodes();
    let tools = fresh_tool_access();
    let map = landmarks();
    let mut g = gatherer(Position { x: 5, y: 5 });

    let too_far = foundation_resource(&mut nodes, &tools, &map, &mut g, "whisperwood-edge-node", GatherAction::Log)
        .expect("a known node");
    assert!(!too_far.accepted);
    assert_eq!(
        too_far.reason.as_deref(),
        Some("Stand beside the resource before working it.")
    );
    assert_eq!(g.timber, 0);

    g.position = Position { x: 12, y: 3 };
    let first = foundation_resource(&mut nodes, &tools, &map, &mut g, "whisperwood-edge-node", GatherAction::Log)
        .expect("a known node");
    assert!(first.accepted);
    assert_eq!(first.practice, Some(GatherPractice::Forestry));
    assert_eq!(first.yields, vec![ResourceAmount { kind: ResourceKind::Timber, amount: 2 }]);
    assert_eq!(g.timber, 2);
    assert_eq!(nodes[0].deposits[0].remaining, 11);
}

#[test]
fn mining_yields_bounded_stone_and_ore_then_recovers_on_ticks() {
    let mut nodes = fresh_resource_nodes();
    let tools = fresh_tool_access();
    let map = landmarks();
    let mut g = gatherer(Position { x: 10, y: 4 });

    let first = foundation_resource(&mut nodes, &tools, &map, &mut g, "shallow-stone-seam-node", GatherAction::Mine)
        .expect("a known node");

    assert!(first.accepted);
    assert_eq!(g.stone, 2);
    assert_eq!(g.iron_ore, 1);
    assert_eq!(nodes[1].deposits[0].remaining, 9);
    assert_eq!(nodes[1].deposits[1].remaining, 3);

    for tick in 1..=6 {
        recover_resource_nodes(&mut nodes, tick);
    }
    assert_eq!(nodes[1].deposits[0].remaining, 10);
    assert_eq!(nodes[1].deposits[1].remaining, 4);
}

#[test]
fn gathering_selectors_are_bounded_and_name_known_nodes() {
    let mut nodes: Vec<ResourceNode> = fresh_resource_nodes();
    let tools = fresh_tool_access();
    let map = landmarks();
    let mut g = gatherer(Position { x: 12, y: 3 });
    let invalid = foundation_resource(&mut nodes, &tools, &map, &mut g, "node\nwith-control", GatherAction::Log)
        .expect_err("a controlled selector is refused");
    assert_eq!(invalid.status, 400);
    assert_eq!(invalid.error.code, "invalid_foundation_resource");
    let missing = foundation_resource(&mut nodes, &tools, &map, &mut g, "missing-node", GatherAction::Log)
        .expect_err("an unknown node is refused");
    assert_eq!(missing.status, 404);
    assert_eq!(missing.error.code, "foundation_resource_not_found");
    let wrong_work = foundation_resource(&mut nodes, &tools, &map, &mut g, "whisperwood-edge-node", GatherAction::Mine)
        .expect("a known node");
    assert_eq!(wrong_work.reason.as_deref(), Some("Mining requires a marked stone seam."));
    assert_eq!(g.timber, 0);
}

#[test]
fn a_depleted_node_waits_for_its_recovery() {
    let mut nodes = fresh_resource_nodes();
    nodes[0].deposits[0].remaining = 0;
    let tools = fresh_tool_access();
    let map = landmarks();
    let mut g = gatherer(Position { x: 12, y: 3 });
    let depleted = foundation_resource(&mut nodes, &tools, &map, &mut g, "whisperwood-edge-node", GatherAction::Log)
        .expect("a known node");
    assert!(!depleted.accepted);
    assert!(depleted.reason.unwrap().contains("depleted"));
    assert_eq!(g.timber, 0);
}
