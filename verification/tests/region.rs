use tarrowyn_repository::frontier::Position;
use tarrowyn_repository::region::{region_view, RegionPlace, INTEREST_RADIUS};
use tarrowyn_repository::travel::{RouteRecord, RouteStatus};

fn place(id: &str, x: i32, y: i32) -> RegionPlace {
    RegionPlace { location_id: id.to_owned(), position: Position { x, y } }
}

fn route(id: &str, origin: &str, destination: &str) -> RouteRecord {
    RouteRecord {
        route_id: id.to_owned(),
        origin_location_id: origin.to_owned(),
        destination_location_id: destination.to_owned(),
        travel_ticks: 4,
        risk_percent: 10,
        status: RouteStatus::Operational,
        condition: 80,
        capacity: 10,
        repair_cost: 5,
        last_action_tick: 0,
    }
}

#[test]
fn the_region_shows_what_lies_within_the_interest_radius() {
    assert_eq!(INTEREST_RADIUS, 12);
    let places = vec![
        place("hearth", 0, 0),
        place("riverbend", 7, 5),
        place("ridge", 7, 6),
        place("far-coast", -20, 3),
    ];
    let routes = vec![
        route("ridge-coast", "ridge", "far-coast"),
        route("coast-river", "far-coast", "riverbend"),
        route("coast-ridge", "far-coast", "ridge"),
        route("river-hearth", "riverbend", "hearth"),
    ];
    let settlements = vec!["far-coast".to_owned(), "hearth".to_owned(), "riverbend".to_owned()];
    let view = region_view(&places, &routes, &settlements, &"hearth".to_owned());
    assert_eq!(view.places, vec![0, 1]);
    assert_eq!(view.routes, vec![1, 3]);
    assert_eq!(view.settlements, vec![1, 2]);

    let from_ridge = region_view(&places, &routes, &settlements, &"ridge".to_owned());
    assert_eq!(from_ridge.places, vec![1, 2]);
    assert_eq!(from_ridge.routes, vec![0, 1, 2, 3]);
    assert_eq!(from_ridge.settlements, vec![2]);
}
