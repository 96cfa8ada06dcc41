use tarrowyn_repository::travel::{
    route_action, travel_command, RouteAction, RouteRecord, RouteRequest, RouteStatus,
    TravelAction, TravelNote, TravelRequest, TravelState, TravelStatus,
};

fn route(id: &str, origin: &str, status: RouteStatus) -> RouteRecord {
    RouteRecord {
        route_id: id.to_owned(),
        origin_location_id: origin.to_owned(),
        destination_location_id: "riverbend".to_owned(),
        travel_ticks: 6,
        risk_percent: 20,
        status,
        condition: 90,
        capacity: 10,
        repair_cost: 7,
        last_action_tick: 0,
    }
}

fn routes() -> Vec<RouteRecord> {
    vec![
        route("hearth-river", "hearth", RouteStatus::Operational),
        route("hearth-ridge", "hearth", RouteStatus::Closed),
        route("ridge-hearth", "ridge", RouteStatus::Operational),
    ]
}

fn start(id: Option<&str>) -> TravelRequest {
    TravelRequest { action: TravelAction::Start, route_id: id.map(str::to_owned) }
}

fn act(action: TravelAction) -> TravelRequest {
    TravelRequest { action, route_id: None }
}

#[test]
fn a_journey_starts_stops_safely_and_resumes() {
    let routes = routes();
    let here = "hearth".to_owned();
    let mut journey: Option<TravelState> = None;
    let mut next = 4u64;

    let none = travel_command(&mut journey, &routes, &mut next, &here, false, 10, &start(None));
    assert_eq!(none.reason.as_deref(), Some("Choose a visible route before starting travel."));
    let elsewhere =
        travel_command(&mut journey, &routes, &mut next, &here, false, 10, &start(Some("ridge-hearth")));
    assert_eq!(
        elsewhere.reason.as_deref(),
        Some("That route does not depart from the player's current location.")
    );
    let closed =
        travel_command(&mut journey, &routes, &mut next, &here, false, 10, &start(Some("hearth-ridge")));
    assert_eq!(
        closed.reason.as_deref(),
        Some("The route is closed; a repair or escort action is required.")
    );
    assert_eq!(next, 4);

    let started =
        travel_command(&mut journey, &routes, &mut next, &here, false, 10, &start(Some("hearth-river")));
    assert!(started.accepted);
    assert_eq!(started.note, Some(TravelNote::Started));
    let t = journey.clone().expect("journey begun");
    assert_eq!(t.travel_id, "travel-4");
    assert_eq!(t.eta_tick, 16);
    assert_eq!(t.risk_percent, 20);
    assert_eq!(t.status, TravelStatus::Travelling);
    assert_eq!(next, 5);

    let busy =
        travel_command(&mut journey, &routes, &mut next, &here, false, 11, &start(Some("hearth-river")));
    assert_eq!(
        busy.reason.as_deref(),
        Some("Finish or recover the current journey before starting another.")
    );

    let early = travel_command(&mut journey, &routes, &mut next, &here, false, 11, &act(TravelAction::Resume));
    assert_eq!(early.reason.as_deref(), Some("That journey is not waiting for recovery."));

    let stopped =
        travel_command(&mut journey, &routes, &mut next, &here, false, 12, &act(TravelAction::Interrupt));
    assert_eq!(stopped.note, Some(TravelNote::Interrupted));
    let t = journey.clone().unwrap();
    assert_eq!(t.status, TravelStatus::Interrupted);
    assert_eq!(t.interruption.as_deref(), Some("A route warning stopped the caravan safely."));

    let again =
        travel_command(&mut journey, &routes, &mut next, &here, false, 12, &act(TravelAction::Interrupt));
    assert_eq!(again.reason.as_deref(), Some("Only a journey in progress can be interrupted."));

    let resumed =
        travel_command(&mut journey, &routes, &mut next, &here, false, 13, &act(TravelAction::Recover));
    assert_eq!(resumed.note, Some(TravelNote::Recovered));
    let t = journey.unwrap();
    assert_eq!(t.status, TravelStatus::Travelling);
    assert_eq!(t.eta_tick, 16);
    assert_eq!(t.recovery_note.as_deref(), Some("The route crew found a safe continuation."));
}

#[test]
fn recovering_without_a_journey_is_refused() {
    let routes = routes();
    let mut journey: Option<TravelState> = None;
    let mut next = 1u64;
    let here = "hearth".to_owned();
    let r = travel_command(&mut journey, &routes, &mut next, &here, false, 1, &act(TravelAction::Recover));
    assert_eq!(r.reason.as_deref(), Some("There is no interrupted journey to recover."));
    let r = travel_command(&mut journey, &routes, &mut next, &here, false, 1, &act(TravelAction::Interrupt));
    assert_eq!(r.reason.as_deref(), Some("There is no journey to interrupt."));
}

#[test]
fn route_logistics_repair_escort_and_improve() {
    let mut routes = routes();
    let here = "hearth".to_owned();
    let mut gold = 10u32;

    let missing = route_action(
        &mut routes,
        &here,
        &mut gold,
        5,
        &RouteRequest { route_id: "nowhere".to_owned(), action: RouteAction::Repair },
    )
    .unwrap_err();
    assert_eq!(missing.status, 404);
    assert_eq!(missing.error.code, "route_not_found");

    let away = route_action(
        &mut routes,
        &here,
        &mut gold,
        5,
        &RouteRequest { route_id: "ridge-hearth".to_owned(), action: RouteAction::Escort },
    )
    .unwrap_err();
    assert_eq!(away.status, 409);
    assert_eq!(away.error.code, "route_out_of_interest");

    let repair = RouteRequest { route_id: "hearth-ridge".to_owned(), action: RouteAction::Repair };
    assert!(route_action(&mut routes, &here, &mut gold, 6, &repair).unwrap().accepted);
    assert_eq!(gold, 3);
    assert_eq!(routes[1].condition, 100);
    assert_eq!(routes[1].risk_percent, 12);
    assert_eq!(routes[1].status, RouteStatus::Operational);

    let poor = route_action(&mut routes, &here, &mut gold, 7, &repair).unwrap();
    assert!(!poor.accepted);
    assert_eq!(
        poor.reason.as_deref(),
        Some("The repair crew needs more gold than this character carries.")
    );
    assert_eq!(routes[1].last_action_tick, 7);
    assert_eq!(gold, 3);

    let escort = RouteRequest { route_id: "hearth-river".to_owned(), action: RouteAction::Escort };
    route_action(&mut routes, &here, &mut gold, 8, &escort).unwrap();
    assert_eq!(routes[0].risk_percent, 10);
    assert_eq!(routes[0].status, RouteStatus::Delayed);

    let improve = RouteRequest { route_id: "hearth-river".to_owned(), action: RouteAction::Improve };
    route_action(&mut routes, &here, &mut gold, 9, &improve).unwrap();
    assert_eq!(routes[0].capacity, 12);
    assert_eq!(routes[0].travel_ticks, 5);
    assert_eq!(routes[0].condition, 98);
    assert_eq!(routes[2].last_action_tick, 0);
    assert_eq!(routes[2].risk_percent, 20);
}
