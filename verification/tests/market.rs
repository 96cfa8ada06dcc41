use tarrowyn_repository::market::{
    cancel_order, escrow_shortfall, fulfil_order, open_order, plan_order, MarketBook,
    MarketOrderAction, MarketOrderRequest, MarketOrderStatus, Trader,
};
use tarrowyn_repository::travel::{RouteRecord, RouteStatus};

#[derive(Debug, Clone, Copy, PartialEq, Eq)]
enum Good {
    Grain,
    Salt,
}

fn route(id: &str, origin: &str, destination: &str, status: RouteStatus) -> RouteRecord {
    RouteRecord {
        route_id: id.to_owned(),
        origin_location_id: origin.to_owned(),
        destination_location_id: destination.to_owned(),
        travel_ticks: 4,
        risk_percent: 25,
        status,
        condition: 80,
        capacity: 10,
        repair_cost: 5,
        last_action_tick: 0,
    }
}

fn routes() -> Vec<RouteRecord> {
    vec![
        route("hearth-river-old", "hearth", "riverbend", RouteStatus::Closed),
        route("hearth-river", "hearth", "riverbend", RouteStatus::Delayed),
        route("hearth-ridge", "hearth", "ridge", RouteStatus::Closed),
    ]
}

fn create(destination: Option<&str>, commodity: Option<Good>, quantity: Option<u32>) -> MarketOrderRequest<Good> {
    MarketOrderRequest {
        action: MarketOrderAction::Create,
        order_id: None,
        destination_location_id: destination.map(str::to_owned),
        commodity,
        quantity,
    }
}

#[test]
fn an_order_needs_a_destination_a_good_a_quantity_and_an_open_route() {
    let routes = routes();
    let here = "hearth".to_owned();
    let refusal = |r: &MarketOrderRequest<Good>| plan_order(&routes, &here, r).err();
    assert_eq!(refusal(&create(None, Some(Good::Grain), Some(3))).as_deref(), Some("Choose a destination settlement."));
    assert_eq!(refusal(&create(Some("riverbend"), None, Some(3))).as_deref(), Some("Choose the good to move."));
    assert_eq!(
        refusal(&create(Some("riverbend"), Some(Good::Grain), None)).as_deref(),
        Some("Orders hold between 1 and 99 goods.")
    );
    assert_eq!(
        refusal(&create(Some("riverbend"), Some(Good::Grain), Some(100))).as_deref(),
        Some("Orders hold between 1 and 99 goods.")
    );
    assert_eq!(
        refusal(&create(Some("ridge"), Some(Good::Grain), Some(3))).as_deref(),
        Some("No open route carries that good from here.")
    );
    let plan = plan_order(&routes, &here, &create(Some("riverbend"), Some(Good::Salt), Some(99))).unwrap();
    assert_eq!(plan.route_id, "hearth-river");
    assert_eq!(plan.commodity, Good::Salt);
    assert_eq!(plan.quantity, 99);
    assert_eq!(plan.risk_percent, 25);
    assert_eq!(
        escrow_shortfall("salt"),
        "There is not enough salt at the origin to escrow."
    );
}

#[test]
fn orders_are_settled_at_their_destination_or_cancelled_by_their_owner() {
    let routes = routes();
    let here = "hearth".to_owned();
    let mut book: MarketBook<Good> = MarketBook { orders: Vec::new(), next_order_id: 3 };
    let plan = plan_order(&routes, &here, &create(Some("riverbend"), Some(Good::Grain), Some(4))).unwrap();
    let order = open_order(&mut book, &plan, &"ada".to_owned(), &"Ada".to_owned(), &here, 6, 10);
    assert_eq!(order.order_id, "market-order-3");
    assert_eq!(order.unit_price, 8);
    assert_eq!(order.total_price, 32);
    assert_eq!(order.status, MarketOrderStatus::Open);
    assert_eq!(book.next_order_id, 4);
    let second = open_order(&mut book, &plan, &"ada".to_owned(), &"Ada".to_owned(), &here, 6, 11);
    assert_eq!(second.order_id, "market-order-4");

    let mut trader = Trader { gold: 5, reputation: 0 };
    let unknown = fulfil_order(&mut book, &mut trader, &Some("market-order-9".to_owned()), &"riverbend".to_owned(), 12);
    assert_eq!(unknown.reason.as_deref(), Some("That market order is not recorded."));
    let unnamed = fulfil_order(&mut book, &mut trader, &None, &"riverbend".to_owned(), 12);
    assert_eq!(unnamed.reason.as_deref(), Some("That market order is not recorded."));
    let early = fulfil_order(&mut book, &mut trader, &Some("market-order-3".to_owned()), &here, 12);
    assert_eq!(
        early.reason.as_deref(),
        Some("Arrive at the order destination before settling the shipment.")
    );
    assert_eq!(trader.gold, 5);

    let settled = fulfil_order(&mut book, &mut trader, &Some("market-order-3".to_owned()), &"riverbend".to_owned(), 14);
    assert!(settled.accepted);
    assert_eq!(trader, Trader { gold: 37, reputation: 1 });
    assert_eq!(book.orders[0].status, MarketOrderStatus::Fulfilled);
    assert_eq!(book.orders[0].settled_tick, Some(14));
    let twice = fulfil_order(&mut book, &mut trader, &Some("market-order-3".to_owned()), &"riverbend".to_owned(), 15);
    assert_eq!(twice.reason.as_deref(), Some("That order has already been settled or closed."));
    assert_eq!(trader.gold, 37);

    let stranger = cancel_order(&mut book, &"bo".to_owned(), &Some("market-order-4".to_owned()), 16);
    assert_eq!(stranger.reason.as_deref(), Some("Only the order owner can cancel an escrow."));
    let cancelled = cancel_order(&mut book, &"ada".to_owned(), &Some("market-order-4".to_owned()), 17);
    assert!(cancelled.accepted);
    assert_eq!(book.orders[1].status, MarketOrderStatus::Cancelled);
    assert_eq!(book.orders[1].settled_tick, Some(17));
    let closed = cancel_order(&mut book, &"ada".to_owned(), &Some("market-order-3".to_owned()), 18);
    assert_eq!(closed.reason.as_deref(), Some("Only an open order can be cancelled."));
}

#[test]
fn prices_saturate_instead_of_wrapping() {
    let routes = routes();
    let here = "hearth".to_owned();
    let mut book: MarketBook<Good> = MarketBook { orders: Vec::new(), next_order_id: u64::MAX };
    let plan = plan_order(&routes, &here, &create(Some("riverbend"), Some(Good::Grain), Some(99))).unwrap();
    let order = open_order(&mut book, &plan, &"ada".to_owned(), &"Ada".to_owned(), &here, u32::MAX - 1, 1);
    assert_eq!(order.unit_price, u32::MAX);
    assert_eq!(order.total_price, u32::MAX);
    assert_eq!(book.next_order_id, u64::MAX);
}
