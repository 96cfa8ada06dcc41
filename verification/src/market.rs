//! The regional market: a resident escrows goods at their settlement into
//! an order bound for another settlement along an open route, a trader who
//! reaches the destination settles the shipment and is paid, and the owner
//! may cancel an open order. Moving the goods themselves (the escrow at the
//! origin, the delivery or the refund) belongs to the settlement stock,
//! which the caller keeps; these functions decide and record.
use crate::travel::{RouteRecord, RouteStatus};
use crate::text::{decimal, numbered};
use vstd::prelude::*;
use vstd::string::*;

verus! {

/// The most goods one order holds.
pub const MAX_ORDER_QUANTITY: u32 = 99;

#[derive(Debug, Clone, Copy, PartialEq, Eq, Structural)]
pub enum MarketOrderAction {
    Create,
    Fulfil,
    Cancel,
}

#[derive(Debug, Clone, Copy, PartialEq, Eq, Structural)]
pub enum MarketOrderStatus {
    Open,
    Fulfilled,
    Cancelled,
}

/// A cross-settlement order for goods of kind `C`.
#[derive(Debug, Clone)]
pub struct MarketOrder<C> {
    pub order_id: String,
    pub owner_account_id: String,
    pub owner_name: String,
    pub origin_location_id: String,
    pub destination_location_id: String,
    pub commodity: C,
    pub quantity: u32,
    pub unit_price: u32,
    pub total_price: u32,
    pub status: MarketOrderStatus,
    pub created_tick: u64,
    pub settled_tick: Option<u64>,
    pub route_id: String,
    pub fallback_used: bool,
}

/// The orders on record and the number the next one takes.
#[derive(Debug, Clone)]
pub struct MarketBook<C> {
    pub orders: Vec<MarketOrder<C>>,
    pub next_order_id: u64,
}

#[derive(Debug, Clone)]
pub struct MarketOrderRequest<C> {
    pub action: MarketOrderAction,
    pub order_id: Option<String>,
    pub destination_location_id: Option<String>,
    pub commodity: Option<C>,
    pub quantity: Option<u32>,
}

/// What a new order will carry, once its request has been checked.
#[derive(Debug, Clone)]
pub struct OrderPlan<C> {
    pub destination_location_id: String,
    pub commodity: C,
    pub quantity: u32,
    pub route_id: String,
    pub risk_percent: u8,
}

/// The trader who settles a shipment.
#[derive(Debug, Clone, Copy, PartialEq, Eq, Structural)]
pub struct Trader {
    pub gold: u32,
    pub reputation: u32,
}

#[derive(Debug, Clone)]
pub struct MarketOutcome<C> {
    pub accepted: bool,
    pub order: Option<MarketOrder<C>>,
    pub reason: Option<String>,
}

// ---------------------------------------------------------------- specs

pub open spec fn sat_add_u32(a: u32, b: u32) -> u32 {
    if a + b > u32::MAX { u32::MAX } else { (a + b) as u32 }
}

pub open spec fn sat_mul_u32(a: u32, b: u32) -> u32 {
    if a * b > u32::MAX { u32::MAX } else { (a * b) as u32 }
}

pub open spec fn sat_add_u64(a: u64, b: u64) -> u64 {
    if a + b > u64::MAX { u64::MAX } else { (a + b) as u64 }
}

/// A route that carries goods from `origin` to `destination`.
pub open spec fn carries(r: RouteRecord, origin: Seq<char>, destination: Seq<char>) -> bool {
    r.origin_location_id@ == origin && r.destination_location_id@ == destination && r.status
        != RouteStatus::Closed
}

/// `k` is the first route that carries goods from `origin` to
/// `destination`.
pub open spec fn first_carrier(routes: Seq<RouteRecord>, origin: Seq<char>, destination: Seq<char>, k: int) -> bool {
    &&& 0 <= k < routes.len()
    &&& carries(routes[k], origin, destination)
    &&& forall|q: int| 0 <= q < k ==> !carries(#[trigger] routes[q], origin, destination)
}

pub open spec fn no_carrier(routes: Seq<RouteRecord>, origin: Seq<char>, destination: Seq<char>) -> bool {
    forall|q: int| 0 <= q < routes.len() ==> !carries(#[trigger] routes[q], origin, destination)
}

/// The checks a new order passes before its goods are escrowed, in the
/// order they are made; on success, the plan the route gives it.
pub open spec fn plan_post<C>(
    routes: Seq<RouteRecord>,
    origin: Seq<char>,
    req: MarketOrderRequest<C>,
    r: Result<OrderPlan<C>, String>,
) -> bool {
    match req.destination_location_id {
        None => r matches Err(s) && s@ == "Choose a destination settlement."@,
        Some(dest) => match req.commodity {
            None => r matches Err(s) && s@ == "Choose the good to move."@,
            Some(commodity) => {
                let q = match req.quantity {
                    Some(q) => q,
                    None => 0,
                };
                if q == 0 || q > MAX_ORDER_QUANTITY {
                    r matches Err(s) && s@ == "Orders hold between 1 and 99 goods."@
                } else if no_carrier(routes, origin, dest@) {
                    r matches Err(s) && s@ == "No open route carries that good from here."@
                } else {
                    r matches Ok(p) && exists|k: int|
                        #[trigger] first_carrier(routes, origin, dest@, k) && {
                            &&& p.destination_location_id@ == dest@
                            &&& p.commodity == commodity
                            &&& p.quantity == q
                            &&& p.route_id@ == routes[k].route_id@
                            &&& p.risk_percent == routes[k].risk_percent
                        }
                }
            },
        },
    }
}

/// The price of one unit: the good's base price and a tenth of the
/// route's risk.
pub open spec fn unit_price_for(base_price: u32, risk_percent: u8) -> u32 {
    sat_add_u32(base_price, (risk_percent / 10) as u32)
}

/// The order a checked plan opens.
pub open spec fn opened<C>(
    o: MarketOrder<C>,
    plan: OrderPlan<C>,
    id: u64,
    owner: Seq<char>,
    name: Seq<char>,
    origin: Seq<char>,
    base_price: u32,
    tick: u64,
) -> bool {
    let unit = unit_price_for(base_price, plan.risk_percent);
    &&& o.order_id@ == "market-order-"@ + decimal(id as nat)
    &&& o.owner_account_id@ == owner
    &&& o.owner_name@ == name
    &&& o.origin_location_id@ == origin
    &&& o.destination_location_id@ == plan.destination_location_id@
    &&& o.commodity == plan.commodity
    &&& o.quantity == plan.quantity
    &&& o.unit_price == unit
    &&& o.total_price == sat_mul_u32(unit, plan.quantity)
    &&& o.status == MarketOrderStatus::Open
    &&& o.created_tick == tick
    &&& o.settled_tick is None
    &&& o.route_id@ == plan.route_id@
    &&& !o.fallback_used
}

/// `k` is the first order named `id`; no order is named by `None`.
pub open spec fn order_named<C>(orders: Seq<MarketOrder<C>>, id: Option<String>, k: int) -> bool {
    &&& id matches Some(name)
    &&& 0 <= k < orders.len()
    &&& orders[k].order_id@ == name@
    &&& forall|q: int| 0 <= q < k ==> (#[trigger] orders[q]).order_id@ != name@
}

pub open spec fn unnamed<C>(orders: Seq<MarketOrder<C>>, id: Option<String>) -> bool {
    match id {
        None => true,
        Some(name) => forall|q: int| 0 <= q < orders.len() ==> (#[trigger] orders[q]).order_id@ != name@,
    }
}

pub open spec fn refused<C>(
    b: MarketBook<C>,
    b2: MarketBook<C>,
    r: MarketOutcome<C>,
    shown: Option<MarketOrder<C>>,
    text: Seq<char>,
) -> bool {
    &&& !r.accepted
    &&& r.order == shown
    &&& r.reason matches Some(s) && s@ == text
    &&& b2 == b
}

/// The book after order `k` closes with `status` on beat `tick`.
pub open spec fn closed<C>(b: MarketBook<C>, b2: MarketBook<C>, k: int, status: MarketOrderStatus, tick: u64, r: MarketOutcome<C>) -> bool {
    let o2 = MarketOrder { status, settled_tick: Some(tick), ..b.orders@[k] };
    &&& r.accepted && r.reason is None
    &&& r.order == Some(o2)
    &&& b2.next_order_id == b.next_order_id
    &&& b2.orders@ == b.orders@.update(k, o2)
}

/// Settling the order named `id` by a trader at `location` on beat `tick`.
pub open spec fn fulfil_post<C>(
    b: MarketBook<C>,
    b2: MarketBook<C>,
    t: Trader,
    t2: Trader,
    id: Option<String>,
    location: Seq<char>,
    tick: u64,
    r: MarketOutcome<C>,
) -> bool {
    if unnamed(b.orders@, id) {
        refused(b, b2, r, None, "That market order is not recorded."@) && t2 == t
    } else {
        exists|k: int|
            #[trigger] order_named(b.orders@, id, k) && {
                let o = b.orders@[k];
                if o.status != MarketOrderStatus::Open {
                    refused(b, b2, r, Some(o), "That order has already been settled or closed."@) && t2 == t
                } else if o.destination_location_id@ != location {
                    refused(b, b2, r, Some(o), "Arrive at the order destination before settling the shipment."@)
                        && t2 == t
                } else {
                    &&& closed(b, b2, k, MarketOrderStatus::Fulfilled, tick, r)
                    &&& t2 == Trader {
                        gold: sat_add_u32(t.gold, o.total_price),
                        reputation: sat_add_u32(t.reputation, 1),
                    }
                }
            }
    }
}

/// Cancelling the order named `id` by the account `account` on beat
/// `tick`.
pub open spec fn cancel_post<C>(
    b: MarketBook<C>,
    b2: MarketBook<C>,
    account: Seq<char>,
    id: Option<String>,
    tick: u64,
    r: MarketOutcome<C>,
) -> bool {
    if unnamed(b.orders@, id) {
        refused(b, b2, r, None, "That market order is not recorded."@)
    } else {
        exists|k: int|
            #[trigger] order_named(b.orders@, id, k) && {
                let o = b.orders@[k];
                if o.owner_account_id@ != account {
                    refused(b, b2, r, Some(o), "Only the order owner can cancel an escrow."@)
                } else if o.status != MarketOrderStatus::Open {
                    refused(b, b2, r, Some(o), "Only an open order can be cancelled."@)
                } else {
                    closed(b, b2, k, MarketOrderStatus::Cancelled, tick, r)
                }
            }
    }
}

// ---------------------------------------------------------------- exec

/// An exact copy of an order.
pub fn copy_order<C: Copy>(o: &MarketOrder<C>) -> (r: MarketOrder<C>)
    ensures
        r == *o,
{
    MarketOrder {
        order_id: o.order_id.clone(),
        owner_account_id: o.owner_account_id.clone(),
        owner_name: o.owner_name.clone(),
        origin_location_id: o.origin_location_id.clone(),
        destination_location_id: o.destination_location_id.clone(),
        commodity: o.commodity,
        quantity: o.quantity,
        unit_price: o.unit_price,
        total_price: o.total_price,
        status: o.status,
        created_tick: o.created_tick,
        settled_tick: o.settled_tick,
        route_id: o.route_id.clone(),
        fallback_used: o.fallback_used,
    }
}

fn find_carrier(routes: &Vec<RouteRecord>, origin: &String, destination: &String) -> (r: Option<usize>)
    ensures
        match r {
            Some(k) => first_carrier(routes@, origin@, destination@, k as int),
            None => no_carrier(routes@, origin@, destination@),
        },
{
    let n = routes.len();
    for k in 0..n
        invariant
            n == routes@.len(),
            forall|q: int| 0 <= q < k ==> !carries(#[trigger] routes@[q], origin@, destination@),
    {
        let r = &routes[k];
        if r.origin_location_id == *origin && r.destination_location_id == *destination && r.status
            != RouteStatus::Closed {
            return Some(k);
        }
    }
    None
}

/// Checks a request for a new order leaving `origin`: it names a
/// destination and a good, holds 1 to 99 goods, and an open route carries
/// goods from here to the destination.
pub fn plan_order<C: Copy>(routes: &Vec<RouteRecord>, origin: &String, request: &MarketOrderRequest<C>) -> (r: Result<OrderPlan<C>, String>)
    ensures
        plan_post(routes@, origin@, *request, r),
{
    let Some(destination) = &request.destination_location_id else {
        return Err(String::from_str("Choose a destination settlement."));
    };
    let Some(commodity) = request.commodity else {
        return Err(String::from_str("Choose the good to move."));
    };
    let quantity = match request.quantity {
        Some(q) => q,
        None => 0,
    };
    if quantity == 0 || quantity > MAX_ORDER_QUANTITY {
        return Err(String::from_str("Orders hold between 1 and 99 goods."));
    }
    let Some(k) = find_carrier(routes, origin, destination) else {
        return Err(String::from_str("No open route carries that good from here."));
    };
    let plan = OrderPlan {
        destination_location_id: destination.clone(),
        commodity,
        quantity,
        route_id: routes[k].route_id.clone(),
        risk_percent: routes[k].risk_percent,
    };
    assert(first_carrier(routes@, origin@, destination@, k as int));
    Ok(plan)
}

/// Why an order cannot open when its goods are short at the origin.
pub fn escrow_shortfall(commodity_label: &str) -> (s: String)
    ensures
        s@ == "There is not enough "@ + commodity_label@ + " at the origin to escrow."@,
{
    String::from_str("There is not enough ").concat(commodity_label).concat(" at the origin to escrow.")
}

/// Opens the order `plan` describes for the owner, once its goods are in
/// escrow; a good of base price `base_price` costs a tenth of the route's
/// risk more per unit.
pub fn open_order<C: Copy>(
    book: &mut MarketBook<C>,
    plan: &OrderPlan<C>,
    owner_account_id: &String,
    owner_name: &String,
    origin: &String,
    base_price: u32,
    tick: u64,
) -> (o: MarketOrder<C>)
    ensures
        opened(o, *plan, old(book).next_order_id, owner_account_id@, owner_name@, origin@, base_price, tick),
        final(book).orders@ == old(book).orders@.push(o),
        final(book).next_order_id == sat_add_u64(old(book).next_order_id, 1),
{
    let unit_price = base_price.saturating_add((plan.risk_percent / 10) as u32);
    let a: u64 = unit_price as u64;
    let b: u64 = plan.quantity as u64;
    assert(a * b <= u64::MAX) by (nonlinear_arith)
        requires
            a <= u32::MAX,
            b <= u32::MAX,
    ;
    let product: u64 = a * b;
    let total_price: u32 = if product > u32::MAX as u64 {
        u32::MAX
    } else {
        product as u32
    };
    let order = MarketOrder {
        order_id: numbered("market-order-", book.next_order_id),
        owner_account_id: owner_account_id.clone(),
        owner_name: owner_name.clone(),
        origin_location_id: origin.clone(),
        destination_location_id: plan.destination_location_id.clone(),
        commodity: plan.commodity,
        quantity: plan.quantity,
        unit_price,
        total_price,
        status: MarketOrderStatus::Open,
        created_tick: tick,
        settled_tick: None,
        route_id: plan.route_id.clone(),
        fallback_used: false,
    };
    book.next_order_id = book.next_order_id.saturating_add(1);
    let shown = copy_order(&order);
    book.orders.push(order);
    shown
}

fn find_order<C>(orders: &Vec<MarketOrder<C>>, id: &Option<String>) -> (r: Option<usize>)
    ensures
        match r {
            Some(k) => order_named(orders@, *id, k as int),
            None => unnamed(orders@, *id),
        },
{
    match id {
        None => None,
        Some(name) => {
            let n = orders.len();
            for k in 0..n
                invariant
                    n == orders@.len(),
                    *id == Some(*name),
                    forall|q: int| 0 <= q < k ==> (#[trigger] orders@[q]).order_id@ != name@,
            {
                if orders[k].order_id == *name {
                    return Some(k);
                }
            }
            None
        },
    }
}

fn refuse<C>(shown: Option<MarketOrder<C>>, text: &str) -> (r: MarketOutcome<C>)
    ensures
        !r.accepted && r.order == shown && (r.reason matches Some(s) && s@ == text@),
{
    MarketOutcome { accepted: false, order: shown, reason: Some(text.to_owned()) }
}

fn close_order<C: Copy>(book: &mut MarketBook<C>, k: usize, status: MarketOrderStatus, tick: u64) -> (r: MarketOutcome<C>)
    requires
        k < old(book).orders@.len(),
    ensures
        closed(*old(book), *final(book), k as int, status, tick, r),
{
    let mut o = copy_order(&book.orders[k]);
    o.status = status;
    o.settled_tick = Some(tick);
    let shown = copy_order(&o);
    book.orders.set(k, o);
    MarketOutcome { accepted: true, order: Some(shown), reason: None }
}

/// Settles the shipment named `order_id` for a trader standing at
/// `location`: the order must be open and bound for here; the trader is
/// paid its total price and gains a point of reputation. The caller then
/// delivers the goods to the owner at the destination.
pub fn fulfil_order<C: Copy>(
    book: &mut MarketBook<C>,
    trader: &mut Trader,
    order_id: &Option<String>,
    location: &String,
    tick: u64,
) -> (r: MarketOutcome<C>)
    ensures
        fulfil_post(*old(book), *final(book), *old(trader), *final(trader), *order_id, location@, tick, r),
{
    let Some(k) = find_order(&book.orders, order_id) else {
        return refuse(None, "That market order is not recorded.");
    };
    assert(order_named(book.orders@, *order_id, k as int));
    if book.orders[k].status != MarketOrderStatus::Open {
        return refuse(Some(copy_order(&book.orders[k])), "That order has already been settled or closed.");
    }
    if book.orders[k].destination_location_id != *location {
        return refuse(
            Some(copy_order(&book.orders[k])),
            "Arrive at the order destination before settling the shipment.",
        );
    }
    trader.gold = trader.gold.saturating_add(book.orders[k].total_price);
    trader.reputation = trader.reputation.saturating_add(1);
    close_order(book, k, MarketOrderStatus::Fulfilled, tick)
}

/// Cancels the order named `order_id` for its owner `account`: only the
/// owner may, and only while it is open. The caller then returns the
/// escrowed goods to the owner at the origin.
pub fn cancel_order<C: Copy>(
    book: &mut MarketBook<C>,
    account: &String,
    order_id: &Option<String>,
    tick: u64,
) -> (r: MarketOutcome<C>)
    ensures
        cancel_post(*old(book), *final(book), account@, *order_id, tick, r),
{
    let Some(k) = find_order(&book.orders, order_id) else {
        return refuse(None, "That market order is not recorded.");
    };
    assert(order_named(book.orders@, *order_id, k as int));
    if book.orders[k].owner_account_id != *account {
        return refuse(Some(copy_order(&book.orders[k])), "Only the order owner can cancel an escrow.");
    }
    if book.orders[k].status != MarketOrderStatus::Open {
        return refuse(Some(copy_order(&book.orders[k])), "Only an open order can be cancelled.");
    }
    close_order(book, k, MarketOrderStatus::Cancelled, tick)
}

// ---------------------------------------------------------------- laws

/// A shipment is settled once, at its destination: a refused step changes
/// nothing, and an accepted one moves an open order bound for the
/// trader's settlement to fulfilled and pays the trader its total price.
pub proof fn lemma_orders_close_once<C>(
    b: MarketBook<C>,
    b2: MarketBook<C>,
    t: Trader,
    t2: Trader,
    id: Option<String>,
    location: Seq<char>,
    tick: u64,
    r: MarketOutcome<C>,
)
    requires
        fulfil_post(b, b2, t, t2, id, location, tick, r),
    ensures
        !r.accepted ==> b2 == b && t2 == t,
        r.accepted ==> exists|k: int|
            #[trigger] order_named(b.orders@, id, k) && b.orders@[k].status == MarketOrderStatus::Open
                && b.orders@[k].destination_location_id@ == location
                && b2.orders@[k].status == MarketOrderStatus::Fulfilled
                && t2.gold == sat_add_u32(t.gold, b.orders@[k].total_price),
{
}

/// Only the owner cancels an order.
pub proof fn lemma_market_authority<C>(
    b: MarketBook<C>,
    b2: MarketBook<C>,
    account: Seq<char>,
    id: Option<String>,
    tick: u64,
    r: MarketOutcome<C>,
)
    requires
        cancel_post(b, b2, account, id, tick, r),
        r.accepted,
    ensures
        exists|k: int| #[trigger] order_named(b.orders@, id, k) && b.orders@[k].owner_account_id@ == account,
{
}

} // verus!
