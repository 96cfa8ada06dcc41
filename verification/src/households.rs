//! Settlement households decide, on every decision beat, whether to stay:
//! they weigh demand, the road's safety, housing, food and competition,
//! reduce their service step by step under poor conditions, and return
//! when the settlement can use them again.
use crate::farming::FieldPlot;
use crate::governance::{HouseholdLifeStatus, HouseholdRecord, InfrastructureRecord, InfrastructureStatus};
use crate::professions::{ServiceOrder, ServiceOrderStatus};
use vstd::prelude::*;
use vstd::string::*;

verus! {

/// What a decision beat weighs.
#[derive(Debug, Clone, Copy, PartialEq, Eq, Structural)]
pub struct SettlementConditions {
    pub road_safe: bool,
    /// Open and accepted service orders, counted modulo 256.
    pub open_orders: u8,
    pub plots_available: bool,
    pub crops_growing: bool,
    pub funded: bool,
}

/// The chronicle entry a household decision asks for.
#[derive(Debug, Clone, Copy, PartialEq, Eq, Structural)]
pub enum HouseholdNote {
    Arrival,
    ServiceRestored,
    ReducedService,
    DepartureWarning,
    Departure,
}

// ---------------------------------------------------------------- specs

pub open spec fn cap(v: int, max: int) -> u8 {
    (if v > max { max } else { v }) as u8
}

/// Conditions a household will not stay under: an unsafe road, or no
/// housing plot left. (Food never falls below the line a household draws.)
pub open spec fn poor_conditions(c: SettlementConditions) -> bool {
    !c.road_safe || !c.plots_available
}

pub open spec fn worse(s: HouseholdLifeStatus) -> HouseholdLifeStatus {
    match s {
        HouseholdLifeStatus::Arrived => HouseholdLifeStatus::ReducedService,
        HouseholdLifeStatus::ReducedService => HouseholdLifeStatus::ConsideringDeparture,
        _ => HouseholdLifeStatus::Departed,
    }
}

pub open spec fn poor_clue(c: SettlementConditions) -> Seq<char> {
    if !c.road_safe {
        "The Bellweather household has reduced service: the road no longer feels safe."@
    } else {
        "The Bellweather household asks for housing, food, or demand before it commits."@
    }
}

pub open spec fn good_clue() -> Seq<char> {
    "The miller and healer are staying because demand, food, housing, and roads are holding."@
}

/// The household after a decision beat, with its clue given apart.
pub open spec fn decided(h: HouseholdRecord, c: SettlementConditions, tick: u64) -> HouseholdRecord {
    let demand = cap(h.demand + cap(c.open_orders * 4, 255), 100);
    let poor = poor_conditions(c);
    HouseholdRecord {
        last_decision_tick: tick,
        demand,
        safety: if c.road_safe { 78 } else { 38 },
        housing: if c.plots_available { 72 } else { 48 },
        food: if c.crops_growing { 76 } else { 58 },
        competition: cap(cap(c.open_orders * 10, 255) as int, 80),
        service_quality: if poor {
            if h.service_quality >= 8 { (h.service_quality - 8) as u8 } else { 0 }
        } else {
            cap(h.service_quality + if c.funded { 6int } else { 2int }, 100)
        },
        status: if poor { worse(h.status) } else { HouseholdLifeStatus::Arrived },
        ..h
    }
}

/// The chronicle entries one household's decision asks for, in order.
pub open spec fn notes_for(h: HouseholdRecord, c: SettlementConditions) -> Seq<HouseholdNote> {
    let demand = cap(h.demand + cap(c.open_orders * 4, 255), 100);
    if poor_conditions(c) {
        let s = worse(h.status);
        if s == h.status {
            Seq::empty()
        } else {
            seq![
                match s {
                    HouseholdLifeStatus::ReducedService => HouseholdNote::ReducedService,
                    HouseholdLifeStatus::ConsideringDeparture => HouseholdNote::DepartureWarning,
                    _ => HouseholdNote::Departure,
                },
            ]
        }
    } else if h.status == HouseholdLifeStatus::Departed && demand >= 60 {
        seq![HouseholdNote::Arrival]
    } else if h.status != HouseholdLifeStatus::Arrived {
        seq![HouseholdNote::ServiceRestored]
    } else {
        Seq::empty()
    }
}

pub open spec fn all_notes(hs: Seq<HouseholdRecord>, c: SettlementConditions) -> Seq<HouseholdNote>
    decreases hs.len(),
{
    if hs.len() == 0 {
        Seq::empty()
    } else {
        all_notes(hs.drop_last(), c) + notes_for(hs.last(), c)
    }
}

/// A decision beat: a nonzero beat that falls on the interval.
pub open spec fn decision_beat(tick: u64, interval: u64) -> bool {
    let i = if interval < 1 { 1 } else { interval };
    tick != 0 && tick % i == 0
}

/// The index of the first infrastructure record with id `id`, or `-1`.
pub open spec fn record_named(rs: Seq<InfrastructureRecord>, id: Seq<char>) -> int
    decreases rs.len(),
{
    if rs.len() == 0 {
        -1
    } else if rs[0].infrastructure_id@ == id {
        0
    } else {
        let r = record_named(rs.drop_first(), id);
        if r < 0 { -1 } else { r + 1 }
    }
}

/// The north road is recorded and has not failed.
pub open spec fn road_safe_spec(rs: Seq<InfrastructureRecord>) -> bool {
    let i = record_named(rs, "north-road"@);
    i >= 0 && rs[i].status != InfrastructureStatus::Failed
}

pub open spec fn is_live(o: ServiceOrder) -> bool {
    o.status == ServiceOrderStatus::Open || o.status == ServiceOrderStatus::Accepted
}

pub open spec fn live_orders(os: Seq<ServiceOrder>) -> nat
    decreases os.len(),
{
    if os.len() == 0 {
        0
    } else {
        live_orders(os.drop_last()) + if is_live(os.last()) { 1nat } else { 0nat }
    }
}

pub open spec fn any_crop(plots: Seq<FieldPlot>) -> bool {
    exists|i: int| 0 <= i < plots.len() && (#[trigger] plots[i]).crop is Some
}

// ---------------------------------------------------------------- conditions

proof fn lemma_record_named_bounds(rs: Seq<InfrastructureRecord>, id: Seq<char>)
    ensures
        -1 <= record_named(rs, id) < rs.len(),
    decreases rs.len(),
{
    if rs.len() > 0 && rs[0].infrastructure_id@ != id {
        lemma_record_named_bounds(rs.drop_first(), id);
    }
}

/// Whether the north road is recorded and has not failed.
pub fn road_is_safe(rs: &Vec<InfrastructureRecord>) -> (r: bool)
    ensures
        r == road_safe_spec(rs@),
{
    proof {
        lemma_record_named_bounds(rs@, "north-road"@);
    }
    let id = String::from_str("north-road");
    let n = rs.len();
    let mut i: usize = 0;
    assert(rs@.subrange(0, n as int) =~= rs@);
    while i < n
        invariant
            n == rs@.len(),
            i <= n,
            id@ == "north-road"@,
            record_named(rs@, id@) == if record_named(rs@.subrange(i as int, n as int), id@) < 0 {
                -1
            } else {
                record_named(rs@.subrange(i as int, n as int), id@) + i
            },
        decreases n - i,
    {
        let ghost rest = rs@.subrange(i as int, n as int);
        assert(rest.drop_first() =~= rs@.subrange(i + 1, n as int));
        assert(rest[0] == rs@[i as int]);
        if rs[i].infrastructure_id == id {
            return rs[i].status != InfrastructureStatus::Failed;
        }
        i = i + 1;
    }
    assert(rs@.subrange(n as int, n as int).len() == 0);
    false
}

/// The open and accepted service orders, counted modulo 256.
pub fn open_order_count(os: &Vec<ServiceOrder>) -> (r: u8)
    ensures
        r == live_orders(os@) % 256,
{
    let mut count: u64 = 0;
    for i in 0..os.len()
        invariant
            count == live_orders(os@.take(i as int)),
            count <= i,
            i <= os@.len(),
    {
        assert(os@.take(i + 1).drop_last() =~= os@.take(i as int));
        if os[i].status == ServiceOrderStatus::Open || os[i].status == ServiceOrderStatus::Accepted {
            count = count + 1;
        }
    }
    assert(os@.take(os@.len() as int) =~= os@);
    (count % 256) as u8
}

/// Whether some shared plot holds a crop.
pub fn crops_growing(plots: &Vec<FieldPlot>) -> (r: bool)
    ensures
        r == any_crop(plots@),
{
    let n = plots.len();
    for i in 0..n
        invariant
            n == plots@.len(),
            forall|q: int| 0 <= q < i ==> (#[trigger] plots@[q]).crop is None,
    {
        if plots[i].crop.is_some() {
            return true;
        }
    }
    false
}

// ---------------------------------------------------------------- beat

fn decide(h: &HouseholdRecord, c: SettlementConditions, tick: u64, notes: &mut Vec<HouseholdNote>) -> (r:
    HouseholdRecord)
    ensures
        r == (HouseholdRecord { clue: r.clue, ..decided(*h, c, tick) }),
        r.clue@ == if poor_conditions(c) { poor_clue(c) } else { good_clue() },
        final(notes)@ == old(notes)@ + notes_for(*h, c),
{
    let ghost before = notes@;
    let added: u16 = c.open_orders as u16 * 4;
    let add4: u8 = if added > 255 { 255 } else { added as u8 };
    let d: u16 = h.demand as u16 + add4 as u16;
    let demand: u8 = if d > 100 { 100 } else { d as u8 };
    let comp_raw: u16 = c.open_orders as u16 * 10;
    let comp_sat: u8 = if comp_raw > 255 { 255 } else { comp_raw as u8 };
    let competition: u8 = if comp_sat > 80 { 80 } else { comp_sat };
    let safety: u8 = if c.road_safe { 78 } else { 38 };
    let housing: u8 = if c.plots_available { 72 } else { 48 };
    let food: u8 = if c.crops_growing { 76 } else { 58 };
    let poor = safety < 50 || housing < 50 || food < 50;
    let old_status = h.status;
    let (quality, clue, status) = if poor {
        let q = h.service_quality.saturating_sub(8);
        let clue = if safety < 50 {
            String::from_str(
                "The Bellweather household has reduced service: the road no longer feels safe.",
            )
        } else {
            String::from_str(
                "The Bellweather household asks for housing, food, or demand before it commits.",
            )
        };
        let s = match h.status {
            HouseholdLifeStatus::Arrived => HouseholdLifeStatus::ReducedService,
            HouseholdLifeStatus::ReducedService => HouseholdLifeStatus::ConsideringDeparture,
            _ => HouseholdLifeStatus::Departed,
        };
        (q, clue, s)
    } else {
        let bonus: u16 = if c.funded { 6 } else { 2 };
        let q16: u16 = h.service_quality as u16 + bonus;
        let q: u8 = if q16 > 100 { 100 } else { q16 as u8 };
        if h.status == HouseholdLifeStatus::Departed && demand >= 60 {
            notes.push(HouseholdNote::Arrival);
        } else if h.status != HouseholdLifeStatus::Arrived {
            notes.push(HouseholdNote::ServiceRestored);
        }
        (
            q,
            String::from_str(
                "The miller and healer are staying because demand, food, housing, and roads are holding.",
            ),
            HouseholdLifeStatus::Arrived,
        )
    };
    if status != old_status {
        match status {
            HouseholdLifeStatus::ReducedService => notes.push(HouseholdNote::ReducedService),
            HouseholdLifeStatus::ConsideringDeparture => notes.push(HouseholdNote::DepartureWarning),
            HouseholdLifeStatus::Departed => notes.push(HouseholdNote::Departure),
            HouseholdLifeStatus::Arrived => {},
        }
    }
    assert(notes@ =~= before + notes_for(*h, c));
    HouseholdRecord {
        household_id: h.household_id.clone(),
        status,
        last_decision_tick: tick,
        demand,
        safety,
        housing,
        food,
        competition,
        service_quality: quality,
        clue,
    }
}

proof fn lemma_replace<T>(s: Seq<T>, i: int, x: T)
    requires
        0 <= i < s.len(),
    ensures
        s.remove(i).insert(i, x) == s.update(i, x),
{
    assert(s.remove(i).insert(i, x) =~= s.update(i, x));
}

/// On a decision beat, every household weighs the conditions `c`; the
/// chronicle entries their decisions ask for come back in order.
pub fn household_beat(
    households: &mut Vec<HouseholdRecord>,
    c: SettlementConditions,
    tick: u64,
    interval: u64,
) -> (notes: Vec<HouseholdNote>)
    ensures
        !decision_beat(tick, interval) ==> final(households)@ == old(households)@ && notes@.len()
            == 0,
        decision_beat(tick, interval) ==> {
            &&& final(households)@.len() == old(households)@.len()
            &&& forall|i: int|
                0 <= i < old(households)@.len() ==> {
                    let h2 = #[trigger] final(households)@[i];
                    &&& h2 == (HouseholdRecord { clue: h2.clue, ..decided(old(households)@[i], c, tick) })
                    &&& h2.clue@ == if poor_conditions(c) { poor_clue(c) } else { good_clue() }
                }
            &&& notes@ == all_notes(old(households)@, c)
        },
{
    let mut notes: Vec<HouseholdNote> = Vec::new();
    let i = if interval < 1 { 1 } else { interval };
    if tick == 0 || tick % i != 0 {
        return notes;
    }
    let ghost before = households@;
    let n = households.len();
    let mut k: usize = 0;
    while k < n
        invariant
            n == households@.len(),
            before.len() == n,
            k <= n,
            forall|q: int|
                0 <= q < k ==> {
                    let h2 = #[trigger] households@[q];
                    &&& h2 == (HouseholdRecord { clue: h2.clue, ..decided(before[q], c, tick) })
                    &&& h2.clue@ == if poor_conditions(c) { poor_clue(c) } else { good_clue() }
                },
            forall|q: int| k <= q < n ==> #[trigger] households@[q] == before[q],
            notes@ == all_notes(before.take(k as int), c),
        decreases n - k,
    {
        assert(before.take(k + 1).drop_last() =~= before.take(k as int));
        let h = decide(&households[k], c, tick, &mut notes);
        households.set(k, h);
        k = k + 1;
    }
    assert(before.take(n as int) =~= before);
    notes
}

// ---------------------------------------------------------------- laws

/// Household measures stay within their scales: demand and service
/// quality within 100, competition within 80.
pub proof fn lemma_household_measures_bounded(h: HouseholdRecord, c: SettlementConditions, tick: u64)
    requires
        h.service_quality <= 100,
    ensures
        decided(h, c, tick).demand <= 100,
        decided(h, c, tick).service_quality <= 100,
        decided(h, c, tick).competition <= 80,
{
}

/// A departed household does not announce its departure again while
/// conditions stay poor.
pub proof fn lemma_departure_is_announced_once(h: HouseholdRecord, c: SettlementConditions)
    requires
        h.status == HouseholdLifeStatus::Departed,
        poor_conditions(c),
    ensures
        notes_for(h, c).len() == 0,
{
}

/// Under poor conditions a household leaves only after passing through
/// reduced service and a departure warning, one step per beat.
pub proof fn lemma_departure_takes_three_beats(h: HouseholdRecord, c: SettlementConditions, tick: u64)
    requires
        h.status == HouseholdLifeStatus::Arrived,
        poor_conditions(c),
    ensures
        decided(h, c, tick).status == HouseholdLifeStatus::ReducedService,
        decided(decided(h, c, tick), c, tick).status == HouseholdLifeStatus::ConsideringDeparture,
        decided(decided(decided(h, c, tick), c, tick), c, tick).status == HouseholdLifeStatus::Departed,
{
}

} // verus!
