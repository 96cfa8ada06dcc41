//! Personal shelters: a resident places one tent on open ground, improves
//! it to a camp and a first house (with gathered materials, or with gold
//! paid to the builder for what is missing), opens its chest to guests,
//! stores and collects materials, and maintains it against real-time decay.
use crate::errors::{RepositoryError, validate_bounded_text};
use crate::frontier::Position;
use crate::errors::bounded_text_refused;
use crate::placement::{
    Direction, Footprint, PlacedShelter, PlacementPreview, PlacementScene, WorldMap, any_tile,
    covers, entrance_of, entrance_tile, escape_exists, flagged, in_footprint, is_preview, manhattan,
    map_wf, on_road, opt_view, preview_for_footprint, rule_flags, sat_i32, shelter_covers, shift,
    someone_boxed_in, tile_of,
};
use crate::storehouse::ResourceKind;
use crate::ledger::{contains_name, views};
use crate::text::{any_control, chars_of, decimal, has_control, numbered, trim_bounds, trim_seq};
use vstd::prelude::*;
use vstd::string::*;

verus! {

/// The most shelters the ledger holds.
pub const MAX_PROPERTIES: usize = 128;

/// The longest property selector, in characters.
pub const MAX_PROPERTY_ID_CHARS: usize = 160;

/// The best condition a shelter can be in.
pub const MAX_PROPERTY_CONDITION: u8 = 100;

/// Milliseconds in a day.
pub const MILLIS_PER_DAY: u64 = 86_400_000;

#[derive(Debug, Clone, Copy, PartialEq, Eq, Structural)]
pub enum PropertyStage {
    Tent,
    Camp,
    House,
}

#[derive(Debug, Clone, Copy, PartialEq, Eq, Structural)]
pub enum PropertyAccess {
    OwnerOnly,
    GuestsAllowed,
}

#[derive(Debug, Clone, Copy, PartialEq, Eq, Structural)]
pub enum PropertyAction {
    PreviewPlacement,
    PlaceTent,
    Inspect,
    UpgradeWithMaterials,
    HireBuilder,
    SetAccess,
    Store,
    Collect,
    Maintain,
}

#[derive(Debug, Clone, Copy, PartialEq, Eq, Structural)]
pub struct MaterialCost {
    pub kind: ResourceKind,
    pub amount: u32,
}

/// What one stage of a shelter is: its size, its chest and what building
/// it costs.
#[derive(Debug, Clone)]
pub struct StageDefinition {
    pub stage: PropertyStage,
    pub footprint: Footprint,
    pub storage_capacity: u32,
    pub material_costs: Vec<MaterialCost>,
}

/// How a shelter decays in real time and what maintenance restores.
#[derive(Debug, Clone, Copy, PartialEq, Eq, Structural)]
pub struct UpkeepPolicy {
    pub interval_real_days: u32,
    pub condition_loss_per_interval: u8,
    pub minimum_condition: u8,
    pub maintenance_restores_condition: u8,
}

/// What the builder charges for each missing unit.
#[derive(Debug, Clone, Copy, PartialEq, Eq, Structural)]
pub struct BuilderPolicy {
    pub timber_gold_per_unit: u32,
    pub stone_gold_per_unit: u32,
}

/// The property rules of the world's content.
#[derive(Debug, Clone)]
pub struct PropertyContract {
    /// The tent, the camp and the house, in that order.
    pub stages: Vec<StageDefinition>,
    pub upkeep: UpkeepPolicy,
    pub builder: BuilderPolicy,
    /// Where the builder waits to be hired.
    pub builder_position: Position,
}

#[derive(Debug, Clone, Copy, PartialEq, Eq, Structural)]
pub struct Materials {
    pub timber: u32,
    pub stone: u32,
    pub iron_ore: u32,
}

#[derive(Debug, Clone)]
pub struct PropertyState {
    pub property_id: String,
    pub owner_account_id: String,
    pub owner_name: String,
    pub stage: PropertyStage,
    pub anchor: Position,
    pub entrance: Direction,
    pub access: PropertyAccess,
    pub revision: u64,
    pub condition: u8,
    pub last_maintained_unix_millis: u64,
    pub storage: Materials,
    pub storage_capacity: u32,
}

/// The shelters of the world and the number the next one takes.
#[derive(Debug, Clone)]
pub struct PropertyLedger {
    pub properties: Vec<PropertyState>,
    pub next_property: u64,
}

/// What of a resident shelter work reads and changes.
#[derive(Debug, Clone)]
pub struct Resident {
    pub account_id: String,
    pub display_name: String,
    pub position: Position,
    pub knocked_out: bool,
    pub gold: u32,
    pub materials: Materials,
}

#[derive(Debug, Clone)]
pub struct PropertyRequest {
    pub action: PropertyAction,
    pub property_id: Option<String>,
    pub anchor: Option<Position>,
    pub entrance: Option<Direction>,
    pub access: Option<PropertyAccess>,
    pub resource: Option<ResourceKind>,
    pub amount: u32,
}

/// What every resident sees of a shelter.
#[derive(Debug, Clone)]
pub struct PropertySummary {
    pub property_id: String,
    pub owner_account_id: String,
    pub owner_name: String,
    pub stage: PropertyStage,
    pub anchor: Position,
    pub entrance: Direction,
    pub access: PropertyAccess,
    pub revision: u64,
    pub condition: u8,
    pub stored_units: u32,
    pub storage_capacity: u32,
}

#[derive(Debug, Clone)]
pub struct PropertyOutcome {
    pub accepted: bool,
    pub reason: Option<String>,
    pub preview: Option<PlacementPreview>,
}

// ---------------------------------------------------------------- model

pub open spec fn stage_index(s: PropertyStage) -> int {
    match s {
        PropertyStage::Tent => 0,
        PropertyStage::Camp => 1,
        PropertyStage::House => 2,
    }
}

/// The contract lists the tent, the camp and the house, in that order.
pub open spec fn contract_wf(c: PropertyContract) -> bool {
    &&& c.stages@.len() == 3
    &&& c.stages@[0].stage == PropertyStage::Tent
    &&& c.stages@[1].stage == PropertyStage::Camp
    &&& c.stages@[2].stage == PropertyStage::House
}

pub open spec fn stage_def(c: PropertyContract, s: PropertyStage) -> StageDefinition {
    c.stages@[stage_index(s)]
}

/// The shelters of a ledger as placement sees them.
pub open spec fn shelters(ps: Seq<PropertyState>, c: PropertyContract) -> Seq<PlacedShelter> {
    ps.map_values(
        |p: PropertyState|
            PlacedShelter {
                property_id: p.property_id,
                anchor: p.anchor,
                footprint: stage_def(c, p.stage).footprint,
            },
    )
}

pub open spec fn sat_add_u32(a: u32, b: u32) -> u32 {
    if a + b > u32::MAX { u32::MAX } else { (a + b) as u32 }
}

pub open spec fn sat_sub_u32(a: u32, b: u32) -> u32 {
    if a >= b { (a - b) as u32 } else { 0 }
}

pub open spec fn sat_add_u64(a: u64, b: u64) -> u64 {
    if a + b > u64::MAX { u64::MAX } else { (a + b) as u64 }
}

/// A shelter's condition at `now`: one loss per full upkeep interval since
/// it was last maintained, never below the policy's floor.
pub open spec fn effective_condition(c: PropertyContract, p: PropertyState, now: u64) -> u8 {
    let span = c.upkeep.interval_real_days * MILLIS_PER_DAY;
    let interval = if span < 1 { 1 } else { span };
    let elapsed = if now >= p.last_maintained_unix_millis { now - p.last_maintained_unix_millis } else { 0 };
    let cycles = elapsed / interval;
    let loss = (if cycles > 255 { 255 } else { cycles }) * c.upkeep.condition_loss_per_interval;
    let loss = if loss > 255 { 255 } else { loss };
    let left = if p.condition >= loss { p.condition - loss } else { 0 };
    (if left < c.upkeep.minimum_condition { c.upkeep.minimum_condition as int } else { left }) as u8
}

pub open spec fn amount_of(m: Materials, k: ResourceKind) -> u32 {
    match k {
        ResourceKind::Timber => m.timber,
        ResourceKind::Stone => m.stone,
        ResourceKind::IronOre => m.iron_ore,
    }
}

pub open spec fn with_amount(m: Materials, k: ResourceKind, v: u32) -> Materials {
    match k {
        ResourceKind::Timber => Materials { timber: v, ..m },
        ResourceKind::Stone => Materials { stone: v, ..m },
        ResourceKind::IronOre => Materials { iron_ore: v, ..m },
    }
}

/// The materials in a chest, summed at the numeric ceiling.
pub open spec fn total_items(m: Materials) -> u32 {
    let t = m.timber + m.stone + m.iron_ore;
    if t > u32::MAX { u32::MAX } else { t as u32 }
}

/// `pos` stands beside the shelter: next to a tile of its footprint or to
/// its entrance.
pub open spec fn beside_shelter(c: PropertyContract, p: PropertyState, pos: Position) -> bool {
    let fp = stage_def(c, p.stage).footprint;
    any_tile(p.anchor, fp, |t: Position| manhattan(pos, t) <= 1) || manhattan(
        pos,
        entrance_of(p.anchor, fp, p.entrance),
    ) <= 1
}

/// The index of the first shelter named `id`, or -1.
pub open spec fn index_named(ps: Seq<PropertyState>, id: Seq<char>) -> int
    decreases ps.len(),
{
    if ps.len() == 0 {
        -1
    } else if ps[0].property_id@ == id {
        0
    } else {
        let r = index_named(ps.drop_first(), id);
        if r < 0 { -1 } else { r + 1 }
    }
}

/// The index of the first shelter owned by `account`, or -1.
pub open spec fn index_owned(ps: Seq<PropertyState>, account: Seq<char>) -> int
    decreases ps.len(),
{
    if ps.len() == 0 {
        -1
    } else if ps[0].owner_account_id@ == account {
        0
    } else {
        let r = index_owned(ps.drop_first(), account);
        if r < 0 { -1 } else { r + 1 }
    }
}

/// The shelter a command selects: the one named, or the actor's own.
pub open spec fn selected(ps: Seq<PropertyState>, sel: Option<String>, account: Seq<char>) -> int {
    match sel {
        Some(id) => index_named(ps, id@),
        None => index_owned(ps, account),
    }
}

proof fn lemma_index_named(ps: Seq<PropertyState>, id: Seq<char>)
    ensures
        -1 <= index_named(ps, id) < ps.len(),
        index_named(ps, id) >= 0 ==> ps[index_named(ps, id)].property_id@ == id,
        index_named(ps, id) < 0 ==> forall|k: int| 0 <= k < ps.len() ==> (#[trigger] ps[k]).property_id@ != id,
        index_named(ps, id) >= 0 ==> forall|k: int| 0 <= k < index_named(ps, id) ==> (#[trigger] ps[k]).property_id@ != id,
    decreases ps.len(),
{
    if ps.len() > 0 && ps[0].property_id@ != id {
        lemma_index_named(ps.drop_first(), id);
        assert forall|k: int| 1 <= k < ps.len() implies ps[k] == ps.drop_first()[k - 1] by {}
    }
}

proof fn lemma_index_owned(ps: Seq<PropertyState>, account: Seq<char>)
    ensures
        -1 <= index_owned(ps, account) < ps.len(),
        index_owned(ps, account) >= 0 ==> ps[index_owned(ps, account)].owner_account_id@ == account,
        index_owned(ps, account) < 0 ==> forall|k: int| 0 <= k < ps.len() ==> (#[trigger] ps[k]).owner_account_id@ != account,
        index_owned(ps, account) >= 0 ==> forall|k: int| 0 <= k < index_owned(ps, account) ==> (#[trigger] ps[k]).owner_account_id@ != account,
    decreases ps.len(),
{
    if ps.len() > 0 && ps[0].owner_account_id@ != account {
        lemma_index_owned(ps.drop_first(), account);
        assert forall|k: int| 1 <= k < ps.len() implies ps[k] == ps.drop_first()[k - 1] by {}
    }
}

// ---------------------------------------------------------------- helpers

/// The definition of stage `s`.
pub fn stage_definition(c: &PropertyContract, s: PropertyStage) -> (d: &StageDefinition)
    requires
        contract_wf(*c),
    ensures
        *d == stage_def(*c, s),
{
    match s {
        PropertyStage::Tent => &c.stages[0],
        PropertyStage::Camp => &c.stages[1],
        PropertyStage::House => &c.stages[2],
    }
}

/// The ledger's shelters as placement sees them.
pub fn shelters_of(ps: &Vec<PropertyState>, c: &PropertyContract) -> (r: Vec<PlacedShelter>)
    requires
        contract_wf(*c),
    ensures
        r@ == shelters(ps@, *c),
{
    let mut r: Vec<PlacedShelter> = Vec::new();
    let n = ps.len();
    for i in 0..n
        invariant
            n == ps@.len(),
            contract_wf(*c),
            r@ == shelters(ps@.take(i as int), *c),
    {
        let p = &ps[i];
        let fp = stage_definition(c, p.stage).footprint;
        r.push(PlacedShelter { property_id: p.property_id.clone(), anchor: p.anchor, footprint: fp });
        assert(r@ =~= shelters(ps@.take(i + 1), *c));
    }
    assert(ps@.take(n as int) =~= ps@);
    r
}

/// A shelter's condition at `now`, after real-time decay.
pub fn condition_at(c: &PropertyContract, p: &PropertyState, now: u64) -> (r: u8)
    ensures
        r == effective_condition(*c, *p, now),
{
    assert((c.upkeep.interval_real_days as int) * (MILLIS_PER_DAY as int) <= u64::MAX) by (nonlinear_arith)
        requires
            c.upkeep.interval_real_days <= u32::MAX,
            MILLIS_PER_DAY == 86_400_000,
    ;
    let span: u64 = (c.upkeep.interval_real_days as u64) * MILLIS_PER_DAY;
    let interval: u64 = if span < 1 { 1 } else { span };
    let cycles: u64 = now.saturating_sub(p.last_maintained_unix_millis) / interval;
    let capped: u64 = if cycles > 255 { 255 } else { cycles };
    assert(capped * (c.upkeep.condition_loss_per_interval as int) <= 255 * 255) by (nonlinear_arith)
        requires
            capped <= 255,
            c.upkeep.condition_loss_per_interval <= 255,
    ;
    let raw: u64 = capped * (c.upkeep.condition_loss_per_interval as u64);
    let loss: u8 = if raw > 255 { 255 } else { raw as u8 };
    let left: u8 = p.condition.saturating_sub(loss);
    if left < c.upkeep.minimum_condition {
        c.upkeep.minimum_condition
    } else {
        left
    }
}

/// How many of `k` the materials hold.
pub fn amount(m: &Materials, k: ResourceKind) -> (r: u32)
    ensures
        r == amount_of(*m, k),
{
    match k {
        ResourceKind::Timber => m.timber,
        ResourceKind::Stone => m.stone,
        ResourceKind::IronOre => m.iron_ore,
    }
}

fn set_amount(m: &mut Materials, k: ResourceKind, v: u32)
    ensures
        *final(m) == with_amount(*old(m), k, v),
{
    match k {
        ResourceKind::Timber => m.timber = v,
        ResourceKind::Stone => m.stone = v,
        ResourceKind::IronOre => m.iron_ore = v,
    }
}

/// The materials in a chest, summed at the numeric ceiling.
pub fn stored_units(m: &Materials) -> (r: u32)
    ensures
        r == total_items(*m),
{
    let t: u64 = m.timber as u64 + m.stone as u64 + m.iron_ore as u64;
    if t > u32::MAX as u64 {
        u32::MAX
    } else {
        t as u32
    }
}

fn distance(a: Position, b: Position) -> (r: i64)
    ensures
        r == manhattan(a, b),
{
    let dx: i64 = if a.x >= b.x { a.x as i64 - b.x as i64 } else { b.x as i64 - a.x as i64 };
    let dy: i64 = if a.y >= b.y { a.y as i64 - b.y as i64 } else { b.y as i64 - a.y as i64 };
    dx + dy
}

/// Whether `pos` stands beside the shelter `p`.
pub fn is_beside(c: &PropertyContract, p: &PropertyState, pos: Position) -> (r: bool)
    requires
        contract_wf(*c),
    ensures
        r == beside_shelter(*c, *p, pos),
{
    let fp = stage_definition(c, p.stage).footprint;
    let ghost pred = |t: Position| manhattan(pos, t) <= 1;
    let mut dy: u8 = 0;
    while dy < fp.height
        invariant
            fp == stage_def(*c, p.stage).footprint,
            dy <= fp.height,
            pred == (|t: Position| manhattan(pos, t) <= 1),
            forall|x: int, y: int| 0 <= y < dy && 0 <= x < fp.width ==> !pred(#[trigger] tile_of(p.anchor, x, y)),
        decreases fp.height - dy,
    {
        let y = shift(p.anchor.y, dy as i64);
        let mut dx: u8 = 0;
        while dx < fp.width
            invariant
                fp == stage_def(*c, p.stage).footprint,
                dy < fp.height,
                dx <= fp.width,
                y == sat_i32(p.anchor.y + dy),
                pred == (|t: Position| manhattan(pos, t) <= 1),
                forall|x: int, y: int| 0 <= y < dy && 0 <= x < fp.width ==> !pred(#[trigger] tile_of(p.anchor, x, y)),
                forall|x: int| 0 <= x < dx ==> !pred(#[trigger] tile_of(p.anchor, x, dy as int)),
            decreases fp.width - dx,
        {
            let t = Position { x: shift(p.anchor.x, dx as i64), y };
            assert(t == tile_of(p.anchor, dx as int, dy as int));
            if distance(pos, t) <= 1 {
                assert(pred(tile_of(p.anchor, dx as int, dy as int)));
                return true;
            }
            dx = dx + 1;
        }
        dy = dy + 1;
    }
    let e = entrance_tile(p.anchor, fp, p.entrance);
    distance(pos, e) <= 1
}

/// The shelter a command selects: the one named, or the actor's own.
pub fn select_property(ps: &Vec<PropertyState>, sel: &Option<String>, account: &String) -> (r: Option<usize>)
    ensures
        match r {
            Some(i) => selected(ps@, *sel, account@) == i && i < ps@.len(),
            None => selected(ps@, *sel, account@) < 0,
        },
{
    proof {
        lemma_index_named(ps@, match sel { Some(s) => s@, None => Seq::empty() });
        lemma_index_owned(ps@, account@);
    }
    let n = ps.len();
    for i in 0..n
        invariant
            n == ps@.len(),
            forall|k: int| 0 <= k < i ==> !(match sel {
                Some(id) => (#[trigger] ps@[k]).property_id@ == id@,
                None => ps@[k].owner_account_id@ == account@,
            }),
    {
        let hit = match sel {
            Some(id) => ps[i].property_id.eq(id),
            None => ps[i].owner_account_id.eq(account),
        };
        if hit {
            proof {
                match sel {
                    Some(id) => {
                        lemma_index_named(ps@, id@);
                        let j = index_named(ps@, id@);
                        assert(ps@[i as int].property_id@ == id@);
                        if j >= 0 && j != i {
                            assert(ps@[j].property_id@ == id@);
                        }
                    },
                    None => {
                        lemma_index_owned(ps@, account@);
                        let j = index_owned(ps@, account@);
                        assert(ps@[i as int].owner_account_id@ == account@);
                        if j >= 0 && j != i {
                            assert(ps@[j].owner_account_id@ == account@);
                        }
                    },
                }
            }
            return Some(i);
        }
    }
    None
}


// ---------------------------------------------------------------- costs

pub open spec fn sat_mul_u32(a: u32, b: u32) -> u32 {
    if a * b > u32::MAX { u32::MAX } else { (a * b) as u32 }
}

pub open spec fn gold_per_unit(c: PropertyContract, k: ResourceKind) -> u32 {
    match k {
        ResourceKind::Timber => c.builder.timber_gold_per_unit,
        ResourceKind::Stone => c.builder.stone_gold_per_unit,
        ResourceKind::IronOre => 0,
    }
}

/// What the builder charges for the units of `costs` that `m` lacks.
pub open spec fn builder_cost(c: PropertyContract, costs: Seq<MaterialCost>, m: Materials) -> u32
    decreases costs.len(),
{
    if costs.len() == 0 {
        0
    } else {
        let last = costs.last();
        sat_add_u32(
            builder_cost(c, costs.drop_last(), m),
            sat_mul_u32(sat_sub_u32(last.amount, amount_of(m, last.kind)), gold_per_unit(c, last.kind)),
        )
    }
}

/// `m` with each cost taken in turn, none below zero.
pub open spec fn drained(m: Materials, costs: Seq<MaterialCost>) -> Materials
    decreases costs.len(),
{
    if costs.len() == 0 {
        m
    } else {
        let m1 = drained(m, costs.drop_last());
        let last = costs.last();
        with_amount(m1, last.kind, sat_sub_u32(amount_of(m1, last.kind), last.amount))
    }
}

/// The index of the first cost `m` cannot cover on its own, or -1.
pub open spec fn first_missing(costs: Seq<MaterialCost>, m: Materials) -> int
    decreases costs.len(),
{
    if costs.len() == 0 {
        -1
    } else if amount_of(m, costs[0].kind) < costs[0].amount {
        0
    } else {
        let r = first_missing(costs.drop_first(), m);
        if r < 0 { -1 } else { r + 1 }
    }
}

pub open spec fn resource_label(k: ResourceKind) -> Seq<char> {
    match k {
        ResourceKind::Timber => "timber"@,
        ResourceKind::Stone => "stone"@,
        ResourceKind::IronOre => "iron ore"@,
    }
}

pub open spec fn next_stage(s: PropertyStage) -> PropertyStage {
    match s {
        PropertyStage::Tent => PropertyStage::Camp,
        _ => PropertyStage::House,
    }
}

fn mul_sat(a: u32, b: u32) -> (r: u32)
    ensures
        r == sat_mul_u32(a, b),
{
    assert((a as int) * (b as int) <= u64::MAX) by (nonlinear_arith)
        requires
            a <= u32::MAX,
            b <= u32::MAX,
    ;
    let p: u64 = (a as u64) * (b as u64);
    if p > u32::MAX as u64 {
        u32::MAX
    } else {
        p as u32
    }
}

fn cost_in_gold(c: &PropertyContract, costs: &Vec<MaterialCost>, m: &Materials) -> (r: u32)
    ensures
        r == builder_cost(*c, costs@, *m),
{
    let mut total: u32 = 0;
    let n = costs.len();
    for i in 0..n
        invariant
            n == costs@.len(),
            total == builder_cost(*c, costs@.take(i as int), *m),
    {
        assert(costs@.take(i + 1).drop_last() =~= costs@.take(i as int));
        let cost = costs[i];
        let per = match cost.kind {
            ResourceKind::Timber => c.builder.timber_gold_per_unit,
            ResourceKind::Stone => c.builder.stone_gold_per_unit,
            ResourceKind::IronOre => 0,
        };
        let missing = cost.amount.saturating_sub(amount(m, cost.kind));
        total = total.saturating_add(mul_sat(missing, per));
    }
    assert(costs@.take(n as int) =~= costs@);
    total
}

fn drain(m: &mut Materials, costs: &Vec<MaterialCost>)
    ensures
        *final(m) == drained(*old(m), costs@),
{
    let n = costs.len();
    for i in 0..n
        invariant
            n == costs@.len(),
            *m == drained(*old(m), costs@.take(i as int)),
    {
        assert(costs@.take(i + 1).drop_last() =~= costs@.take(i as int));
        let cost = costs[i];
        let left = amount(m, cost.kind).saturating_sub(cost.amount);
        set_amount(m, cost.kind, left);
    }
    assert(costs@.take(n as int) =~= costs@);
}

proof fn lemma_first_missing(costs: Seq<MaterialCost>, m: Materials)
    ensures
        -1 <= first_missing(costs, m) < costs.len(),
        first_missing(costs, m) >= 0 ==> amount_of(m, costs[first_missing(costs, m)].kind) < costs[first_missing(costs, m)].amount,
        first_missing(costs, m) < 0 ==> forall|k: int| 0 <= k < costs.len() ==> amount_of(m, (#[trigger] costs[k]).kind) >= costs[k].amount,
        first_missing(costs, m) >= 0 ==> forall|k: int| 0 <= k < first_missing(costs, m) ==> amount_of(m, (#[trigger] costs[k]).kind) >= costs[k].amount,
    decreases costs.len(),
{
    if costs.len() > 0 && amount_of(m, costs[0].kind) >= costs[0].amount {
        lemma_first_missing(costs.drop_first(), m);
        assert forall|k: int| 1 <= k < costs.len() implies costs[k] == costs.drop_first()[k - 1] by {}
    }
}

fn find_missing(costs: &Vec<MaterialCost>, m: &Materials) -> (r: Option<usize>)
    ensures
        match r {
            Some(k) => first_missing(costs@, *m) == k && k < costs@.len(),
            None => first_missing(costs@, *m) < 0,
        },
{
    proof {
        lemma_first_missing(costs@, *m);
    }
    let n = costs.len();
    for i in 0..n
        invariant
            n == costs@.len(),
            forall|k: int| 0 <= k < i ==> amount_of(*m, (#[trigger] costs@[k]).kind) >= costs@[k].amount,
    {
        if amount(m, costs[i].kind) < costs[i].amount {
            proof {
                lemma_first_missing(costs@, *m);
                let j = first_missing(costs@, *m);
                if j >= 0 && j != i {
                    assert(amount_of(*m, costs@[j].kind) < costs@[j].amount);
                }
            }
            return Some(i);
        }
    }
    None
}

fn label_of(k: ResourceKind) -> (s: &'static str)
    ensures
        s@ == resource_label(k),
{
    match k {
        ResourceKind::Timber => "timber",
        ResourceKind::Stone => "stone",
        ResourceKind::IronOre => "iron ore",
    }
}


// ---------------------------------------------------------------- command specs

pub open spec fn turned_down(r: PropertyOutcome, text: Seq<char>) -> bool {
    !r.accepted && (r.reason matches Some(t) && t@ == text)
}

pub open spec fn granted(r: PropertyOutcome) -> bool {
    r.accepted && r.reason is None
}

pub open spec fn kept(g: PropertyLedger, g2: PropertyLedger, a: Resident, a2: Resident) -> bool {
    g2 == g && a2 == a
}

/// Shelter `i` of the ledger is replaced by `p2`.
pub open spec fn changed_property(g: PropertyLedger, g2: PropertyLedger, i: int, p2: PropertyState) -> bool {
    g2.properties@ == g.properties@.update(i, p2) && g2.next_property == g.next_property
}

/// The tent a placement adds.
pub open spec fn new_tent(n: PropertyState, g: PropertyLedger, c: PropertyContract, a: Resident, pv: PlacementPreview, now: u64) -> bool {
    &&& n.property_id@ == "personal-property-"@ + decimal(g.next_property as nat)
    &&& n.owner_account_id == a.account_id
    &&& n.owner_name == a.display_name
    &&& n.stage == PropertyStage::Tent
    &&& n.anchor == pv.anchor
    &&& n.entrance == pv.entrance
    &&& n.access == PropertyAccess::OwnerOnly
    &&& n.revision == 1
    &&& n.condition == MAX_PROPERTY_CONDITION
    &&& n.last_maintained_unix_millis == now
    &&& n.storage == Materials { timber: 0, stone: 0, iron_ore: 0 }
    &&& n.storage_capacity == c.stages@[0].storage_capacity
}

pub open spec fn place_post(
    g: PropertyLedger,
    g2: PropertyLedger,
    c: PropertyContract,
    sc: PlacementScene,
    a: Resident,
    a2: Resident,
    now: u64,
    req: PropertyRequest,
    r: PropertyOutcome,
) -> bool {
    let ps = g.properties@;
    &&& r.preview matches Some(pv) && is_preview(pv, sc, a.position, req.anchor, req.entrance, true, c.stages@[0].footprint, None)
    &&& if !r.preview->0.accepted {
        turned_down(r, r.preview->0.message@) && kept(g, g2, a, a2)
    } else if index_owned(ps, a.account_id@) >= 0 {
        turned_down(r, "Each resident may place one personal shelter."@) && kept(g, g2, a, a2)
    } else if ps.len() >= MAX_PROPERTIES {
        turned_down(r, "The bounded property ledger is full."@) && kept(g, g2, a, a2)
    } else {
        &&& granted(r)
        &&& a2 == a
        &&& g2.next_property == sat_add_u64(g.next_property, 1)
        &&& g2.properties@.len() == ps.len() + 1
        &&& g2.properties@ == ps.push(g2.properties@.last())
        &&& new_tent(g2.properties@.last(), g, c, a, r.preview->0, now)
    }
}

pub open spec fn inspect_post(g: PropertyLedger, g2: PropertyLedger, c: PropertyContract, a: Resident, a2: Resident, req: PropertyRequest, r: PropertyOutcome) -> bool {
    let i = selected(g.properties@, req.property_id, a.account_id@);
    &&& r.preview is None
    &&& kept(g, g2, a, a2)
    &&& if i < 0 {
        turned_down(r, "That personal shelter does not exist."@)
    } else if !beside_shelter(c, g.properties@[i], a.position) {
        turned_down(r, "Walk beside that personal shelter first."@)
    } else {
        granted(r)
    }
}

/// The shelter after an improvement to its next stage.
pub open spec fn improved(c: PropertyContract, p: PropertyState, now: u64) -> PropertyState {
    let def = stage_def(c, next_stage(p.stage));
    PropertyState {
        stage: next_stage(p.stage),
        storage_capacity: def.storage_capacity,
        revision: sat_add_u64(p.revision, 1),
        condition: effective_condition(c, p, now),
        ..p
    }
}

pub open spec fn upgrade_post(
    g: PropertyLedger,
    g2: PropertyLedger,
    c: PropertyContract,
    sc: PlacementScene,
    a: Resident,
    a2: Resident,
    now: u64,
    req: PropertyRequest,
    hire: bool,
    r: PropertyOutcome,
) -> bool {
    let ps = g.properties@;
    let i = selected(ps, req.property_id, a.account_id@);
    if i < 0 {
        turned_down(r, "Place a personal tent before improving it."@) && r.preview is None && kept(g, g2, a, a2)
    } else {
        let p = ps[i];
        if p.owner_account_id@ != a.account_id@ {
            turned_down(r, "Only the owner may improve this shelter."@) && r.preview is None && kept(g, g2, a, a2)
        } else if hire && manhattan(a.position, c.builder_position) > 1 {
            turned_down(r, "Talk to Mara beside the Beacon to hire builder help."@) && r.preview is None
                && kept(g, g2, a, a2)
        } else if !hire && !beside_shelter(c, p, a.position) {
            turned_down(r, "Walk beside your shelter to improve it yourself."@) && r.preview is None
                && kept(g, g2, a, a2)
        } else if p.stage == PropertyStage::House {
            turned_down(r, "This shelter is already a first house."@) && r.preview is None && kept(g, g2, a, a2)
        } else {
            let def = stage_def(c, next_stage(p.stage));
            let costs = def.material_costs@;
            let gold = builder_cost(c, costs, a.materials);
            let k = first_missing(costs, a.materials);
            &&& r.preview matches Some(pv) && is_preview(
                pv,
                sc,
                a.position,
                Some(p.anchor),
                Some(p.entrance),
                false,
                def.footprint,
                Some(p.property_id@),
            )
            &&& if !r.preview->0.accepted {
                turned_down(r, "The larger shelter cannot fit here: "@ + r.preview->0.message@) && kept(g, g2, a, a2)
            } else if hire && a.gold < gold {
                turned_down(
                    r,
                    "Mara needs "@ + decimal(gold as nat) + " gold to supply the missing materials for this stage."@,
                ) && kept(g, g2, a, a2)
            } else if !hire && k >= 0 {
                turned_down(
                    r,
                    "This stage needs "@ + decimal(costs[k].amount as nat) + " "@ + resource_label(costs[k].kind) + "."@,
                ) && kept(g, g2, a, a2)
            } else {
                &&& granted(r)
                &&& a2 == Resident {
                    gold: if hire { (a.gold - gold) as u32 } else { a.gold },
                    materials: drained(a.materials, costs),
                    ..a
                }
                &&& changed_property(g, g2, i, improved(c, p, now))
            }
        }
    }
}

pub open spec fn access_post(g: PropertyLedger, g2: PropertyLedger, c: PropertyContract, a: Resident, a2: Resident, req: PropertyRequest, r: PropertyOutcome) -> bool {
    let ps = g.properties@;
    let i = selected(ps, req.property_id, a.account_id@);
    &&& r.preview is None
    &&& a2 == a
    &&& if i < 0 {
        turned_down(r, "That personal shelter does not exist."@) && g2 == g
    } else if ps[i].owner_account_id@ != a.account_id@ {
        turned_down(r, "Only the owner may change shelter access."@) && g2 == g
    } else if !beside_shelter(c, ps[i], a.position) {
        turned_down(r, "Walk beside your shelter before changing access."@) && g2 == g
    } else {
        match req.access {
            None => turned_down(r, "Choose owner-only or guest access."@) && g2 == g,
            Some(access) => granted(r) && changed_property(
                g,
                g2,
                i,
                PropertyState { access, revision: sat_add_u64(ps[i].revision, 1), ..ps[i] },
            ),
        }
    }
}

pub open spec fn transfer_post(
    g: PropertyLedger,
    g2: PropertyLedger,
    c: PropertyContract,
    a: Resident,
    a2: Resident,
    req: PropertyRequest,
    storing: bool,
    r: PropertyOutcome,
) -> bool {
    let ps = g.properties@;
    let i = selected(ps, req.property_id, a.account_id@);
    &&& r.preview is None
    &&& if i < 0 {
        turned_down(r, "That personal shelter does not exist."@) && kept(g, g2, a, a2)
    } else {
        let p = ps[i];
        let owner = p.owner_account_id@ == a.account_id@;
        if !beside_shelter(c, p, a.position) {
            turned_down(r, "Walk beside that shelter's chest first."@) && kept(g, g2, a, a2)
        } else if !owner && (!storing || p.access != PropertyAccess::GuestsAllowed) {
            turned_down(
                r,
                if storing {
                    "The owner has not opened this chest to guest deposits."@
                } else {
                    "Only the owner may collect from this chest."@
                },
            ) && kept(g, g2, a, a2)
        } else {
            match req.resource {
                None => turned_down(r, "Choose timber, stone, or iron ore."@) && kept(g, g2, a, a2),
                Some(k) => {
                    let n = req.amount;
                    let carried = amount_of(a.materials, k);
                    let held = amount_of(p.storage, k);
                    if n == 0 || n > 99 {
                        turned_down(r, "Move between 1 and 99 materials at once."@) && kept(g, g2, a, a2)
                    } else if storing && carried < n {
                        turned_down(r, "You do not carry that many materials."@) && kept(g, g2, a, a2)
                    } else if storing && sat_add_u32(total_items(p.storage), n) > p.storage_capacity {
                        turned_down(r, "That shelter chest does not have enough room."@) && kept(g, g2, a, a2)
                    } else if !storing && held < n {
                        turned_down(r, "The chest does not hold that many materials."@) && kept(g, g2, a, a2)
                    } else {
                        &&& granted(r)
                        &&& a2 == Resident {
                            materials: with_amount(
                                a.materials,
                                k,
                                if storing { (carried - n) as u32 } else { sat_add_u32(carried, n) },
                            ),
                            ..a
                        }
                        &&& changed_property(
                            g,
                            g2,
                            i,
                            PropertyState {
                                storage: with_amount(
                                    p.storage,
                                    k,
                                    if storing { sat_add_u32(held, n) } else { (held - n) as u32 },
                                ),
                                revision: sat_add_u64(p.revision, 1),
                                ..p
                            },
                        )
                    }
                },
            }
        }
    }
}

pub open spec fn maintain_post(
    g: PropertyLedger,
    g2: PropertyLedger,
    c: PropertyContract,
    a: Resident,
    a2: Resident,
    now: u64,
    req: PropertyRequest,
    r: PropertyOutcome,
) -> bool {
    let ps = g.properties@;
    let i = selected(ps, req.property_id, a.account_id@);
    &&& r.preview is None
    &&& a2 == a
    &&& if i < 0 {
        turned_down(r, "That personal shelter does not exist."@) && g2 == g
    } else if ps[i].owner_account_id@ != a.account_id@ {
        turned_down(r, "Only the owner may maintain this shelter."@) && g2 == g
    } else if !beside_shelter(c, ps[i], a.position) {
        turned_down(r, "Walk beside your shelter before maintaining it."@) && g2 == g
    } else {
        let restored = effective_condition(c, ps[i], now) + c.upkeep.maintenance_restores_condition;
        granted(r) && changed_property(
            g,
            g2,
            i,
            PropertyState {
                condition: if restored > MAX_PROPERTY_CONDITION { MAX_PROPERTY_CONDITION } else { restored as u8 },
                last_maintained_unix_millis: now,
                revision: sat_add_u64(ps[i].revision, 1),
                ..ps[i]
            },
        )
    }
}

/// The outcome of any shelter command.
pub open spec fn property_post(
    g: PropertyLedger,
    g2: PropertyLedger,
    c: PropertyContract,
    sc: PlacementScene,
    a: Resident,
    a2: Resident,
    now: u64,
    req: PropertyRequest,
    r: PropertyOutcome,
) -> bool {
    if a.knocked_out && req.action != PropertyAction::PreviewPlacement && req.action != PropertyAction::Inspect {
        turned_down(r, "Recover at the First Beacon before working on personal shelter."@) && r.preview is None
            && kept(g, g2, a, a2)
    } else {
        match req.action {
            PropertyAction::PreviewPlacement => {
                &&& !r.accepted && r.reason is None
                &&& r.preview matches Some(pv) && is_preview(pv, sc, a.position, req.anchor, req.entrance, false, c.stages@[0].footprint, None)
                &&& kept(g, g2, a, a2)
            },
            PropertyAction::PlaceTent => place_post(g, g2, c, sc, a, a2, now, req, r),
            PropertyAction::Inspect => inspect_post(g, g2, c, a, a2, req, r),
            PropertyAction::UpgradeWithMaterials => upgrade_post(g, g2, c, sc, a, a2, now, req, false, r),
            PropertyAction::HireBuilder => upgrade_post(g, g2, c, sc, a, a2, now, req, true, r),
            PropertyAction::SetAccess => access_post(g, g2, c, a, a2, req, r),
            PropertyAction::Store => transfer_post(g, g2, c, a, a2, req, true, r),
            PropertyAction::Collect => transfer_post(g, g2, c, a, a2, req, false, r),
            PropertyAction::Maintain => maintain_post(g, g2, c, a, a2, now, req, r),
        }
    }
}


// ---------------------------------------------------------------- commands

fn refuse(text: &str) -> (r: PropertyOutcome)
    ensures
        turned_down(r, text@),
        r.preview is None,
{
    PropertyOutcome { accepted: false, reason: Some(text.to_owned()), preview: None }
}

fn refuse_with(text: String, preview: PlacementPreview) -> (r: PropertyOutcome)
    ensures
        turned_down(r, text@),
        r.preview == Some(preview),
{
    PropertyOutcome { accepted: false, reason: Some(text), preview: Some(preview) }
}

/// An exact copy of a shelter.
pub fn copy_property(p: &PropertyState) -> (r: PropertyState)
    ensures
        r == *p,
{
    PropertyState {
        property_id: p.property_id.clone(),
        owner_account_id: p.owner_account_id.clone(),
        owner_name: p.owner_name.clone(),
        stage: p.stage,
        anchor: p.anchor,
        entrance: p.entrance,
        access: p.access,
        revision: p.revision,
        condition: p.condition,
        last_maintained_unix_millis: p.last_maintained_unix_millis,
        storage: p.storage,
        storage_capacity: p.storage_capacity,
    }
}

fn owned_by(ps: &Vec<PropertyState>, account: &String) -> (r: bool)
    ensures
        r == (index_owned(ps@, account@) >= 0),
{
    select_property(ps, &None, account).is_some()
}

fn place_tent(
    g: &mut PropertyLedger,
    c: &PropertyContract,
    sc: &PlacementScene,
    a: &Resident,
    now: u64,
    req: &PropertyRequest,
) -> (r: PropertyOutcome)
    requires
        contract_wf(*c),
        map_wf(sc.map),
    ensures
        place_post(*old(g), *final(g), *c, *sc, *a, *a, now, *req, r),
{
    let pv = preview_for_footprint(sc, a.position, req.anchor, req.entrance, true, c.stages[0].footprint, &None);
    assert(opt_view(None) == None::<Seq<char>>);
    if !pv.accepted {
        let m = pv.message.clone();
        return refuse_with(m, pv);
    }
    if owned_by(&g.properties, &a.account_id) {
        return refuse_with(String::from_str("Each resident may place one personal shelter."), pv);
    }
    if g.properties.len() >= MAX_PROPERTIES {
        return refuse_with(String::from_str("The bounded property ledger is full."), pv);
    }
    let tent = PropertyState {
        property_id: numbered("personal-property-", g.next_property),
        owner_account_id: a.account_id.clone(),
        owner_name: a.display_name.clone(),
        stage: PropertyStage::Tent,
        anchor: pv.anchor,
        entrance: pv.entrance,
        access: PropertyAccess::OwnerOnly,
        revision: 1,
        condition: MAX_PROPERTY_CONDITION,
        last_maintained_unix_millis: now,
        storage: Materials { timber: 0, stone: 0, iron_ore: 0 },
        storage_capacity: c.stages[0].storage_capacity,
    };
    g.next_property = g.next_property.saturating_add(1);
    g.properties.push(tent);
    PropertyOutcome { accepted: true, reason: None, preview: Some(pv) }
}

fn inspect(g: &PropertyLedger, c: &PropertyContract, a: &Resident, req: &PropertyRequest) -> (r: PropertyOutcome)
    requires
        contract_wf(*c),
    ensures
        inspect_post(*g, *g, *c, *a, *a, *req, r),
{
    let Some(i) = select_property(&g.properties, &req.property_id, &a.account_id) else {
        return refuse("That personal shelter does not exist.");
    };
    if !is_beside(c, &g.properties[i], a.position) {
        return refuse("Walk beside that personal shelter first.");
    }
    PropertyOutcome { accepted: true, reason: None, preview: None }
}

fn upgrade(
    g: &mut PropertyLedger,
    c: &PropertyContract,
    sc: &PlacementScene,
    a: &mut Resident,
    now: u64,
    req: &PropertyRequest,
    hire: bool,
) -> (r: PropertyOutcome)
    requires
        contract_wf(*c),
        map_wf(sc.map),
    ensures
        upgrade_post(*old(g), *final(g), *c, *sc, *old(a), *final(a), now, *req, hire, r),
{
    let Some(i) = select_property(&g.properties, &req.property_id, &a.account_id) else {
        return refuse("Place a personal tent before improving it.");
    };
    if !g.properties[i].owner_account_id.eq(&a.account_id) {
        return refuse("Only the owner may improve this shelter.");
    }
    if hire {
        if distance(a.position, c.builder_position) > 1 {
            return refuse("Talk to Mara beside the Beacon to hire builder help.");
        }
    } else if !is_beside(c, &g.properties[i], a.position) {
        return refuse("Walk beside your shelter to improve it yourself.");
    }
    let next = match g.properties[i].stage {
        PropertyStage::Tent => PropertyStage::Camp,
        PropertyStage::Camp => PropertyStage::House,
        PropertyStage::House => {
            return refuse("This shelter is already a first house.");
        },
    };
    let def = stage_definition(c, next);
    let ignored = Some(g.properties[i].property_id.clone());
    let pv = preview_for_footprint(
        sc,
        a.position,
        Some(g.properties[i].anchor),
        Some(g.properties[i].entrance),
        false,
        def.footprint,
        &ignored,
    );
    if !pv.accepted {
        let m = String::from_str("The larger shelter cannot fit here: ").concat(pv.message.as_str());
        return refuse_with(m, pv);
    }
    if hire {
        let gold = cost_in_gold(c, &def.material_costs, &a.materials);
        if a.gold < gold {
            let m = numbered("Mara needs ", gold as u64).concat(
                " gold to supply the missing materials for this stage.",
            );
            return refuse_with(m, pv);
        }
        a.gold = a.gold - gold;
    } else {
        match find_missing(&def.material_costs, &a.materials) {
            Some(k) => {
                let cost = def.material_costs[k];
                let m = numbered("This stage needs ", cost.amount as u64).concat(" ").concat(
                    label_of(cost.kind),
                ).concat(".");
                return refuse_with(m, pv);
            },
            None => {},
        }
    }
    drain(&mut a.materials, &def.material_costs);
    let mut p2 = copy_property(&g.properties[i]);
    let condition = condition_at(c, &g.properties[i], now);
    p2.stage = next;
    p2.storage_capacity = def.storage_capacity;
    p2.revision = p2.revision.saturating_add(1);
    p2.condition = condition;
    g.properties.set(i, p2);
    PropertyOutcome { accepted: true, reason: None, preview: Some(pv) }
}

fn set_access(g: &mut PropertyLedger, c: &PropertyContract, a: &Resident, req: &PropertyRequest) -> (r: PropertyOutcome)
    requires
        contract_wf(*c),
    ensures
        access_post(*old(g), *final(g), *c, *a, *a, *req, r),
{
    let Some(i) = select_property(&g.properties, &req.property_id, &a.account_id) else {
        return refuse("That personal shelter does not exist.");
    };
    if !g.properties[i].owner_account_id.eq(&a.account_id) {
        return refuse("Only the owner may change shelter access.");
    }
    if !is_beside(c, &g.properties[i], a.position) {
        return refuse("Walk beside your shelter before changing access.");
    }
    let Some(access) = req.access else {
        return refuse("Choose owner-only or guest access.");
    };
    let mut p2 = copy_property(&g.properties[i]);
    p2.access = access;
    p2.revision = p2.revision.saturating_add(1);
    g.properties.set(i, p2);
    PropertyOutcome { accepted: true, reason: None, preview: None }
}

fn transfer(
    g: &mut PropertyLedger,
    c: &PropertyContract,
    a: &mut Resident,
    req: &PropertyRequest,
    storing: bool,
) -> (r: PropertyOutcome)
    requires
        contract_wf(*c),
    ensures
        transfer_post(*old(g), *final(g), *c, *old(a), *final(a), *req, storing, r),
{
    let Some(i) = select_property(&g.properties, &req.property_id, &a.account_id) else {
        return refuse("That personal shelter does not exist.");
    };
    if !is_beside(c, &g.properties[i], a.position) {
        return refuse("Walk beside that shelter's chest first.");
    }
    let owner = g.properties[i].owner_account_id.eq(&a.account_id);
    if !owner && (!storing || g.properties[i].access != PropertyAccess::GuestsAllowed) {
        return refuse(
            if storing {
                "The owner has not opened this chest to guest deposits."
            } else {
                "Only the owner may collect from this chest."
            },
        );
    }
    let Some(k) = req.resource else {
        return refuse("Choose timber, stone, or iron ore.");
    };
    let n = req.amount;
    if n == 0 || n > 99 {
        return refuse("Move between 1 and 99 materials at once.");
    }
    let carried = amount(&a.materials, k);
    let held = amount(&g.properties[i].storage, k);
    let mut p2 = copy_property(&g.properties[i]);
    if storing {
        if carried < n {
            return refuse("You do not carry that many materials.");
        }
        if stored_units(&p2.storage).saturating_add(n) > p2.storage_capacity {
            return refuse("That shelter chest does not have enough room.");
        }
        set_amount(&mut a.materials, k, carried - n);
        set_amount(&mut p2.storage, k, held.saturating_add(n));
    } else {
        if held < n {
            return refuse("The chest does not hold that many materials.");
        }
        set_amount(&mut p2.storage, k, held - n);
        set_amount(&mut a.materials, k, carried.saturating_add(n));
    }
    p2.revision = p2.revision.saturating_add(1);
    g.properties.set(i, p2);
    PropertyOutcome { accepted: true, reason: None, preview: None }
}

fn maintain(g: &mut PropertyLedger, c: &PropertyContract, a: &Resident, now: u64, req: &PropertyRequest) -> (r: PropertyOutcome)
    requires
        contract_wf(*c),
    ensures
        maintain_post(*old(g), *final(g), *c, *a, *a, now, *req, r),
{
    let Some(i) = select_property(&g.properties, &req.property_id, &a.account_id) else {
        return refuse("That personal shelter does not exist.");
    };
    if !g.properties[i].owner_account_id.eq(&a.account_id) {
        return refuse("Only the owner may maintain this shelter.");
    }
    if !is_beside(c, &g.properties[i], a.position) {
        return refuse("Walk beside your shelter before maintaining it.");
    }
    let current = condition_at(c, &g.properties[i], now) as u16;
    let restored: u16 = current + c.upkeep.maintenance_restores_condition as u16;
    let mut p2 = copy_property(&g.properties[i]);
    p2.condition = if restored > MAX_PROPERTY_CONDITION as u16 {
        MAX_PROPERTY_CONDITION
    } else {
        restored as u8
    };
    p2.last_maintained_unix_millis = now;
    p2.revision = p2.revision.saturating_add(1);
    g.properties.set(i, p2);
    PropertyOutcome { accepted: true, reason: None, preview: None }
}

/// Carries out one shelter command for the resident `a` at real time `now`
/// (milliseconds since the Unix epoch). The scene must show the ledger's
/// own shelters; a property selector, when given, must be a bounded text
/// without control characters.
pub fn property_command(
    g: &mut PropertyLedger,
    c: &PropertyContract,
    sc: &PlacementScene,
    a: &mut Resident,
    now: u64,
    req: &PropertyRequest,
) -> (r: Result<PropertyOutcome, RepositoryError>)
    requires
        contract_wf(*c),
        map_wf(sc.map),
        sc.shelters@ == shelters(old(g).properties@, *c),
    ensures
        r is Err <==> (req.property_id matches Some(id) && bounded_text_refused(id@, MAX_PROPERTY_ID_CHARS as nat)),
        r matches Err(e) ==> e.spec_is(
            400,
            "invalid_property_id"@,
            "A property selector must contain 1 to 160 characters and no control characters."@,
        ) && *final(g) == *old(g) && *final(a) == *old(a),
        r matches Ok(out) ==> property_post(*old(g), *final(g), *c, *sc, *old(a), *final(a), now, *req, out),
{
    match &req.property_id {
        Some(id) => {
            match validate_bounded_text(
                id.as_str(),
                MAX_PROPERTY_ID_CHARS,
                "invalid_property_id",
                "A property selector must contain 1 to 160 characters and no control characters.",
            ) {
                Ok(_) => {},
                Err(e) => return Err(e),
            }
        },
        None => {},
    }
    if a.knocked_out && req.action != PropertyAction::PreviewPlacement && req.action
        != PropertyAction::Inspect {
        return Ok(refuse("Recover at the First Beacon before working on personal shelter."));
    }
    let out = match req.action {
        PropertyAction::PreviewPlacement => {
            let pv = preview_for_footprint(
                sc,
                a.position,
                req.anchor,
                req.entrance,
                false,
                c.stages[0].footprint,
                &None,
            );
            assert(opt_view(None) == None::<Seq<char>>);
            PropertyOutcome { accepted: false, reason: None, preview: Some(pv) }
        },
        PropertyAction::PlaceTent => place_tent(g, c, sc, a, now, req),
        PropertyAction::Inspect => inspect(g, c, a, req),
        PropertyAction::UpgradeWithMaterials => upgrade(g, c, sc, a, now, req, false),
        PropertyAction::HireBuilder => upgrade(g, c, sc, a, now, req, true),
        PropertyAction::SetAccess => set_access(g, c, a, req),
        PropertyAction::Store => transfer(g, c, a, req, true),
        PropertyAction::Collect => transfer(g, c, a, req, false),
        PropertyAction::Maintain => maintain(g, c, a, now, req),
    };
    Ok(out)
}


// ---------------------------------------------------------------- the ledger over time

/// The scene in which the ledger's shelters stand.
pub fn placement_scene(
    map: WorldMap,
    fixtures: Vec<Position>,
    players: Vec<Position>,
    commons_radius: u32,
    g: &PropertyLedger,
    c: &PropertyContract,
) -> (sc: PlacementScene)
    requires
        contract_wf(*c),
    ensures
        sc.map == map,
        sc.fixtures == fixtures,
        sc.players == players,
        sc.commons_radius == commons_radius,
        sc.shelters@ == shelters(g.properties@, *c),
{
    PlacementScene { map, fixtures, shelters: shelters_of(&g.properties, c), players, commons_radius }
}

/// Whether some shelter stands on `p`, so that nobody can walk there.
pub fn movement_blocked(g: &PropertyLedger, c: &PropertyContract, p: Position) -> (r: bool)
    requires
        contract_wf(*c),
    ensures
        r == shelter_covers(shelters(g.properties@, *c), None, p),
{
    let ghost s = shelters(g.properties@, *c);
    let n = g.properties.len();
    for i in 0..n
        invariant
            n == g.properties@.len(),
            contract_wf(*c),
            s == shelters(g.properties@, *c),
            forall|k: int| 0 <= k < i ==> !in_footprint((#[trigger] s[k]).anchor, s[k].footprint, p),
    {
        let q = &g.properties[i];
        assert(s[i as int].anchor == q.anchor);
        assert(s[i as int].footprint == stage_def(*c, q.stage).footprint);
        if covers(q.anchor, stage_definition(c, q.stage).footprint, p) {
            assert(None::<Seq<char>> != Some(s[i as int].property_id@));
            assert(in_footprint(s[i as int].anchor, s[i as int].footprint, p));
            return true;
        }
    }
    false
}

/// A shelter as restored from storage: at least revision one, a condition
/// between one and the best, and the chest of its stage.
pub open spec fn restored(c: PropertyContract, p: PropertyState) -> PropertyState {
    PropertyState {
        revision: if p.revision < 1 { 1 } else { p.revision },
        condition: if p.condition < 1 { 1 } else if p.condition > MAX_PROPERTY_CONDITION { MAX_PROPERTY_CONDITION } else { p.condition },
        storage_capacity: stage_def(c, p.stage).storage_capacity,
        ..p
    }
}

/// Restores a stored ledger: keeps the first shelters the ledger can hold
/// and repairs each one's bookkeeping.
pub fn restore_properties(ps: &mut Vec<PropertyState>, c: &PropertyContract)
    requires
        contract_wf(*c),
    ensures
        final(ps)@.len() == if old(ps)@.len() > MAX_PROPERTIES { MAX_PROPERTIES as nat } else { old(ps)@.len() },
        forall|i: int| 0 <= i < final(ps)@.len() ==> #[trigger] final(ps)@[i] == restored(*c, old(ps)@[i]),
{
    ps.truncate(MAX_PROPERTIES);
    let ghost kept = ps@;
    let n = ps.len();
    for i in 0..n
        invariant
            n == ps@.len(),
            n == kept.len(),
            contract_wf(*c),
            forall|k: int| 0 <= k < i ==> #[trigger] ps@[k] == restored(*c, kept[k]),
            forall|k: int| i <= k < n ==> #[trigger] ps@[k] == kept[k],
    {
        let mut p = copy_property(&ps[i]);
        if p.revision < 1 {
            p.revision = 1;
        }
        p.condition = if p.condition < 1 {
            1
        } else if p.condition > MAX_PROPERTY_CONDITION {
            MAX_PROPERTY_CONDITION
        } else {
            p.condition
        };
        p.storage_capacity = stage_definition(c, p.stage).storage_capacity;
        ps.set(i, p);
    }
}

/// The shelters of `ps` not owned by `account`, in order.
pub open spec fn without_owner(ps: Seq<PropertyState>, account: Seq<char>) -> Seq<PropertyState>
    decreases ps.len(),
{
    if ps.len() == 0 {
        ps
    } else {
        let rest = without_owner(ps.drop_last(), account);
        if ps.last().owner_account_id@ == account { rest } else { rest.push(ps.last()) }
    }
}

/// Removes the shelters of a deleted account.
pub fn remove_account(g: &mut PropertyLedger, account: &String)
    ensures
        final(g).properties@ == without_owner(old(g).properties@, account@),
        final(g).next_property == old(g).next_property,
{
    let mut kept: Vec<PropertyState> = Vec::new();
    let n = g.properties.len();
    for i in 0..n
        invariant
            n == g.properties@.len(),
            kept@ == without_owner(g.properties@.take(i as int), account@),
    {
        assert(g.properties@.take(i + 1).drop_last() =~= g.properties@.take(i as int));
        if !g.properties[i].owner_account_id.eq(account) {
            kept.push(copy_property(&g.properties[i]));
        }
    }
    assert(g.properties@.take(n as int) =~= g.properties@);
    g.properties = kept;
}

/// `p` after its owner's account moved from `old_id` to `new_id`.
pub open spec fn migrated(p: PropertyState, old_id: Seq<char>, new_id: String, new_name: String) -> PropertyState {
    if p.owner_account_id@ == old_id {
        PropertyState { owner_account_id: new_id, owner_name: new_name, ..p }
    } else {
        p
    }
}

/// Moves the shelters of the account `old_id` to `new_id`, under the new
/// display name.
pub fn migrate_account(g: &mut PropertyLedger, old_id: &String, new_id: &String, new_name: &String)
    ensures
        final(g).next_property == old(g).next_property,
        final(g).properties@.len() == old(g).properties@.len(),
        forall|i: int|
            0 <= i < old(g).properties@.len() ==> #[trigger] final(g).properties@[i] == migrated(
                old(g).properties@[i],
                old_id@,
                *new_id,
                *new_name,
            ),
{
    let ghost start = g.properties@;
    let n = g.properties.len();
    for i in 0..n
        invariant
            n == g.properties@.len(),
            n == start.len(),
            g.next_property == old(g).next_property,
            start == old(g).properties@,
            forall|k: int| 0 <= k < i ==> #[trigger] g.properties@[k] == migrated(start[k], old_id@, *new_id, *new_name),
            forall|k: int| i <= k < n ==> #[trigger] g.properties@[k] == start[k],
    {
        if g.properties[i].owner_account_id.eq(old_id) {
            let mut p = copy_property(&g.properties[i]);
            p.owner_account_id = new_id.clone();
            p.owner_name = new_name.clone();
            g.properties.set(i, p);
        }
    }
}


// ---------------------------------------------------------------- integrity

/// A stored property identifier: not blank, bounded, free of control
/// characters.
pub open spec fn id_sound(id: Seq<char>) -> bool {
    trim_seq(id).len() > 0 && id.len() <= MAX_PROPERTY_ID_CHARS && !has_control(id)
}

/// The index of the first resident of `account`, or -1.
pub open spec fn resident_index(residents: Seq<(String, Position)>, account: Seq<char>) -> int
    decreases residents.len(),
{
    if residents.len() == 0 {
        -1
    } else if residents[0].0@ == account {
        0
    } else {
        let r = resident_index(residents.drop_first(), account);
        if r < 0 { -1 } else { r + 1 }
    }
}

/// The shelter still stands where its owner, at `pos`, could place it now.
pub open spec fn stands_clear(c: PropertyContract, sc: PlacementScene, pos: Position, p: PropertyState) -> bool {
    flagged(
        rule_flags(sc, Some(p.property_id@), pos, p.anchor, stage_def(c, p.stage).footprint, p.entrance, false),
        7,
    ).len() == 0
}

/// One stored shelter is consistent with the world.
pub open spec fn property_sound(
    c: PropertyContract,
    sc: PlacementScene,
    accounts: Seq<String>,
    residents: Seq<(String, Position)>,
    p: PropertyState,
) -> bool {
    let k = resident_index(residents, p.owner_account_id@);
    &&& id_sound(p.property_id@)
    &&& views(accounts).contains(p.owner_account_id@)
    &&& trim_seq(p.owner_name@).len() > 0
    &&& p.revision != 0
    &&& 1 <= p.condition <= MAX_PROPERTY_CONDITION
    &&& p.storage_capacity == stage_def(c, p.stage).storage_capacity
    &&& total_items(p.storage) <= p.storage_capacity
    &&& k >= 0
    &&& stands_clear(c, sc, residents[k].1, p)
}

/// The stored ledger is consistent: bounded, numbered, each shelter unique
/// by identifier and by owner, and each one sound.
pub open spec fn ledger_sound(
    g: PropertyLedger,
    c: PropertyContract,
    sc: PlacementScene,
    accounts: Seq<String>,
    residents: Seq<(String, Position)>,
) -> bool {
    let ps = g.properties@;
    &&& ps.len() <= MAX_PROPERTIES
    &&& g.next_property != 0
    &&& forall|i: int, j: int| 0 <= i < j < ps.len() ==> (#[trigger] ps[i]).property_id@ != (#[trigger] ps[j]).property_id@
    &&& forall|i: int, j: int| 0 <= i < j < ps.len() ==> (#[trigger] ps[i]).owner_account_id@ != (#[trigger] ps[j]).owner_account_id@
    &&& forall|i: int| 0 <= i < ps.len() ==> property_sound(c, sc, accounts, residents, #[trigger] ps[i])
}

proof fn lemma_resident_index(residents: Seq<(String, Position)>, account: Seq<char>)
    ensures
        -1 <= resident_index(residents, account) < residents.len(),
        resident_index(residents, account) >= 0 ==> residents[resident_index(residents, account)].0@ == account,
        resident_index(residents, account) < 0 ==> forall|k: int| 0 <= k < residents.len() ==> (#[trigger] residents[k]).0@ != account,
        resident_index(residents, account) >= 0 ==> forall|k: int| 0 <= k < resident_index(residents, account) ==> (#[trigger] residents[k]).0@ != account,
    decreases residents.len(),
{
    if residents.len() > 0 && residents[0].0@ != account {
        lemma_resident_index(residents.drop_first(), account);
        assert forall|k: int| 1 <= k < residents.len() implies residents[k] == residents.drop_first()[k - 1] by {}
    }
}

fn find_resident(residents: &Vec<(String, Position)>, account: &String) -> (r: Option<usize>)
    ensures
        match r {
            Some(k) => resident_index(residents@, account@) == k && k < residents@.len(),
            None => resident_index(residents@, account@) < 0,
        },
{
    proof {
        lemma_resident_index(residents@, account@);
    }
    let n = residents.len();
    for i in 0..n
        invariant
            n == residents@.len(),
            forall|k: int| 0 <= k < i ==> (#[trigger] residents@[k]).0@ != account@,
    {
        if residents[i].0.eq(account) {
            proof {
                lemma_resident_index(residents@, account@);
                let j = resident_index(residents@, account@);
                if j >= 0 && j != i {
                    assert(residents@[j].0@ == account@);
                }
            }
            return Some(i);
        }
    }
    None
}

fn text_is_blank(s: &String) -> (r: bool)
    ensures
        r == (trim_seq(s@).len() == 0),
{
    let chars = chars_of(s.as_str());
    let (a, b) = trim_bounds(&chars);
    a == b
}

fn sound_property(
    c: &PropertyContract,
    sc: &PlacementScene,
    accounts: &Vec<String>,
    residents: &Vec<(String, Position)>,
    p: &PropertyState,
) -> (r: bool)
    requires
        contract_wf(*c),
        map_wf(sc.map),
    ensures
        r == property_sound(*c, *sc, accounts@, residents@, *p),
{
    let id_chars = chars_of(p.property_id.as_str());
    if text_is_blank(&p.property_id) || id_chars.len() > MAX_PROPERTY_ID_CHARS || any_control(&id_chars) {
        return false;
    }
    if !contains_name(accounts, &p.owner_account_id) || text_is_blank(&p.owner_name) || p.revision == 0
        || p.condition < 1 || p.condition > MAX_PROPERTY_CONDITION {
        return false;
    }
    let def = stage_definition(c, p.stage);
    if p.storage_capacity != def.storage_capacity || stored_units(&p.storage) > p.storage_capacity {
        return false;
    }
    let Some(k) = find_resident(residents, &p.owner_account_id) else {
        return false;
    };
    let ignored = Some(p.property_id.clone());
    let pv = preview_for_footprint(
        sc,
        residents[k].1,
        Some(p.anchor),
        Some(p.entrance),
        false,
        def.footprint,
        &ignored,
    );
    pv.accepted
}

/// Whether a stored ledger is consistent with the world it is loaded into:
/// `accounts` are the known account identifiers, `residents` each
/// resident's account and position, and the scene shows the ledger's
/// shelters.
pub fn integrity_ok(
    g: &PropertyLedger,
    c: &PropertyContract,
    sc: &PlacementScene,
    accounts: &Vec<String>,
    residents: &Vec<(String, Position)>,
) -> (r: bool)
    requires
        contract_wf(*c),
        map_wf(sc.map),
    ensures
        r == ledger_sound(*g, *c, *sc, accounts@, residents@),
{
    let n = g.properties.len();
    if n > MAX_PROPERTIES || g.next_property == 0 {
        return false;
    }
    for j in 0..n
        invariant
            n == g.properties@.len(),
            forall|i: int, k: int| 0 <= i < k < j ==> (#[trigger] g.properties@[i]).property_id@ != (#[trigger] g.properties@[k]).property_id@
                && g.properties@[i].owner_account_id@ != g.properties@[k].owner_account_id@,
    {
        for i in 0..j
            invariant
                n == g.properties@.len(),
                j < n,
                forall|a: int, b: int| 0 <= a < b < j ==> (#[trigger] g.properties@[a]).property_id@ != (#[trigger] g.properties@[b]).property_id@
                    && g.properties@[a].owner_account_id@ != g.properties@[b].owner_account_id@,
                forall|a: int| 0 <= a < i ==> (#[trigger] g.properties@[a]).property_id@ != g.properties@[j as int].property_id@
                    && g.properties@[a].owner_account_id@ != g.properties@[j as int].owner_account_id@,
        {
            if g.properties[i].property_id.eq(&g.properties[j].property_id) || g.properties[i].owner_account_id.eq(&g.properties[j].owner_account_id) {
                proof {
                    let a = i as int;
                    let b = j as int;
                    assert(0 <= a < b < g.properties@.len());
                    assert(g.properties@[a].property_id@ == g.properties@[b].property_id@ || g.properties@[a].owner_account_id@ == g.properties@[b].owner_account_id@);
                    if ledger_sound(*g, *c, *sc, accounts@, residents@) {
                        assert(g.properties@[a].property_id@ != g.properties@[b].property_id@);
                        assert(g.properties@[a].owner_account_id@ != g.properties@[b].owner_account_id@);
                    }
                }
                return false;
            }
        }
    }
    for i in 0..n
        invariant
            n == g.properties@.len(),
            contract_wf(*c),
            map_wf(sc.map),
            forall|k: int| 0 <= k < i ==> property_sound(*c, *sc, accounts@, residents@, #[trigger] g.properties@[k]),
    {
        if !sound_property(c, sc, accounts, residents, &g.properties[i]) {
            proof {
                assert(!property_sound(*c, *sc, accounts@, residents@, g.properties@[i as int]));
                if ledger_sound(*g, *c, *sc, accounts@, residents@) {
                    assert(property_sound(*c, *sc, accounts@, residents@, g.properties@[i as int]));
                }
            }
            return false;
        }
    }
    true
}


// ---------------------------------------------------------------- projections

/// `m` summarises `p` as it stands at `now`.
pub open spec fn summarises(c: PropertyContract, p: PropertyState, now: u64, m: PropertySummary) -> bool {
    &&& m.property_id == p.property_id
    &&& m.owner_account_id == p.owner_account_id
    &&& m.owner_name == p.owner_name
    &&& m.stage == p.stage
    &&& m.anchor == p.anchor
    &&& m.entrance == p.entrance
    &&& m.access == p.access
    &&& m.revision == p.revision
    &&& m.condition == effective_condition(c, p, now)
    &&& m.stored_units == total_items(p.storage)
    &&& m.storage_capacity == p.storage_capacity
}

/// The public summary of a shelter at `now`.
pub fn summary(c: &PropertyContract, p: &PropertyState, now: u64) -> (m: PropertySummary)
    ensures
        summarises(*c, *p, now, m),
{
    PropertySummary {
        property_id: p.property_id.clone(),
        owner_account_id: p.owner_account_id.clone(),
        owner_name: p.owner_name.clone(),
        stage: p.stage,
        anchor: p.anchor,
        entrance: p.entrance,
        access: p.access,
        revision: p.revision,
        condition: condition_at(c, p, now),
        stored_units: stored_units(&p.storage),
        storage_capacity: p.storage_capacity,
    }
}

/// What a resident sees at `now`: every shelter's summary, and their own
/// shelter in full with its current condition.
pub fn property_projection(g: &PropertyLedger, c: &PropertyContract, account: &String, now: u64) -> (r: (
    Vec<PropertySummary>,
    Option<PropertyState>,
))
    ensures
        r.0@.len() == g.properties@.len(),
        forall|i: int| 0 <= i < g.properties@.len() ==> summarises(*c, g.properties@[i], now, #[trigger] r.0@[i]),
        ({
            let k = index_owned(g.properties@, account@);
            if k < 0 {
                r.1 is None
            } else {
                r.1 == Some(PropertyState { condition: effective_condition(*c, g.properties@[k], now), ..g.properties@[k] })
            }
        }),
{
    let mut all: Vec<PropertySummary> = Vec::new();
    let n = g.properties.len();
    for i in 0..n
        invariant
            n == g.properties@.len(),
            all@.len() == i,
            forall|k: int| 0 <= k < i ==> summarises(*c, g.properties@[k], now, #[trigger] all@[k]),
    {
        all.push(summary(c, &g.properties[i], now));
    }
    proof {
        lemma_index_owned(g.properties@, account@);
    }
    let own = match select_property(&g.properties, &None, account) {
        Some(k) => {
            let mut p = copy_property(&g.properties[k]);
            p.condition = condition_at(c, &g.properties[k], now);
            Some(p)
        },
        None => None,
    };
    (all, own)
}

// ---------------------------------------------------------------- laws

proof fn lemma_selected_bounds(ps: Seq<PropertyState>, sel: Option<String>, account: Seq<char>)
    ensures
        -1 <= selected(ps, sel, account) < ps.len(),
{
    match sel {
        Some(id) => lemma_index_named(ps, id@),
        None => lemma_index_owned(ps, account),
    }
}

proof fn lemma_nothing_flagged(flags: Seq<bool>, k: nat)
    requires
        k <= flags.len(),
        flagged(flags, k).len() == 0,
    ensures
        forall|j: int| 0 <= j < k ==> !#[trigger] flags[j],
    decreases k,
{
    if k > 0 {
        if flags[k - 1] {
            assert(flagged(flags, k).len() == flagged(flags, (k - 1) as nat).len() + 1);
        }
        lemma_nothing_flagged(flags, (k - 1) as nat);
    }
}

/// A tent is only placed where a resident leaving its entrance can reach
/// the protected road, where nobody is left without an open step, off the
/// road itself, and within a step of the resident who placed it.
pub proof fn lemma_placed_tent_keeps_escape_paths(
    g: PropertyLedger,
    g2: PropertyLedger,
    c: PropertyContract,
    sc: PlacementScene,
    a: Resident,
    a2: Resident,
    now: u64,
    req: PropertyRequest,
    r: PropertyOutcome,
)
    requires
        property_post(g, g2, c, sc, a, a2, now, req, r),
        req.action == PropertyAction::PlaceTent,
        r.accepted,
    ensures
        ({
            let t = g2.properties@.last();
            let fp = c.stages@[0].footprint;
            &&& escape_exists(sc, t.anchor, fp, None, entrance_of(t.anchor, fp, t.entrance))
            &&& !someone_boxed_in(sc, t.anchor, fp, None)
            &&& !in_footprint(t.anchor, fp, a.position)
            &&& !any_tile(t.anchor, fp, on_road(sc))
            &&& manhattan(a.position, t.anchor) <= 1
        }),
{
    let pv = r.preview->0;
    let fp = c.stages@[0].footprint;
    let anchor = match req.anchor {
        Some(x) => x,
        None => a.position,
    };
    let d = match req.entrance {
        Some(x) => x,
        None => Direction::South,
    };
    let flags = rule_flags(sc, None, a.position, anchor, fp, d, true);
    lemma_nothing_flagged(flags, 7);
    assert(!flags[4] && !flags[5] && !flags[6]);
}

/// The owners of distinct shelters.
pub open spec fn one_per_owner(ps: Seq<PropertyState>) -> bool {
    forall|i: int, j: int| 0 <= i < j < ps.len() ==> (#[trigger] ps[i]).owner_account_id@ != (#[trigger] ps[j]).owner_account_id@
}

/// No command gives a resident a second shelter: each one keeps at most
/// one.
pub proof fn lemma_one_shelter_per_resident(
    g: PropertyLedger,
    g2: PropertyLedger,
    c: PropertyContract,
    sc: PlacementScene,
    a: Resident,
    a2: Resident,
    now: u64,
    req: PropertyRequest,
    r: PropertyOutcome,
)
    requires
        property_post(g, g2, c, sc, a, a2, now, req, r),
        one_per_owner(g.properties@),
    ensures
        one_per_owner(g2.properties@),
{
    let ps = g.properties@;
    let ps2 = g2.properties@;
    if g2 != g {
        if req.action == PropertyAction::PlaceTent {
            lemma_index_owned(ps, a.account_id@);
            assert forall|i: int, j: int| 0 <= i < j < ps2.len() implies (#[trigger] ps2[i]).owner_account_id@ != (#[trigger] ps2[j]).owner_account_id@ by {
                if j == ps.len() {
                    assert(ps2[i] == ps[i]);
                } else {
                    assert(ps2[i] == ps[i] && ps2[j] == ps[j]);
                }
            }
        } else {
            let k = selected(ps, req.property_id, a.account_id@);
            lemma_selected_bounds(ps, req.property_id, a.account_id@);
            assert(ps2.len() == ps.len());
            assert(ps2[k].owner_account_id == ps[k].owner_account_id);
            assert forall|i: int, j: int| 0 <= i < j < ps2.len() implies (#[trigger] ps2[i]).owner_account_id@ != (#[trigger] ps2[j]).owner_account_id@ by {
                assert(ps2[i].owner_account_id == ps[i].owner_account_id);
                assert(ps2[j].owner_account_id == ps[j].owner_account_id);
            }
        }
    }
}

/// Moving materials between a resident and a chest keeps their sum, when
/// neither side is at the numeric ceiling.
pub proof fn lemma_chest_transfer_conserves_materials(
    g: PropertyLedger,
    g2: PropertyLedger,
    c: PropertyContract,
    a: Resident,
    a2: Resident,
    req: PropertyRequest,
    storing: bool,
    r: PropertyOutcome,
    k: ResourceKind,
)
    requires
        transfer_post(g, g2, c, a, a2, req, storing, r),
        r.accepted,
        req.resource == Some(k),
        amount_of(a.materials, k) + req.amount <= u32::MAX,
        selected(g.properties@, req.property_id, a.account_id@) >= 0 ==> amount_of(
            g.properties@[selected(g.properties@, req.property_id, a.account_id@)].storage,
            k,
        ) + req.amount <= u32::MAX,
    ensures
        ({
            let i = selected(g.properties@, req.property_id, a.account_id@);
            &&& 0 <= i < g.properties@.len()
            &&& amount_of(a2.materials, k) + amount_of(g2.properties@[i].storage, k) == amount_of(a.materials, k)
                + amount_of(g.properties@[i].storage, k)
        }),
{
    lemma_selected_bounds(g.properties@, req.property_id, a.account_id@);
}

/// A deposit never fills a chest past its capacity.
pub proof fn lemma_deposit_respects_capacity(
    g: PropertyLedger,
    g2: PropertyLedger,
    c: PropertyContract,
    a: Resident,
    a2: Resident,
    req: PropertyRequest,
    r: PropertyOutcome,
)
    requires
        transfer_post(g, g2, c, a, a2, req, true, r),
        r.accepted,
    ensures
        ({
            let i = selected(g.properties@, req.property_id, a.account_id@);
            &&& 0 <= i < g.properties@.len()
            &&& total_items(g2.properties@[i].storage) <= g2.properties@[i].storage_capacity
        }),
{
    lemma_selected_bounds(g.properties@, req.property_id, a.account_id@);
}

/// A knocked-out resident changes nothing about shelters or themselves;
/// only previews and inspections answer.
pub proof fn lemma_knocked_out_cannot_build(
    g: PropertyLedger,
    g2: PropertyLedger,
    c: PropertyContract,
    sc: PlacementScene,
    a: Resident,
    a2: Resident,
    now: u64,
    req: PropertyRequest,
    r: PropertyOutcome,
)
    requires
        property_post(g, g2, c, sc, a, a2, now, req, r),
        a.knocked_out,
    ensures
        g2 == g,
        a2 == a,
        r.accepted ==> req.action == PropertyAction::Inspect,
{
}

/// An improvement moves a shelter one stage up, never past the house, and
/// raises its revision.
pub proof fn lemma_improvement_moves_one_stage(
    g: PropertyLedger,
    g2: PropertyLedger,
    c: PropertyContract,
    sc: PlacementScene,
    a: Resident,
    a2: Resident,
    now: u64,
    req: PropertyRequest,
    hire: bool,
    r: PropertyOutcome,
)
    requires
        upgrade_post(g, g2, c, sc, a, a2, now, req, hire, r),
        r.accepted,
        ({
            let i = selected(g.properties@, req.property_id, a.account_id@);
            0 <= i < g.properties@.len() ==> g.properties@[i].revision < u64::MAX
        }),
    ensures
        ({
            let i = selected(g.properties@, req.property_id, a.account_id@);
            &&& 0 <= i < g.properties@.len()
            &&& stage_index(g2.properties@[i].stage) == stage_index(g.properties@[i].stage) + 1
            &&& stage_index(g2.properties@[i].stage) <= 2
            &&& g2.properties@[i].revision == g.properties@[i].revision + 1
            &&& a2.gold <= a.gold
        }),
{
    lemma_selected_bounds(g.properties@, req.property_id, a.account_id@);
}

} // verus!
