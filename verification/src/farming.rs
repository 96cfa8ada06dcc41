//! The shared fields and the Bellweather goat: players plant, tend and
//! harvest crops on the shared plots beside them, and care for the
//! settlement's animal. Rewards saturate at the numeric ceiling.
use crate::frontier::Position;
use vstd::prelude::*;
use vstd::string::*;

verus! {

/// The best quality a tended crop reaches.
pub const MAX_CROP_QUALITY: u8 = 3;

#[derive(Debug, Clone, Copy, PartialEq, Eq, Structural)]
pub enum CropKind {
    Wheat,
    Turnip,
    Moonberry,
}

#[derive(Debug, Clone, Copy, PartialEq, Eq, Structural)]
pub struct CropState {
    pub kind: CropKind,
    pub stage: u8,
    pub quality: u8,
    pub planted_tick: u64,
    pub last_tended_tick: Option<u64>,
}

#[derive(Debug, Clone, Copy, PartialEq, Eq, Structural)]
pub struct FieldPlot {
    pub position: Position,
    pub crop: Option<CropState>,
}

#[derive(Debug, Clone)]
pub struct FarmAnimal {
    pub animal_id: String,
    pub name: String,
    pub position: Position,
    pub condition: u8,
    pub max_condition: u8,
    pub last_cared_tick: u64,
    pub last_cared_day: u32,
}

/// What of a player field work reads and changes.
#[derive(Debug, Clone, Copy, PartialEq, Eq, Structural)]
pub struct Farmer {
    pub position: Position,
    pub knocked_out: bool,
    pub seeds: u32,
    pub seeds_planted: u32,
    pub field_tool_condition: u8,
    pub skill: u32,
    pub gold: u32,
    pub wheat: u32,
    pub turnips: u32,
    pub moonberries: u32,
}

/// The crop rules of the settlement's content: when a crop is mature and
/// what each kind is worth.
#[derive(Debug, Clone, Copy, PartialEq, Eq, Structural)]
pub struct CropRules {
    pub mature_stage: u8,
    pub wheat_value: u32,
    pub turnip_value: u32,
    pub moonberry_value: u32,
}

#[derive(Debug, Clone, Copy, PartialEq, Eq, Structural)]
pub enum FarmingAction {
    Plant,
    Tend,
    Harvest,
    TendAnimal,
}

/// The skill accepted field work practises.
#[derive(Debug, Clone, Copy, PartialEq, Eq, Structural)]
pub enum FarmPractice {
    CropTending,
    AnimalHusbandry,
}

#[derive(Debug, Clone)]
pub struct FarmingOutcome {
    pub accepted: bool,
    pub reason: Option<String>,
    /// The plot the command worked on, if it found one.
    pub plot: Option<usize>,
    /// The animal the command cared for, if it found one.
    pub animal: Option<usize>,
    pub practice: Option<FarmPractice>,
}

// ---------------------------------------------------------------- specs

pub open spec fn sat_add_u32(a: u32, b: u32) -> u32 {
    if a + b > u32::MAX { u32::MAX } else { (a + b) as u32 }
}

pub open spec fn abs_diff(a: i32, b: i32) -> int {
    if a >= b { a - b } else { b - a }
}

pub open spec fn distance(a: Position, b: Position) -> int {
    abs_diff(a.x, b.x) + abs_diff(a.y, b.y)
}

pub open spec fn crop_value(rules: CropRules, k: CropKind) -> u32 {
    match k {
        CropKind::Wheat => rules.wheat_value,
        CropKind::Turnip => rules.turnip_value,
        CropKind::Moonberry => rules.moonberry_value,
    }
}

pub open spec fn is_mature(rules: CropRules, c: CropState) -> bool {
    c.stage >= rules.mature_stage
}

/// A harvest price under the frontier's price modifier, in percent: the
/// base, raised by a positive modifier and rounded down.
pub open spec fn priced(base: u32, modifier: i16) -> u32 {
    if modifier <= 0 {
        base
    } else {
        let raised = base * (100 + modifier);
        ((if raised > u32::MAX { u32::MAX as int } else { raised }) / 100) as u32
    }
}

/// The index of the first plot at `p`, or `-1`.
pub open spec fn plot_at(plots: Seq<FieldPlot>, p: Position) -> int
    decreases plots.len(),
{
    if plots.len() == 0 {
        -1
    } else if plots[0].position == p {
        0
    } else {
        let r = plot_at(plots.drop_first(), p);
        if r < 0 { -1 } else { r + 1 }
    }
}

/// The index of the first animal at or beside `p`, or `-1`.
pub open spec fn animal_near(animals: Seq<FarmAnimal>, p: Position) -> int
    decreases animals.len(),
{
    if animals.len() == 0 {
        -1
    } else if distance(animals[0].position, p) <= 1 {
        0
    } else {
        let r = animal_near(animals.drop_first(), p);
        if r < 0 { -1 } else { r + 1 }
    }
}

pub open spec fn farm_refused(
    plots: Seq<FieldPlot>,
    plots2: Seq<FieldPlot>,
    animals: Seq<FarmAnimal>,
    animals2: Seq<FarmAnimal>,
    f: Farmer,
    f2: Farmer,
    r: FarmingOutcome,
    text: Seq<char>,
) -> bool {
    &&& !r.accepted && r.practice is None
    &&& r.reason matches Some(s) && s@ == text
    &&& plots2 == plots && animals2 == animals && f2 == f
}

/// The crop after tending on beat `tick`.
pub open spec fn tended(rules: CropRules, c: CropState, tick: u64) -> CropState {
    CropState {
        stage: if c.stage + 1 > rules.mature_stage { rules.mature_stage } else { (c.stage + 1) as u8 },
        quality: if c.quality + 1 > MAX_CROP_QUALITY { MAX_CROP_QUALITY } else { (c.quality + 1) as u8 },
        last_tended_tick: Some(tick),
        ..c
    }
}

/// The farmer after harvesting `c`.
pub open spec fn harvested(rules: CropRules, f: Farmer, c: CropState, modifier: i16) -> Farmer {
    let f1 = match c.kind {
        CropKind::Wheat => Farmer { wheat: sat_add_u32(f.wheat, 1), ..f },
        CropKind::Turnip => Farmer { turnips: sat_add_u32(f.turnips, 1), ..f },
        CropKind::Moonberry => Farmer { moonberries: sat_add_u32(f.moonberries, 1), ..f },
    };
    Farmer {
        gold: sat_add_u32(f1.gold, priced(sat_add_u32(crop_value(rules, c.kind), c.quality as u32), modifier)),
        skill: sat_add_u32(f1.skill, 1),
        ..f1
    }
}

/// The outcome of work on the plot at index `i`.
pub open spec fn plot_post(
    plots: Seq<FieldPlot>,
    plots2: Seq<FieldPlot>,
    animals: Seq<FarmAnimal>,
    animals2: Seq<FarmAnimal>,
    f: Farmer,
    f2: Farmer,
    rules: CropRules,
    seed_kind: CropKind,
    modifier: i16,
    tick: u64,
    i: int,
    action: FarmingAction,
    r: FarmingOutcome,
) -> bool {
    let p = plots[i];
    let done = |c: Option<CropState>| plots2 == plots.update(i, FieldPlot { crop: c, ..p });
    match action {
        FarmingAction::Plant => if f.seeds == 0 {
            farm_refused(plots, plots2, animals, animals2, f, f2, r, "The seed pouch is empty; trade for more at the Hearth."@)
        } else if p.crop is Some {
            farm_refused(plots, plots2, animals, animals2, f, f2, r, "That field plot is already occupied."@)
        } else {
            &&& r.accepted && r.reason is None && r.practice == Some(FarmPractice::CropTending)
            &&& done(Some(CropState { kind: seed_kind, stage: 0, quality: 1, planted_tick: tick, last_tended_tick: None }))
            &&& animals2 == animals
            &&& f2 == Farmer { seeds: (f.seeds - 1) as u32, seeds_planted: sat_add_u32(f.seeds_planted, 1), ..f }
        },
        FarmingAction::Tend => if f.field_tool_condition == 0 {
            farm_refused(
                plots,
                plots2,
                animals,
                animals2,
                f,
                f2,
                r,
                "The field tool is worn out; commission a repair before tending again."@,
            )
        } else if p.crop is None {
            farm_refused(plots, plots2, animals, animals2, f, f2, r, "That plot is empty."@)
        } else if is_mature(rules, p.crop->0) {
            farm_refused(plots, plots2, animals, animals2, f, f2, r, "That crop is ready to harvest."@)
        } else if p.crop->0.last_tended_tick == Some(tick) {
            farm_refused(plots, plots2, animals, animals2, f, f2, r, "This crop has already been tended on this beat."@)
        } else {
            &&& r.accepted && r.reason is None && r.practice == Some(FarmPractice::CropTending)
            &&& done(Some(tended(rules, p.crop->0, tick)))
            &&& animals2 == animals
            &&& f2 == Farmer {
                field_tool_condition: (f.field_tool_condition - 1) as u8,
                skill: sat_add_u32(f.skill, 1),
                ..f
            }
        },
        _ => if p.crop is None {
            farm_refused(plots, plots2, animals, animals2, f, f2, r, "That plot is empty."@)
        } else if !is_mature(rules, p.crop->0) {
            farm_refused(plots, plots2, animals, animals2, f, f2, r, "The crop is not ready; tend it or let the shared clock work."@)
        } else {
            &&& r.accepted && r.reason is None && r.practice == Some(FarmPractice::CropTending)
            &&& done(None)
            &&& animals2 == animals
            &&& f2 == harvested(rules, f, p.crop->0, modifier)
        },
    }
}

/// The outcome of a field command at `at`.
pub open spec fn farming_post(
    plots: Seq<FieldPlot>,
    plots2: Seq<FieldPlot>,
    animals: Seq<FarmAnimal>,
    animals2: Seq<FarmAnimal>,
    f: Farmer,
    f2: Farmer,
    rules: CropRules,
    seed_kind: CropKind,
    modifier: i16,
    tick: u64,
    day: u32,
    at: Position,
    action: FarmingAction,
    r: FarmingOutcome,
) -> bool {
    if f.knocked_out {
        farm_refused(
            plots,
            plots2,
            animals,
            animals2,
            f,
            f2,
            r,
            "You are knocked out; tap Self, Rescuer, or Healer before working the fields."@,
        )
    } else if action == FarmingAction::TendAnimal {
        let k = animal_near(animals, at);
        if k < 0 {
            farm_refused(
                plots,
                plots2,
                animals,
                animals2,
                f,
                f2,
                r,
                "Stand beside the Bellweather goat near the shared fields before caring for it."@,
            )
        } else if distance(f.position, animals[k].position) > 1 {
            farm_refused(plots, plots2, animals, animals2, f, f2, r, "Stand beside the animal before caring for it."@)
                && r.animal == Some(k as usize)
        } else if animals[k].condition >= animals[k].max_condition {
            farm_refused(
                plots,
                plots2,
                animals,
                animals2,
                f,
                f2,
                r,
                "Bellweather is already thriving; return when the goat needs care."@,
            ) && r.animal == Some(k as usize)
        } else {
            &&& r.accepted && r.reason is None && r.practice == Some(FarmPractice::AnimalHusbandry)
            &&& r.animal == Some(k as usize)
            &&& plots2 == plots
            &&& animals2.len() == animals.len()
            &&& forall|j: int| 0 <= j < animals.len() && j != k ==> animals2[j] == animals[j]
            &&& animals2[k] == FarmAnimal {
                condition: animals[k].max_condition,
                last_cared_tick: tick,
                last_cared_day: day,
                ..animals[k]
            }
            &&& f2 == Farmer { skill: sat_add_u32(f.skill, 1), ..f }
        }
    } else {
        let i = plot_at(plots, at);
        if i < 0 {
            farm_refused(plots, plots2, animals, animals2, f, f2, r, "That position is not a shared field plot."@)
        } else if distance(f.position, at) > 1 {
            farm_refused(plots, plots2, animals, animals2, f, f2, r, "Stand beside the field plot before tending it."@)
        } else {
            r.plot == Some(i as usize) && plot_post(plots, plots2, animals, animals2, f, f2, rules, seed_kind, modifier, tick, i, action, r)
        }
    }
}

// ---------------------------------------------------------------- helpers

pub fn price_with_modifier(base: u32, modifier: i16) -> (r: u32)
    ensures
        r == priced(base, modifier),
{
    if modifier <= 0 {
        base
    } else {
        let m: u64 = 100 + modifier as u64;
        assert(base as u64 * m <= 0xffff_ffff * 32867) by (nonlinear_arith)
            requires
                base <= 0xffff_ffff,
                m <= 32867,
        ;
        let raised: u64 = base as u64 * m;
        let capped: u64 = if raised > 0xffff_ffff { 0xffff_ffff } else { raised };
        (capped / 100) as u32
    }
}

fn distance_of(a: Position, b: Position) -> (d: i64)
    ensures
        d == distance(a, b),
{
    let dx: i64 = if a.x >= b.x { a.x as i64 - b.x as i64 } else { b.x as i64 - a.x as i64 };
    let dy: i64 = if a.y >= b.y { a.y as i64 - b.y as i64 } else { b.y as i64 - a.y as i64 };
    dx + dy
}

fn find_plot(plots: &Vec<FieldPlot>, p: Position) -> (r: Option<usize>)
    ensures
        match r {
            Some(i) => i as int == plot_at(plots@, p) && i < plots@.len(),
            None => plot_at(plots@, p) < 0,
        },
{
    let n = plots.len();
    let mut i: usize = 0;
    assert(plots@.subrange(0, n as int) =~= plots@);
    while i < n
        invariant
            n == plots@.len(),
            i <= n,
            plot_at(plots@, p) == if plot_at(plots@.subrange(i as int, n as int), p) < 0 {
                -1
            } else {
                plot_at(plots@.subrange(i as int, n as int), p) + i
            },
        decreases n - i,
    {
        let ghost rest = plots@.subrange(i as int, n as int);
        assert(rest.drop_first() =~= plots@.subrange(i + 1, n as int));
        assert(rest[0] == plots@[i as int]);
        if plots[i].position == p {
            return Some(i);
        }
        i = i + 1;
    }
    assert(plots@.subrange(n as int, n as int).len() == 0);
    None
}

fn find_animal(animals: &Vec<FarmAnimal>, p: Position) -> (r: Option<usize>)
    ensures
        match r {
            Some(i) => i as int == animal_near(animals@, p) && i < animals@.len(),
            None => animal_near(animals@, p) < 0,
        },
{
    let n = animals.len();
    let mut i: usize = 0;
    assert(animals@.subrange(0, n as int) =~= animals@);
    while i < n
        invariant
            n == animals@.len(),
            i <= n,
            animal_near(animals@, p) == if animal_near(animals@.subrange(i as int, n as int), p) < 0 {
                -1
            } else {
                animal_near(animals@.subrange(i as int, n as int), p) + i
            },
        decreases n - i,
    {
        let ghost rest = animals@.subrange(i as int, n as int);
        assert(rest.drop_first() =~= animals@.subrange(i + 1, n as int));
        assert(rest[0] == animals@[i as int]);
        if distance_of(animals[i].position, p) <= 1 {
            return Some(i);
        }
        i = i + 1;
    }
    assert(animals@.subrange(n as int, n as int).len() == 0);
    None
}

fn refuse(text: &str, plot: Option<usize>, animal: Option<usize>) -> (r: FarmingOutcome)
    ensures
        !r.accepted && r.practice is None && (r.reason matches Some(s) && s@ == text@) && r.plot == plot
            && r.animal == animal,
{
    FarmingOutcome { accepted: false, reason: Some(text.to_owned()), plot, animal, practice: None }
}

fn accept(plot: Option<usize>, animal: Option<usize>, practice: FarmPractice) -> (r: FarmingOutcome)
    ensures
        r.accepted && r.reason is None && r.plot == plot && r.animal == animal && r.practice == Some(
            practice,
        ),
{
    FarmingOutcome { accepted: true, reason: None, plot, animal, practice: Some(practice) }
}

proof fn lemma_replace<T>(s: Seq<T>, i: int, x: T)
    requires
        0 <= i < s.len(),
    ensures
        s.remove(i).insert(i, x) == s.update(i, x),
{
    assert(s.remove(i).insert(i, x) =~= s.update(i, x));
}

fn work_plot(
    plots: &mut Vec<FieldPlot>,
    f: &mut Farmer,
    rules: CropRules,
    seed_kind: CropKind,
    modifier: i16,
    tick: u64,
    i: usize,
    action: FarmingAction,
) -> (r: FarmingOutcome)
    requires
        i < old(plots)@.len(),
        action != FarmingAction::TendAnimal,
    ensures
        r.plot == Some(i),
        forall|animals: Seq<FarmAnimal>|
            plot_post(old(plots)@, final(plots)@, animals, animals, *old(f), *final(f), rules, seed_kind, modifier, tick, i as int, action, r),
{
    let p = plots[i];
    match action {
        FarmingAction::Plant => {
            if f.seeds == 0 {
                return refuse("The seed pouch is empty; trade for more at the Hearth.", Some(i), None);
            }
            if p.crop.is_some() {
                return refuse("That field plot is already occupied.", Some(i), None);
            }
            f.seeds = f.seeds - 1;
            f.seeds_planted = f.seeds_planted.saturating_add(1);
            plots.set(
                i,
                FieldPlot {
                    crop: Some(
                        CropState {
                            kind: seed_kind,
                            stage: 0,
                            quality: 1,
                            planted_tick: tick,
                            last_tended_tick: None,
                        },
                    ),
                    ..p
                },
            );
            accept(Some(i), None, FarmPractice::CropTending)
        },
        FarmingAction::Tend => {
            if f.field_tool_condition == 0 {
                return refuse(
                    "The field tool is worn out; commission a repair before tending again.",
                    Some(i),
                    None,
                );
            }
            let Some(c) = p.crop else {
                return refuse("That plot is empty.", Some(i), None);
            };
            if c.stage >= rules.mature_stage {
                return refuse("That crop is ready to harvest.", Some(i), None);
            }
            if c.last_tended_tick == Some(tick) {
                return refuse("This crop has already been tended on this beat.", Some(i), None);
            }
            let stage = c.stage + 1;
            let q = c.quality.saturating_add(1);
            let c2 = CropState {
                stage: if stage > rules.mature_stage { rules.mature_stage } else { stage },
                quality: if q > MAX_CROP_QUALITY { MAX_CROP_QUALITY } else { q },
                last_tended_tick: Some(tick),
                ..c
            };
            plots.set(i, FieldPlot { crop: Some(c2), ..p });
            f.field_tool_condition = f.field_tool_condition - 1;
            f.skill = f.skill.saturating_add(1);
            accept(Some(i), None, FarmPractice::CropTending)
        },
        _ => {
            let Some(c) = p.crop else {
                return refuse("That plot is empty.", Some(i), None);
            };
            if c.stage < rules.mature_stage {
                return refuse("The crop is not ready; tend it or let the shared clock work.", Some(i), None);
            }
            match c.kind {
                CropKind::Wheat => f.wheat = f.wheat.saturating_add(1),
                CropKind::Turnip => f.turnips = f.turnips.saturating_add(1),
                CropKind::Moonberry => f.moonberries = f.moonberries.saturating_add(1),
            }
            let value = match c.kind {
                CropKind::Wheat => rules.wheat_value,
                CropKind::Turnip => rules.turnip_value,
                CropKind::Moonberry => rules.moonberry_value,
            };
            let base = value.saturating_add(c.quality as u32);
            f.gold = f.gold.saturating_add(price_with_modifier(base, modifier));
            f.skill = f.skill.saturating_add(1);
            plots.set(i, FieldPlot { crop: None, ..p });
            accept(Some(i), None, FarmPractice::CropTending)
        },
    }
}

// ---------------------------------------------------------------- commands

/// Carries out one field command at `at` for `f`, on beat `tick` of day
/// `day`. A new crop is of `seed_kind`; harvests are priced under the
/// frontier's `modifier`.
pub fn farming_command(
    plots: &mut Vec<FieldPlot>,
    animals: &mut Vec<FarmAnimal>,
    f: &mut Farmer,
    rules: CropRules,
    seed_kind: CropKind,
    modifier: i16,
    tick: u64,
    day: u32,
    at: Position,
    action: FarmingAction,
) -> (r: FarmingOutcome)
    ensures
        farming_post(
            old(plots)@,
            final(plots)@,
            old(animals)@,
            final(animals)@,
            *old(f),
            *final(f),
            rules,
            seed_kind,
            modifier,
            tick,
            day,
            at,
            action,
            r,
        ),
{
    if f.knocked_out {
        return refuse(
            "You are knocked out; tap Self, Rescuer, or Healer before working the fields.",
            None,
            None,
        );
    }
    if action == FarmingAction::TendAnimal {
        let Some(k) = find_animal(animals, at) else {
            return refuse(
                "Stand beside the Bellweather goat near the shared fields before caring for it.",
                None,
                None,
            );
        };
        if distance_of(f.position, animals[k].position) > 1 {
            return refuse("Stand beside the animal before caring for it.", None, Some(k));
        }
        if animals[k].condition >= animals[k].max_condition {
            return refuse(
                "Bellweather is already thriving; return when the goat needs care.",
                None,
                Some(k),
            );
        }
        let ghost before = animals@;
        let mut a = animals.remove(k);
        a.condition = a.max_condition;
        a.last_cared_tick = tick;
        a.last_cared_day = day;
        animals.insert(k, a);
        proof {
            lemma_replace(before, k as int, a);
        }
        f.skill = f.skill.saturating_add(1);
        return accept(None, Some(k), FarmPractice::AnimalHusbandry);
    }
    let Some(i) = find_plot(plots, at) else {
        return refuse("That position is not a shared field plot.", None, None);
    };
    if distance_of(f.position, at) > 1 {
        return refuse("Stand beside the field plot before tending it.", None, None);
    }
    let r = work_plot(plots, f, rules, seed_kind, modifier, tick, i, action);
    proof {
        assert(plot_post(old(plots)@, plots@, animals@, animals@, *old(f), *f, rules, seed_kind, modifier, tick, i as int, action, r));
    }
    r
}

/// At the start of day `day`, each animal not cared for since an earlier
/// day loses one point of condition.
pub fn day_rollover(animals: &mut Vec<FarmAnimal>, day: u32)
    ensures
        final(animals)@.len() == old(animals)@.len(),
        forall|i: int|
            0 <= i < old(animals)@.len() ==> #[trigger] final(animals)@[i] == if old(animals)@[i].last_cared_day < day {
                FarmAnimal {
                    condition: if old(animals)@[i].condition > 0 { (old(animals)@[i].condition - 1) as u8 } else { 0 },
                    ..old(animals)@[i]
                }
            } else {
                old(animals)@[i]
            },
{
    let ghost before = animals@;
    let n = animals.len();
    let mut k: usize = 0;
    while k < n
        invariant
            n == animals@.len(),
            before.len() == n,
            k <= n,
            forall|i: int|
                0 <= i < k ==> #[trigger] animals@[i] == if before[i].last_cared_day < day {
                    FarmAnimal {
                        condition: if before[i].condition > 0 { (before[i].condition - 1) as u8 } else { 0 },
                        ..before[i]
                    }
                } else {
                    before[i]
                },
            forall|i: int| k <= i < n ==> #[trigger] animals@[i] == before[i],
        decreases n - k,
    {
        if animals[k].last_cared_day < day {
            let ghost prev = animals@;
            let mut a = animals.remove(k);
            a.condition = a.condition.saturating_sub(1);
            animals.insert(k, a);
            proof {
                lemma_replace(prev, k as int, a);
            }
        }
        k = k + 1;
    }
}

// ---------------------------------------------------------------- the herd

/// The settlement's goat as a new world starts it, grazing at `pen`.
pub open spec fn is_fresh_goat(a: FarmAnimal, pen: Position) -> bool {
    &&& a.animal_id@ == "bellweather-goat"@
    &&& a.name@ == "Bellweather"@
    &&& a.position == pen
    &&& a.condition == 2
    &&& a.max_condition == 3
    &&& a.last_cared_tick == 0
    &&& a.last_cared_day == 1
}

/// The herd of a new world: the Bellweather goat at `pen`.
pub fn fresh_animals(pen: Position) -> (r: Vec<FarmAnimal>)
    ensures
        r@.len() == 1,
        is_fresh_goat(r@[0], pen),
{
    let goat = FarmAnimal {
        animal_id: String::from_str("bellweather-goat"),
        name: String::from_str("Bellweather"),
        position: pen,
        condition: 2,
        max_condition: 3,
        last_cared_tick: 0,
        last_cared_day: 1,
    };
    proof {
        reveal_strlit("bellweather-goat");
        reveal_strlit("Bellweather");
    }
    vec![goat]
}

/// Restores a stored herd: the Bellweather goat is moved to the pen the
/// world's content names now; every other field, and every other animal,
/// is kept.
pub fn restore_animals(animals: &mut Vec<FarmAnimal>, pen: Position)
    ensures
        final(animals)@.len() == old(animals)@.len(),
        forall|i: int|
            0 <= i < old(animals)@.len() ==> #[trigger] final(animals)@[i] == if old(animals)@[i].animal_id@
                == "bellweather-goat"@ {
                FarmAnimal { position: pen, ..old(animals)@[i] }
            } else {
                old(animals)@[i]
            },
{
    let goat_id = String::from_str("bellweather-goat");
    let ghost before = animals@;
    let n = animals.len();
    let mut k: usize = 0;
    while k < n
        invariant
            n == animals@.len(),
            before.len() == n,
            k <= n,
            goat_id@ == "bellweather-goat"@,
            forall|i: int|
                0 <= i < k ==> #[trigger] animals@[i] == if before[i].animal_id@ == "bellweather-goat"@ {
                    FarmAnimal { position: pen, ..before[i] }
                } else {
                    before[i]
                },
            forall|i: int| k <= i < n ==> #[trigger] animals@[i] == before[i],
        decreases n - k,
    {
        if animals[k].animal_id.eq(&goat_id) {
            let ghost prev = animals@;
            let mut a = animals.remove(k);
            a.position = pen;
            animals.insert(k, a);
            proof {
                lemma_replace(prev, k as int, a);
            }
        }
        k = k + 1;
    }
}

// ---------------------------------------------------------------- laws

/// A knocked-out player changes no field, animal or counter.
pub proof fn lemma_knocked_out_cannot_farm(
    plots: Seq<FieldPlot>,
    plots2: Seq<FieldPlot>,
    animals: Seq<FarmAnimal>,
    animals2: Seq<FarmAnimal>,
    f: Farmer,
    f2: Farmer,
    rules: CropRules,
    seed_kind: CropKind,
    modifier: i16,
    tick: u64,
    day: u32,
    at: Position,
    action: FarmingAction,
    r: FarmingOutcome,
)
    requires
        farming_post(plots, plots2, animals, animals2, f, f2, rules, seed_kind, modifier, tick, day, at, action, r),
        f.knocked_out,
    ensures
        !r.accepted,
        plots2 == plots,
        animals2 == animals,
        f2 == f,
{
}

/// A crop is tended at most once per beat, and tending never spends the
/// field tool on a refused attempt.
pub proof fn lemma_tended_once_per_beat(
    plots: Seq<FieldPlot>,
    plots2: Seq<FieldPlot>,
    animals: Seq<FarmAnimal>,
    animals2: Seq<FarmAnimal>,
    f: Farmer,
    f2: Farmer,
    rules: CropRules,
    seed_kind: CropKind,
    modifier: i16,
    tick: u64,
    day: u32,
    at: Position,
    r: FarmingOutcome,
)
    requires
        farming_post(plots, plots2, animals, animals2, f, f2, rules, seed_kind, modifier, tick, day, at, FarmingAction::Tend, r),
        plot_at(plots, at) >= 0,
        plots[plot_at(plots, at)].crop matches Some(c) && c.last_tended_tick == Some(tick),
    ensures
        !r.accepted,
        f2.field_tool_condition == f.field_tool_condition,
        plots2 == plots,
{
}

/// Field rewards never wrap: every counter a command touches ends at
/// least where it was, except the seeds a planting spends and the tool
/// condition a tending spends.
pub proof fn lemma_rewards_never_wrap(
    plots: Seq<FieldPlot>,
    plots2: Seq<FieldPlot>,
    animals: Seq<FarmAnimal>,
    animals2: Seq<FarmAnimal>,
    f: Farmer,
    f2: Farmer,
    rules: CropRules,
    seed_kind: CropKind,
    modifier: i16,
    tick: u64,
    day: u32,
    at: Position,
    action: FarmingAction,
    r: FarmingOutcome,
)
    requires
        farming_post(plots, plots2, animals, animals2, f, f2, rules, seed_kind, modifier, tick, day, at, action, r),
    ensures
        f2.gold >= f.gold,
        f2.skill >= f.skill,
        f2.wheat >= f.wheat,
        f2.turnips >= f.turnips,
        f2.moonberries >= f.moonberries,
        f2.seeds + 1 >= f.seeds,
{
}

} // verus!
