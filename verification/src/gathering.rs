//! Gathering at the First Beacon: bounded resource nodes that players log
//! and mine with the shared crude tools, and that recover one unit per
//! deposit for every full recovery interval, never past their capacity.
use crate::errors::{RepositoryError, bounded_text_refused, validate_bounded_text};
use crate::frontier::Position;
use crate::storehouse::ResourceKind;
use crate::text::trim_seq;
use vstd::prelude::*;
use vstd::string::*;

verus! {

/// Beats between two recoveries of a resource node.
pub const RESOURCE_RECOVERY_INTERVAL_TICKS: u64 = 6;

#[derive(Debug, Clone, Copy, PartialEq, Eq, Structural)]
pub struct ResourceDeposit {
    pub kind: ResourceKind,
    pub remaining: u32,
    pub capacity: u32,
}

#[derive(Debug, Clone)]
pub struct ResourceNode {
    pub node_id: String,
    pub landmark_id: String,
    pub deposits: Vec<ResourceDeposit>,
    pub recovery_interval_ticks: u64,
    pub last_recovered_tick: u64,
}

#[derive(Debug, Clone, Copy, PartialEq, Eq, Structural)]
pub enum CrudeTool {
    HandAxe,
    StonePick,
}

#[derive(Debug, Clone)]
pub struct ToolAccess {
    pub landmark_id: String,
    pub tools: Vec<CrudeTool>,
    pub available_to_all: bool,
}

/// A fixture of the settlement's map.
#[derive(Debug, Clone)]
pub struct Landmark {
    pub id: String,
    pub position: Position,
}

#[derive(Debug, Clone, Copy, PartialEq, Eq, Structural)]
pub enum GatherAction {
    Log,
    Mine,
}

#[derive(Debug, Clone, Copy, PartialEq, Eq, Structural)]
pub struct ResourceAmount {
    pub kind: ResourceKind,
    pub amount: u32,
}

/// What of a player gathering reads and fills.
#[derive(Debug, Clone, Copy, PartialEq, Eq, Structural)]
pub struct Gatherer {
    pub position: Position,
    pub knocked_out: bool,
    pub timber: u32,
    pub stone: u32,
    pub iron_ore: u32,
}

#[derive(Debug, Clone, Copy, PartialEq, Eq, Structural)]
pub enum GatherPractice {
    Forestry,
    Mining,
}

#[derive(Debug, Clone)]
pub struct GatherOutcome {
    pub accepted: bool,
    pub yields: Vec<ResourceAmount>,
    pub reason: Option<String>,
    pub practice: Option<GatherPractice>,
}

// ---------------------------------------------------------------- specs

pub open spec fn sat_add_u32(a: u32, b: u32) -> u32 {
    if a + b > u32::MAX { u32::MAX } else { (a + b) as u32 }
}

/// Whole recovery intervals since the node last recovered.
pub open spec fn cycles_since(n: ResourceNode, tick: u64) -> int {
    let interval = if n.recovery_interval_ticks < 1 { 1 } else { n.recovery_interval_ticks };
    let elapsed = if tick >= n.last_recovered_tick { tick - n.last_recovered_tick } else { 0 };
    elapsed / (interval as int)
}

/// A deposit after `cycles` recoveries: one unit each, up to capacity.
pub open spec fn recovered_deposit(d: ResourceDeposit, cycles: int) -> ResourceDeposit {
    let gain: u32 = if cycles > u32::MAX { u32::MAX } else { cycles as u32 };
    let r = sat_add_u32(d.remaining, gain);
    ResourceDeposit { remaining: if r > d.capacity { d.capacity } else { r }, ..d }
}

/// The node on beat `tick`, once every full interval has recovered.
pub open spec fn recovered_node(n: ResourceNode, n2: ResourceNode, tick: u64) -> bool {
    let c = cycles_since(n, tick);
    let interval = if n.recovery_interval_ticks < 1 { 1 } else { n.recovery_interval_ticks };
    if c == 0 {
        n2 == n
    } else {
        &&& n2 == ResourceNode { deposits: n2.deposits, last_recovered_tick: n2.last_recovered_tick, ..n }
        &&& n2.last_recovered_tick == n.last_recovered_tick + c * interval
        &&& n2.deposits@.len() == n.deposits@.len()
        &&& forall|i: int|
            0 <= i < n.deposits@.len() ==> #[trigger] n2.deposits@[i] == recovered_deposit(
                n.deposits@[i],
                c,
            )
    }
}

/// The index of the first deposit of `k` with something left, or `-1`.
pub open spec fn open_deposit(ds: Seq<ResourceDeposit>, k: ResourceKind) -> int
    decreases ds.len(),
{
    if ds.len() == 0 {
        -1
    } else if ds[0].kind == k && ds[0].remaining > 0 {
        0
    } else {
        let r = open_deposit(ds.drop_first(), k);
        if r < 0 { -1 } else { r + 1 }
    }
}

pub open spec fn worked_kind(a: GatherAction) -> ResourceKind {
    match a {
        GatherAction::Log => ResourceKind::Timber,
        GatherAction::Mine => ResourceKind::Stone,
    }
}

pub open spec fn taken(ds: Seq<ResourceDeposit>, i: int) -> Seq<ResourceDeposit> {
    ds.update(i, ResourceDeposit { remaining: (ds[i].remaining - 1) as u32, ..ds[i] })
}

/// The deposits after a piece of work, and what it yields; `None` when
/// the worked deposit is empty.
pub open spec fn yields_of(ds: Seq<ResourceDeposit>, a: GatherAction) -> Option<
    (Seq<ResourceDeposit>, Seq<ResourceAmount>),
> {
    let k = worked_kind(a);
    let i = open_deposit(ds, k);
    if i < 0 {
        None
    } else {
        let ds1 = taken(ds, i);
        let first = seq![ResourceAmount { kind: k, amount: 2 }];
        let j = open_deposit(ds1, ResourceKind::IronOre);
        if a == GatherAction::Mine && j >= 0 {
            Some((taken(ds1, j), first.push(ResourceAmount { kind: ResourceKind::IronOre, amount: 1 })))
        } else {
            Some((ds1, first))
        }
    }
}

pub open spec fn gained(g: Gatherer, y: Seq<ResourceAmount>) -> Gatherer
    decreases y.len(),
{
    if y.len() == 0 {
        g
    } else {
        let g1 = gained(g, y.drop_last());
        let a = y.last();
        match a.kind {
            ResourceKind::Timber => Gatherer { timber: sat_add_u32(g1.timber, a.amount), ..g1 },
            ResourceKind::Stone => Gatherer { stone: sat_add_u32(g1.stone, a.amount), ..g1 },
            ResourceKind::IronOre => Gatherer { iron_ore: sat_add_u32(g1.iron_ore, a.amount), ..g1 },
        }
    }
}

pub open spec fn node_named(ns: Seq<ResourceNode>, id: Seq<char>) -> int
    decreases ns.len(),
{
    if ns.len() == 0 {
        -1
    } else if ns[0].node_id@ == id {
        0
    } else {
        let r = node_named(ns.drop_first(), id);
        if r < 0 { -1 } else { r + 1 }
    }
}

pub open spec fn landmark_named(ls: Seq<Landmark>, id: Seq<char>) -> int
    decreases ls.len(),
{
    if ls.len() == 0 {
        -1
    } else if ls[0].id@ == id {
        0
    } else {
        let r = landmark_named(ls.drop_first(), id);
        if r < 0 { -1 } else { r + 1 }
    }
}

/// Every node stands at a landmark of the map.
pub open spec fn nodes_on_map(ns: Seq<ResourceNode>, ls: Seq<Landmark>) -> bool {
    forall|i: int| 0 <= i < ns.len() ==> landmark_named(ls, (#[trigger] ns[i]).landmark_id@) >= 0
}

pub open spec fn expected_landmark(a: GatherAction) -> Seq<char> {
    match a {
        GatherAction::Log => "whisperwood-edge"@,
        GatherAction::Mine => "first-beacon-mine"@,
    }
}

pub open spec fn required_tool(a: GatherAction) -> CrudeTool {
    match a {
        GatherAction::Log => CrudeTool::HandAxe,
        GatherAction::Mine => CrudeTool::StonePick,
    }
}

pub open spec fn tool_on_rack(tools: Seq<ToolAccess>, t: CrudeTool) -> bool {
    exists|i: int|
        0 <= i < tools.len() && (#[trigger] tools[i]).available_to_all && tools[i].tools@.contains(
            t,
        )
}

pub open spec fn abs_diff(a: i32, b: i32) -> int {
    if a >= b { a - b } else { b - a }
}

pub open spec fn beside(a: Position, b: Position) -> bool {
    abs_diff(a.x, b.x) + abs_diff(a.y, b.y) <= 1
}

pub open spec fn gather_refused(
    ns: Seq<ResourceNode>,
    ns2: Seq<ResourceNode>,
    g: Gatherer,
    g2: Gatherer,
    r: GatherOutcome,
    text: Seq<char>,
) -> bool {
    &&& !r.accepted && r.yields@.len() == 0 && r.practice is None
    &&& r.reason matches Some(s) && s@ == text
    &&& ns2 == ns && g2 == g
}

/// The outcome of working the node at index `i`.
pub open spec fn gather_post(
    ns: Seq<ResourceNode>,
    ns2: Seq<ResourceNode>,
    tools: Seq<ToolAccess>,
    ls: Seq<Landmark>,
    g: Gatherer,
    g2: Gatherer,
    i: int,
    a: GatherAction,
    r: GatherOutcome,
) -> bool {
    let n = ns[i];
    if g.knocked_out {
        gather_refused(ns, ns2, g, g2, r, "Recover at the First Beacon before returning to gathering work."@)
    } else if n.landmark_id@ != expected_landmark(a) {
        gather_refused(
            ns,
            ns2,
            g,
            g2,
            r,
            if a == GatherAction::Log {
                "Logging requires a marked woodland node."@
            } else {
                "Mining requires a marked stone seam."@
            },
        )
    } else if !beside(g.position, ls[landmark_named(ls, n.landmark_id@)].position) {
        gather_refused(ns, ns2, g, g2, r, "Stand beside the resource before working it."@)
    } else if !tool_on_rack(tools, required_tool(a)) {
        gather_refused(ns, ns2, g, g2, r, "The shared crude tool rack cannot supply this work."@)
    } else {
        match yields_of(n.deposits@, a) {
            None => gather_refused(
                ns,
                ns2,
                g,
                g2,
                r,
                "This resource is depleted; its server-owned recovery is still underway."@,
            ),
            Some((ds2, y)) => {
                &&& r.accepted && r.reason is None
                &&& r.yields@ == y
                &&& r.practice == Some(
                    if a == GatherAction::Log { GatherPractice::Forestry } else { GatherPractice::Mining },
                )
                &&& g2 == gained(g, y)
                &&& ns2.len() == ns.len()
                &&& forall|j: int| 0 <= j < ns.len() && j != i ==> ns2[j] == ns[j]
                &&& ns2[i] == ResourceNode { deposits: ns2[i].deposits, ..n }
                &&& ns2[i].deposits@ == ds2
            },
        }
    }
}

// ---------------------------------------------------------------- state

fn deposit(kind: ResourceKind, capacity: u32) -> (d: ResourceDeposit)
    ensures
        d == (ResourceDeposit { kind, remaining: capacity, capacity }),
{
    ResourceDeposit { kind, remaining: capacity, capacity }
}

/// The resource nodes of a new world: the woodland edge with twelve
/// timber, and the stone seam with ten stone and four iron ore, all full.
pub fn fresh_resource_nodes() -> (ns: Vec<ResourceNode>)
    ensures
        ns@.len() == 2,
        ns@[0].node_id@ == "whisperwood-edge-node"@,
        ns@[0].landmark_id@ == "whisperwood-edge"@,
        ns@[0].deposits@ == seq![ResourceDeposit { kind: ResourceKind::Timber, remaining: 12, capacity: 12 }],
        ns@[1].node_id@ == "shallow-stone-seam-node"@,
        ns@[1].landmark_id@ == "first-beacon-mine"@,
        ns@[1].deposits@ == seq![
            ResourceDeposit { kind: ResourceKind::Stone, remaining: 10, capacity: 10 },
            ResourceDeposit { kind: ResourceKind::IronOre, remaining: 4, capacity: 4 },
        ],
        forall|i: int|
            0 <= i < 2 ==> (#[trigger] ns@[i]).recovery_interval_ticks == RESOURCE_RECOVERY_INTERVAL_TICKS
                && ns@[i].last_recovered_tick == 0,
{
    let mut ns: Vec<ResourceNode> = Vec::new();
    let mut wood: Vec<ResourceDeposit> = Vec::new();
    wood.push(deposit(ResourceKind::Timber, 12));
    ns.push(
        ResourceNode {
            node_id: String::from_str("whisperwood-edge-node"),
            landmark_id: String::from_str("whisperwood-edge"),
            deposits: wood,
            recovery_interval_ticks: RESOURCE_RECOVERY_INTERVAL_TICKS,
            last_recovered_tick: 0,
        },
    );
    let mut seam: Vec<ResourceDeposit> = Vec::new();
    seam.push(deposit(ResourceKind::Stone, 10));
    seam.push(deposit(ResourceKind::IronOre, 4));
    ns.push(
        ResourceNode {
            node_id: String::from_str("shallow-stone-seam-node"),
            landmark_id: String::from_str("first-beacon-mine"),
            deposits: seam,
            recovery_interval_ticks: RESOURCE_RECOVERY_INTERVAL_TICKS,
            last_recovered_tick: 0,
        },
    );
    proof {
        assert(ns@[0].deposits@ =~= seq![deposit_spec(ResourceKind::Timber, 12)]);
        assert(ns@[1].deposits@ =~= seq![
            deposit_spec(ResourceKind::Stone, 10),
            deposit_spec(ResourceKind::IronOre, 4),
        ]);
    }
    ns
}

pub open spec fn deposit_spec(kind: ResourceKind, capacity: u32) -> ResourceDeposit {
    ResourceDeposit { kind, remaining: capacity, capacity }
}

/// The shared tool rack of a new world: a hand axe and a stone pick that
/// anyone may use.
pub fn fresh_tool_access() -> (ts: Vec<ToolAccess>)
    ensures
        ts@.len() == 1,
        ts@[0].landmark_id@ == "first-beacon-tool-rack"@,
        ts@[0].tools@ == seq![CrudeTool::HandAxe, CrudeTool::StonePick],
        ts@[0].available_to_all,
{
    let mut tools: Vec<CrudeTool> = Vec::new();
    tools.push(CrudeTool::HandAxe);
    tools.push(CrudeTool::StonePick);
    let mut ts: Vec<ToolAccess> = Vec::new();
    ts.push(
        ToolAccess {
            landmark_id: String::from_str("first-beacon-tool-rack"),
            tools,
            available_to_all: true,
        },
    );
    proof {
        assert(ts@[0].tools@ =~= seq![CrudeTool::HandAxe, CrudeTool::StonePick]);
    }
    ts
}

/// Recovers one node for beat `tick`.
pub fn recover_node(n: &mut ResourceNode, tick: u64)
    ensures
        recovered_node(*old(n), *final(n), tick),
{
    let interval = if n.recovery_interval_ticks < 1 { 1 } else { n.recovery_interval_ticks };
    let elapsed = tick.saturating_sub(n.last_recovered_tick);
    let cycles = elapsed / interval;
    if cycles == 0 {
        return;
    }
    let gain: u32 = if cycles > 0xffff_ffff { 0xffff_ffff } else { cycles as u32 };
    let ghost before = n.deposits@;
    let ghost n0 = *n;
    let m = n.deposits.len();
    let mut k: usize = 0;
    while k < m
        invariant
            *n == (ResourceNode { deposits: n.deposits, ..n0 }),
            m == n.deposits@.len(),
            before.len() == m,
            k <= m,
            gain == (if cycles > u32::MAX { u32::MAX } else { cycles as u32 }),
            forall|q: int| 0 <= q < k ==> #[trigger] n.deposits@[q] == recovered_deposit(before[q], cycles as int),
            forall|q: int| k <= q < m ==> #[trigger] n.deposits@[q] == before[q],
        decreases m - k,
    {
        let d = n.deposits[k];
        let r = d.remaining.saturating_add(gain);
        let nd = ResourceDeposit { remaining: if r > d.capacity { d.capacity } else { r }, ..d };
        n.deposits.set(k, nd);
        k = k + 1;
    }
    assert(cycles * interval <= elapsed) by (nonlinear_arith)
        requires
            cycles == elapsed / interval,
            interval >= 1,
    ;
    assert(n.last_recovered_tick + elapsed <= u64::MAX);
    n.last_recovered_tick = n.last_recovered_tick + cycles * interval;
}

/// Recovers every node for beat `tick`.
pub fn recover_resource_nodes(ns: &mut Vec<ResourceNode>, tick: u64)
    ensures
        final(ns)@.len() == old(ns)@.len(),
        forall|i: int| 0 <= i < old(ns)@.len() ==> recovered_node(#[trigger] old(ns)@[i], final(ns)@[i], tick),
{
    let ghost before = ns@;
    let m = ns.len();
    let mut k: usize = 0;
    while k < m
        invariant
            m == ns@.len(),
            before.len() == m,
            k <= m,
            forall|q: int| 0 <= q < k ==> recovered_node(#[trigger] before[q], ns@[q], tick),
            forall|q: int| k <= q < m ==> #[trigger] ns@[q] == before[q],
        decreases m - k,
    {
        let ghost prev = ns@;
        let mut node = ns.remove(k);
        recover_node(&mut node, tick);
        ns.insert(k, node);
        proof {
            lemma_replace(prev, k as int, node);
        }
        k = k + 1;
    }
}

proof fn lemma_replace<T>(s: Seq<T>, i: int, x: T)
    requires
        0 <= i < s.len(),
    ensures
        s.remove(i).insert(i, x) == s.update(i, x),
{
    assert(s.remove(i).insert(i, x) =~= s.update(i, x));
}

// ---------------------------------------------------------------- work

proof fn lemma_open_deposit_bounds(ds: Seq<ResourceDeposit>, k: ResourceKind)
    ensures
        -1 <= open_deposit(ds, k) < ds.len(),
        open_deposit(ds, k) >= 0 ==> ds[open_deposit(ds, k)].kind == k && ds[open_deposit(ds, k)].remaining > 0,
    decreases ds.len(),
{
    if ds.len() > 0 && !(ds[0].kind == k && ds[0].remaining > 0) {
        lemma_open_deposit_bounds(ds.drop_first(), k);
    }
}

fn find_open_deposit(ds: &Vec<ResourceDeposit>, k: ResourceKind) -> (r: Option<usize>)
    ensures
        match r {
            Some(i) => i as int == open_deposit(ds@, k),
            None => open_deposit(ds@, k) < 0,
        },
{
    let n = ds.len();
    let mut i: usize = 0;
    assert(ds@.subrange(0, n as int) =~= ds@);
    while i < n
        invariant
            n == ds@.len(),
            i <= n,
            open_deposit(ds@, k) == if open_deposit(ds@.subrange(i as int, n as int), k) < 0 {
                -1
            } else {
                open_deposit(ds@.subrange(i as int, n as int), k) + i
            },
        decreases n - i,
    {
        let ghost rest = ds@.subrange(i as int, n as int);
        assert(rest.drop_first() =~= ds@.subrange(i + 1, n as int));
        assert(rest[0] == ds@[i as int]);
        if ds[i].kind == k && ds[i].remaining > 0 {
            return Some(i);
        }
        i = i + 1;
    }
    assert(ds@.subrange(n as int, n as int).len() == 0);
    None
}

fn take_one(ds: &mut Vec<ResourceDeposit>, i: usize)
    requires
        i < old(ds)@.len(),
        old(ds)@[i as int].remaining > 0,
    ensures
        final(ds)@ == taken(old(ds)@, i as int),
{
    let d = ds[i];
    ds.set(i, ResourceDeposit { remaining: d.remaining - 1, ..d });
}

/// Works the deposits for `a`; `None` when the worked deposit is empty.
pub fn apply_yields(ds: &mut Vec<ResourceDeposit>, a: GatherAction) -> (r: Option<Vec<ResourceAmount>>)
    ensures
        match yields_of(old(ds)@, a) {
            None => r is None && final(ds)@ == old(ds)@,
            Some((ds2, y)) => r matches Some(v) && v@ == y && final(ds)@ == ds2,
        },
{
    let k = match a {
        GatherAction::Log => ResourceKind::Timber,
        GatherAction::Mine => ResourceKind::Stone,
    };
    proof {
        lemma_open_deposit_bounds(ds@, k);
    }
    let Some(i) = find_open_deposit(ds, k) else {
        return None;
    };
    take_one(ds, i);
    let mut y: Vec<ResourceAmount> = Vec::new();
    y.push(ResourceAmount { kind: k, amount: 2 });
    proof {
        assert(y@ =~= seq![ResourceAmount { kind: k, amount: 2 }]);
        lemma_open_deposit_bounds(ds@, ResourceKind::IronOre);
    }
    if a == GatherAction::Mine {
        if let Some(j) = find_open_deposit(ds, ResourceKind::IronOre) {
            take_one(ds, j);
            y.push(ResourceAmount { kind: ResourceKind::IronOre, amount: 1 });
        }
    }
    Some(y)
}

fn credit_yields(g: &mut Gatherer, y: &Vec<ResourceAmount>)
    ensures
        *final(g) == gained(*old(g), y@),
{
    let ghost start = *g;
    for i in 0..y.len()
        invariant
            *g == gained(start, y@.take(i as int)),
    {
        assert(y@.take(i + 1).drop_last() =~= y@.take(i as int));
        let a = y[i];
        match a.kind {
            ResourceKind::Timber => g.timber = g.timber.saturating_add(a.amount),
            ResourceKind::Stone => g.stone = g.stone.saturating_add(a.amount),
            ResourceKind::IronOre => g.iron_ore = g.iron_ore.saturating_add(a.amount),
        }
    }
    assert(y@.take(y@.len() as int) =~= y@);
}

proof fn lemma_named_bounds(ns: Seq<ResourceNode>, id: Seq<char>)
    ensures
        -1 <= node_named(ns, id) < ns.len(),
    decreases ns.len(),
{
    if ns.len() > 0 && ns[0].node_id@ != id {
        lemma_named_bounds(ns.drop_first(), id);
    }
}

proof fn lemma_landmark_bounds(ls: Seq<Landmark>, id: Seq<char>)
    ensures
        -1 <= landmark_named(ls, id) < ls.len(),
        landmark_named(ls, id) >= 0 ==> ls[landmark_named(ls, id)].id@ == id,
    decreases ls.len(),
{
    if ls.len() > 0 && ls[0].id@ != id {
        lemma_landmark_bounds(ls.drop_first(), id);
    }
}

fn find_node(ns: &Vec<ResourceNode>, id: &String) -> (r: Option<usize>)
    ensures
        match r {
            Some(i) => i as int == node_named(ns@, id@),
            None => node_named(ns@, id@) < 0,
        },
{
    let n = ns.len();
    let mut i: usize = 0;
    assert(ns@.subrange(0, n as int) =~= ns@);
    while i < n
        invariant
            n == ns@.len(),
            i <= n,
            node_named(ns@, id@) == if node_named(ns@.subrange(i as int, n as int), id@) < 0 {
                -1
            } else {
                node_named(ns@.subrange(i as int, n as int), id@) + i
            },
        decreases n - i,
    {
        let ghost rest = ns@.subrange(i as int, n as int);
        assert(rest.drop_first() =~= ns@.subrange(i + 1, n as int));
        assert(rest[0] == ns@[i as int]);
        if ns[i].node_id == *id {
            return Some(i);
        }
        i = i + 1;
    }
    assert(ns@.subrange(n as int, n as int).len() == 0);
    None
}

fn find_landmark(ls: &Vec<Landmark>, id: &String) -> (r: Option<usize>)
    ensures
        match r {
            Some(i) => i as int == landmark_named(ls@, id@),
            None => landmark_named(ls@, id@) < 0,
        },
{
    let n = ls.len();
    let mut i: usize = 0;
    assert(ls@.subrange(0, n as int) =~= ls@);
    while i < n
        invariant
            n == ls@.len(),
            i <= n,
            landmark_named(ls@, id@) == if landmark_named(ls@.subrange(i as int, n as int), id@) < 0 {
                -1
            } else {
                landmark_named(ls@.subrange(i as int, n as int), id@) + i
            },
        decreases n - i,
    {
        let ghost rest = ls@.subrange(i as int, n as int);
        assert(rest.drop_first() =~= ls@.subrange(i + 1, n as int));
        assert(rest[0] == ls@[i as int]);
        if ls[i].id == *id {
            return Some(i);
        }
        i = i + 1;
    }
    assert(ls@.subrange(n as int, n as int).len() == 0);
    None
}

fn holds_tool(tools: &Vec<CrudeTool>, t: CrudeTool) -> (r: bool)
    ensures
        r == tools@.contains(t),
{
    let m = tools.len();
    for j in 0..m
        invariant
            m == tools@.len(),
            forall|q: int| 0 <= q < j ==> tools@[q] != t,
    {
        if tools[j] == t {
            assert(tools@[j as int] == t);
            return true;
        }
    }
    false
}

fn tool_available(tools: &Vec<ToolAccess>, t: CrudeTool) -> (r: bool)
    ensures
        r == tool_on_rack(tools@, t),
{
    let n = tools.len();
    for i in 0..n
        invariant
            n == tools@.len(),
            forall|q: int|
                0 <= q < i ==> !((#[trigger] tools@[q]).available_to_all && tools@[q].tools@.contains(t)),
    {
        if tools[i].available_to_all && holds_tool(&tools[i].tools, t) {
            return true;
        }
    }
    false
}

fn refuse(text: &str) -> (r: GatherOutcome)
    ensures
        !r.accepted && r.yields@.len() == 0 && r.practice is None && (r.reason matches Some(s) && s@
            == text@),
{
    GatherOutcome { accepted: false, yields: Vec::new(), reason: Some(text.to_owned()), practice: None }
}

/// Works the node `node_id` for `g`. The selector must be a bounded text
/// without control characters that names a node of the world.
pub fn foundation_resource(
    ns: &mut Vec<ResourceNode>,
    tools: &Vec<ToolAccess>,
    landmarks: &Vec<Landmark>,
    g: &mut Gatherer,
    node_id: &str,
    action: GatherAction,
) -> (r: Result<GatherOutcome, RepositoryError>)
    requires
        nodes_on_map(old(ns)@, landmarks@),
    ensures
        match r {
            Err(e) => {
                &&& final(ns)@ == old(ns)@ && *final(g) == *old(g)
                &&& if bounded_text_refused(node_id@, 160) {
                    e.spec_is(
                        400,
                        "invalid_foundation_resource"@,
                        "A nearby resource selector must contain 1 to 160 characters and no control characters."@,
                    )
                } else {
                    &&& node_named(old(ns)@, trim_seq(node_id@)) < 0
                    &&& e.spec_is(
                        404,
                        "foundation_resource_not_found"@,
                        "That nearby resource node is not part of the First Beacon world."@,
                    )
                }
            },
            Ok(out) => {
                let i = node_named(old(ns)@, trim_seq(node_id@));
                &&& !bounded_text_refused(node_id@, 160)
                &&& i >= 0
                &&& gather_post(old(ns)@, final(ns)@, tools@, landmarks@, *old(g), *final(g), i, action, out)
            },
        },
{
    let id = match validate_bounded_text(
        node_id,
        160,
        "invalid_foundation_resource",
        "A nearby resource selector must contain 1 to 160 characters and no control characters.",
    ) {
        Ok(id) => id,
        Err(e) => return Err(e),
    };
    proof {
        lemma_named_bounds(ns@, id@);
    }
    let Some(i) = find_node(ns, &id) else {
        return Err(
            RepositoryError::new(
                404,
                "foundation_resource_not_found",
                "That nearby resource node is not part of the First Beacon world.",
            ),
        );
    };
    if g.knocked_out {
        return Ok(refuse("Recover at the First Beacon before returning to gathering work."));
    }
    let expected = match action {
        GatherAction::Log => String::from_str("whisperwood-edge"),
        GatherAction::Mine => String::from_str("first-beacon-mine"),
    };
    if ns[i].landmark_id != expected {
        return Ok(
            refuse(
                match action {
                    GatherAction::Log => "Logging requires a marked woodland node.",
                    GatherAction::Mine => "Mining requires a marked stone seam.",
                },
            ),
        );
    }
    proof {
        lemma_landmark_bounds(landmarks@, ns@[i as int].landmark_id@);
        assert(landmark_named(landmarks@, ns@[i as int].landmark_id@) >= 0);
    }
    let Some(l) = find_landmark(landmarks, &ns[i].landmark_id) else {
        return Ok(refuse("Stand beside the resource before working it."));
    };
    let at = landmarks[l].position;
    let dx: i64 = if g.position.x >= at.x {
        g.position.x as i64 - at.x as i64
    } else {
        at.x as i64 - g.position.x as i64
    };
    let dy: i64 = if g.position.y >= at.y {
        g.position.y as i64 - at.y as i64
    } else {
        at.y as i64 - g.position.y as i64
    };
    if dx + dy > 1 {
        return Ok(refuse("Stand beside the resource before working it."));
    }
    let tool = match action {
        GatherAction::Log => CrudeTool::HandAxe,
        GatherAction::Mine => CrudeTool::StonePick,
    };
    if !tool_available(tools, tool) {
        return Ok(refuse("The shared crude tool rack cannot supply this work."));
    }
    let kind = match action {
        GatherAction::Log => ResourceKind::Timber,
        GatherAction::Mine => ResourceKind::Stone,
    };
    if find_open_deposit(&ns[i].deposits, kind).is_none() {
        return Ok(refuse("This resource is depleted; its server-owned recovery is still underway."));
    }
    let ghost before = ns@;
    let mut node = ns.remove(i);
    let y = apply_yields(&mut node.deposits, action);
    let Some(y) = y else {
        ns.insert(i, node);
        return Ok(refuse("This resource is depleted; its server-owned recovery is still underway."));
    };
    ns.insert(i, node);
    proof {
        assert forall|j: int| 0 <= j < before.len() && j != i implies ns@[j] == before[j] by {
            if j < i {
                assert(ns@[j] == before.remove(i as int)[j]);
            } else {
                assert(ns@[j] == before.remove(i as int)[j - 1]);
            }
        }
    }
    credit_yields(g, &y);
    Ok(
        GatherOutcome {
            accepted: true,
            yields: y,
            reason: None,
            practice: Some(
                match action {
                    GatherAction::Log => GatherPractice::Forestry,
                    GatherAction::Mine => GatherPractice::Mining,
                },
            ),
        },
    )
}

// ---------------------------------------------------------------- laws

/// Recovery never fills a deposit past its capacity.
pub proof fn lemma_recovery_respects_capacity(d: ResourceDeposit, cycles: int)
    requires
        d.remaining <= d.capacity,
    ensures
        recovered_deposit(d, cycles).remaining <= d.capacity,
        recovered_deposit(d, cycles).capacity == d.capacity,
{
}

/// Work takes exactly one unit from each deposit it draws on, and never
/// from an empty one.
pub proof fn lemma_work_takes_one_unit(ds: Seq<ResourceDeposit>, a: GatherAction)
    ensures
        yields_of(ds, a) matches Some((ds2, y)) ==> {
            &&& ds2.len() == ds.len()
            &&& forall|i: int|
                0 <= i < ds.len() ==> (#[trigger] ds2[i]).remaining <= ds[i].remaining
                    && ds[i].remaining <= ds2[i].remaining + 1 && ds2[i].capacity == ds[i].capacity
                    && ds2[i].kind == ds[i].kind
        },
{
    lemma_open_deposit_bounds(ds, worked_kind(a));
    let i = open_deposit(ds, worked_kind(a));
    if i >= 0 {
        let ds1 = taken(ds, i);
        lemma_open_deposit_bounds(ds1, ResourceKind::IronOre);
    }
}
} // verus!
