//! The rough forge at the First Beacon: gathered timber becomes charcoal or
//! a tool handle, and iron ore with both becomes the iron field tool,
//! whose working actions double those of the crude one.
use crate::frontier::Position;
use vstd::prelude::*;
use vstd::string::*;

verus! {

/// Timber one charcoal burn takes.
pub const CHARCOAL_TIMBER_COST: u32 = 1;

/// Timber one handle takes.
pub const HANDLE_TIMBER_COST: u32 = 1;

/// Iron ore the field tool takes.
pub const TOOL_IRON_COST: u32 = 2;

/// Charcoal the field tool takes.
pub const TOOL_CHARCOAL_COST: u32 = 1;

/// Handles the field tool takes.
pub const TOOL_HANDLE_COST: u32 = 1;

/// Working actions of the crude field tool.
pub const CRUDE_TOOL_ACTIONS: u8 = 3;

/// Working actions of the iron field tool: twice the crude one's.
pub const IRON_TOOL_ACTIONS: u8 = 6;

#[derive(Debug, Clone, Copy, PartialEq, Eq, Structural)]
pub enum ForgeMaterialKind {
    Timber,
    IronOre,
    Charcoal,
    ToolHandle,
}

#[derive(Debug, Clone, Copy, PartialEq, Eq, Structural)]
pub struct MaterialAmount {
    pub kind: ForgeMaterialKind,
    pub amount: u32,
}

#[derive(Debug, Clone, Copy, PartialEq, Eq, Structural)]
pub enum ForgeAction {
    Inspect,
    BurnCharcoal,
    ShapeHandle,
    ForgeFieldTool,
}

#[derive(Debug, Clone, Copy, PartialEq, Eq, Structural)]
pub enum FieldToolKind {
    Crude,
    Iron,
}

#[derive(Debug, Clone)]
pub struct ForgeRecipe {
    pub action: ForgeAction,
    pub label: String,
    pub costs: Vec<MaterialAmount>,
    pub produces: Vec<MaterialAmount>,
    pub tool: Option<FieldToolKind>,
}

#[derive(Debug, Clone)]
pub struct ForgeState {
    pub landmark_id: String,
    pub recipes: Vec<ForgeRecipe>,
    pub crude_tool_action_capacity: u8,
    pub improved_tool_action_capacity: u8,
}

/// What of a player the forge reads and changes.
#[derive(Debug, Clone, Copy, PartialEq, Eq, Structural)]
pub struct Smith {
    pub position: Position,
    pub knocked_out: bool,
    pub timber: u32,
    pub iron_ore: u32,
    pub charcoal: u32,
    pub tool_handles: u32,
    pub field_tool_kind: FieldToolKind,
    pub field_tool_condition: u8,
}

#[derive(Debug, Clone)]
pub struct ForgeOutcome {
    pub accepted: bool,
    pub reason: Option<String>,
    /// Whether the work practises smithing.
    pub practised: bool,
}

// ---------------------------------------------------------------- specs

pub open spec fn sat_add_u32(a: u32, b: u32) -> u32 {
    if a + b > u32::MAX { u32::MAX } else { (a + b) as u32 }
}

pub open spec fn tool_actions(k: FieldToolKind) -> u8 {
    match k {
        FieldToolKind::Crude => CRUDE_TOOL_ACTIONS,
        FieldToolKind::Iron => IRON_TOOL_ACTIONS,
    }
}

pub open spec fn abs_diff(a: i32, b: i32) -> int {
    if a >= b { a - b } else { b - a }
}

pub open spec fn beside(a: Position, b: Position) -> bool {
    abs_diff(a.x, b.x) + abs_diff(a.y, b.y) <= 1
}

/// The smith after the forge work `a`, or the reason it is refused.
pub open spec fn worked(s: Smith, a: ForgeAction) -> Result<Smith, Seq<char>> {
    match a {
        ForgeAction::Inspect => Ok(s),
        ForgeAction::BurnCharcoal => if s.timber < CHARCOAL_TIMBER_COST {
            Err("Burning charcoal needs 1 gathered timber."@)
        } else {
            Ok(Smith { timber: (s.timber - CHARCOAL_TIMBER_COST) as u32, charcoal: sat_add_u32(s.charcoal, 1), ..s })
        },
        ForgeAction::ShapeHandle => if s.timber < HANDLE_TIMBER_COST {
            Err("Shaping a handle needs 1 gathered timber."@)
        } else {
            Ok(Smith { timber: (s.timber - HANDLE_TIMBER_COST) as u32, tool_handles: sat_add_u32(s.tool_handles, 1), ..s })
        },
        ForgeAction::ForgeFieldTool => if s.field_tool_kind == FieldToolKind::Iron && s.field_tool_condition
            == IRON_TOOL_ACTIONS {
            Err("The iron field tool is already in full working order."@)
        } else if s.iron_ore < TOOL_IRON_COST || s.charcoal < TOOL_CHARCOAL_COST || s.tool_handles
            < TOOL_HANDLE_COST {
            Err("Forging the iron field tool needs 2 iron ore, 1 charcoal, and 1 tool handle."@)
        } else {
            Ok(
                Smith {
                    iron_ore: (s.iron_ore - TOOL_IRON_COST) as u32,
                    charcoal: (s.charcoal - TOOL_CHARCOAL_COST) as u32,
                    tool_handles: (s.tool_handles - TOOL_HANDLE_COST) as u32,
                    field_tool_kind: FieldToolKind::Iron,
                    field_tool_condition: IRON_TOOL_ACTIONS,
                    ..s
                },
            )
        },
    }
}

/// The outcome of forge work by a smith, with the forge at `at`.
pub open spec fn forge_post(s: Smith, s2: Smith, at: Position, a: ForgeAction, r: ForgeOutcome) -> bool {
    if s.knocked_out {
        !r.accepted && !r.practised && (r.reason matches Some(t) && t@
            == "Recover before working at the rough forge."@) && s2 == s
    } else if !beside(s.position, at) {
        !r.accepted && !r.practised && (r.reason matches Some(t) && t@
            == "Stand beside the rough forge before working it."@) && s2 == s
    } else {
        match worked(s, a) {
            Err(text) => !r.accepted && !r.practised && (r.reason matches Some(t) && t@ == text) && s2 == s,
            Ok(w) => r.accepted && r.reason is None && r.practised == (a != ForgeAction::Inspect) && s2 == w,
        }
    }
}

// ---------------------------------------------------------------- state

fn material(kind: ForgeMaterialKind, amount: u32) -> (m: MaterialAmount)
    ensures
        m == (MaterialAmount { kind, amount }),
{
    MaterialAmount { kind, amount }
}

fn one(m: MaterialAmount) -> (v: Vec<MaterialAmount>)
    ensures
        v@ == seq![m],
{
    let mut v: Vec<MaterialAmount> = Vec::new();
    v.push(m);
    assert(v@ =~= seq![m]);
    v
}

/// The forge's recipes: charcoal and a handle from one timber each, and
/// the iron field tool from two iron ore, one charcoal and one handle.
pub fn forge_state() -> (f: ForgeState)
    ensures
        f.landmark_id@ == "first-beacon-forge"@,
        f.crude_tool_action_capacity == CRUDE_TOOL_ACTIONS,
        f.improved_tool_action_capacity == IRON_TOOL_ACTIONS,
        f.recipes@.len() == 3,
        f.recipes@[0].action == ForgeAction::BurnCharcoal,
        f.recipes@[0].label@ == "Burn charcoal"@,
        f.recipes@[0].costs@ == seq![MaterialAmount { kind: ForgeMaterialKind::Timber, amount: CHARCOAL_TIMBER_COST }],
        f.recipes@[0].produces@ == seq![MaterialAmount { kind: ForgeMaterialKind::Charcoal, amount: 1 }],
        f.recipes@[0].tool is None,
        f.recipes@[1].action == ForgeAction::ShapeHandle,
        f.recipes@[1].label@ == "Shape tool handle"@,
        f.recipes@[1].costs@ == seq![MaterialAmount { kind: ForgeMaterialKind::Timber, amount: HANDLE_TIMBER_COST }],
        f.recipes@[1].produces@ == seq![MaterialAmount { kind: ForgeMaterialKind::ToolHandle, amount: 1 }],
        f.recipes@[1].tool is None,
        f.recipes@[2].action == ForgeAction::ForgeFieldTool,
        f.recipes@[2].label@ == "Forge iron field tool"@,
        f.recipes@[2].costs@ == seq![
            MaterialAmount { kind: ForgeMaterialKind::IronOre, amount: TOOL_IRON_COST },
            MaterialAmount { kind: ForgeMaterialKind::Charcoal, amount: TOOL_CHARCOAL_COST },
            MaterialAmount { kind: ForgeMaterialKind::ToolHandle, amount: TOOL_HANDLE_COST },
        ],
        f.recipes@[2].produces@.len() == 0,
        f.recipes@[2].tool == Some(FieldToolKind::Iron),
{
    let mut tool_costs: Vec<MaterialAmount> = Vec::new();
    tool_costs.push(material(ForgeMaterialKind::IronOre, TOOL_IRON_COST));
    tool_costs.push(material(ForgeMaterialKind::Charcoal, TOOL_CHARCOAL_COST));
    tool_costs.push(material(ForgeMaterialKind::ToolHandle, TOOL_HANDLE_COST));
    let mut recipes: Vec<ForgeRecipe> = Vec::new();
    recipes.push(
        ForgeRecipe {
            action: ForgeAction::BurnCharcoal,
            label: String::from_str("Burn charcoal"),
            costs: one(material(ForgeMaterialKind::Timber, CHARCOAL_TIMBER_COST)),
            produces: one(material(ForgeMaterialKind::Charcoal, 1)),
            tool: None,
        },
    );
    recipes.push(
        ForgeRecipe {
            action: ForgeAction::ShapeHandle,
            label: String::from_str("Shape tool handle"),
            costs: one(material(ForgeMaterialKind::Timber, HANDLE_TIMBER_COST)),
            produces: one(material(ForgeMaterialKind::ToolHandle, 1)),
            tool: None,
        },
    );
    recipes.push(
        ForgeRecipe {
            action: ForgeAction::ForgeFieldTool,
            label: String::from_str("Forge iron field tool"),
            costs: tool_costs,
            produces: Vec::new(),
            tool: Some(FieldToolKind::Iron),
        },
    );
    proof {
        assert(recipes@[2].costs@ =~= seq![
            MaterialAmount { kind: ForgeMaterialKind::IronOre, amount: TOOL_IRON_COST },
            MaterialAmount { kind: ForgeMaterialKind::Charcoal, amount: TOOL_CHARCOAL_COST },
            MaterialAmount { kind: ForgeMaterialKind::ToolHandle, amount: TOOL_HANDLE_COST },
        ]);
    }
    ForgeState {
        landmark_id: String::from_str("first-beacon-forge"),
        recipes,
        crude_tool_action_capacity: CRUDE_TOOL_ACTIONS,
        improved_tool_action_capacity: IRON_TOOL_ACTIONS,
    }
}

/// The working actions a field tool of kind `k` holds when new.
pub fn max_condition(k: FieldToolKind) -> (c: u8)
    ensures
        c == tool_actions(k),
{
    match k {
        FieldToolKind::Crude => CRUDE_TOOL_ACTIONS,
        FieldToolKind::Iron => IRON_TOOL_ACTIONS,
    }
}

// ---------------------------------------------------------------- work

fn refuse(text: &str) -> (r: ForgeOutcome)
    ensures
        !r.accepted && !r.practised && (r.reason matches Some(t) && t@ == text@),
{
    ForgeOutcome { accepted: false, reason: Some(text.to_owned()), practised: false }
}

/// Works the rough forge, which stands at `at`.
pub fn forge_command(s: &mut Smith, at: Position, action: ForgeAction) -> (r: ForgeOutcome)
    ensures
        forge_post(*old(s), *final(s), at, action, r),
{
    if s.knocked_out {
        return refuse("Recover before working at the rough forge.");
    }
    let dx: i64 = if s.position.x >= at.x {
        s.position.x as i64 - at.x as i64
    } else {
        at.x as i64 - s.position.x as i64
    };
    let dy: i64 = if s.position.y >= at.y {
        s.position.y as i64 - at.y as i64
    } else {
        at.y as i64 - s.position.y as i64
    };
    if dx + dy > 1 {
        return refuse("Stand beside the rough forge before working it.");
    }
    match action {
        ForgeAction::Inspect => ForgeOutcome { accepted: true, reason: None, practised: false },
        ForgeAction::BurnCharcoal => {
            if s.timber < CHARCOAL_TIMBER_COST {
                return refuse("Burning charcoal needs 1 gathered timber.");
            }
            s.timber = s.timber - CHARCOAL_TIMBER_COST;
            s.charcoal = s.charcoal.saturating_add(1);
            ForgeOutcome { accepted: true, reason: None, practised: true }
        },
        ForgeAction::ShapeHandle => {
            if s.timber < HANDLE_TIMBER_COST {
                return refuse("Shaping a handle needs 1 gathered timber.");
            }
            s.timber = s.timber - HANDLE_TIMBER_COST;
            s.tool_handles = s.tool_handles.saturating_add(1);
            ForgeOutcome { accepted: true, reason: None, practised: true }
        },
        ForgeAction::ForgeFieldTool => {
            if s.field_tool_kind == FieldToolKind::Iron && s.field_tool_condition == IRON_TOOL_ACTIONS {
                return refuse("The iron field tool is already in full working order.");
            }
            if s.iron_ore < TOOL_IRON_COST || s.charcoal < TOOL_CHARCOAL_COST || s.tool_handles
                < TOOL_HANDLE_COST {
                return refuse(
                    "Forging the iron field tool needs 2 iron ore, 1 charcoal, and 1 tool handle.",
                );
            }
            s.iron_ore = s.iron_ore - TOOL_IRON_COST;
            s.charcoal = s.charcoal - TOOL_CHARCOAL_COST;
            s.tool_handles = s.tool_handles - TOOL_HANDLE_COST;
            s.field_tool_kind = FieldToolKind::Iron;
            s.field_tool_condition = IRON_TOOL_ACTIONS;
            ForgeOutcome { accepted: true, reason: None, practised: true }
        },
    }
}

// ---------------------------------------------------------------- laws

/// Forging is atomic: a refused piece of work spends nothing, and an
/// accepted one spends exactly the recipe's costs.
pub proof fn lemma_forging_is_atomic(s: Smith, s2: Smith, at: Position, a: ForgeAction, r: ForgeOutcome)
    requires
        forge_post(s, s2, at, a, r),
    ensures
        !r.accepted ==> s2 == s,
        r.accepted && a == ForgeAction::ForgeFieldTool ==> s2.iron_ore + TOOL_IRON_COST == s.iron_ore
            && s2.charcoal + TOOL_CHARCOAL_COST == s.charcoal && s2.tool_handles + TOOL_HANDLE_COST
            == s.tool_handles && s2.field_tool_kind == FieldToolKind::Iron
            && s2.field_tool_condition == IRON_TOOL_ACTIONS,
{
}

/// The iron field tool holds twice the working actions of the crude one.
pub proof fn lemma_iron_tool_doubles_the_crude_one()
    ensures
        tool_actions(FieldToolKind::Iron) == 2 * tool_actions(FieldToolKind::Crude),
{
}

} // verus!
