//! Professions and service orders: players learn a professional capability,
//! escrow materials into a repair order on the settlement board, and a
//! credentialed player of another role accepts and completes it.
use vstd::prelude::*;
use vstd::string::*;
use crate::errors::{RepositoryError, opt_text, selector_kept, selector_refused, validate_optional_identifier};
use crate::ledger::{remember, remember_spec, views};
use crate::retention::{Settles, first_settled, make_room, trimmed_settled};
use crate::text::{decimal, numbered};

verus! {

/// The most service orders the board keeps.
pub const MAX_SERVICE_ORDERS: usize = 64;

#[derive(Debug, Clone, Copy, PartialEq, Eq, Structural)]
pub enum ProfessionKind {
    Farmer,
    Smith,
    Carpenter,
    Healer,
    Scout,
    Steward,
}

#[derive(Debug, Clone, Copy, PartialEq, Eq, Structural)]
pub enum ProfessionAction {
    Inspect,
    LearnCapability,
    CreateOrder,
    AcceptOrder,
    CompleteOrder,
}

#[derive(Debug, Clone, Copy, PartialEq, Eq, Structural)]
pub enum ServiceOrderStatus {
    Open,
    Accepted,
    Completed,
    Cancelled,
}

#[derive(Debug, Clone, Copy, PartialEq, Eq, Structural)]
pub struct MaterialStock {
    pub wood: u32,
    pub iron: u32,
    pub cloth: u32,
    pub bandages: u32,
    pub tools: u32,
}

#[derive(Debug, Clone)]
pub struct Capability {
    pub capability_id: String,
    pub name: String,
    pub profession: ProfessionKind,
    pub level: u8,
    pub description: String,
    pub effect: String,
}

#[derive(Debug, Clone)]
pub struct ProfessionProfile {
    pub profession: ProfessionKind,
    pub level: u8,
    pub reputation: u32,
    pub credential: Option<String>,
    pub capabilities: Vec<Capability>,
}

#[derive(Debug, Clone)]
pub struct ServiceOrder {
    pub order_id: String,
    pub requester_account_id: String,
    pub requester_name: String,
    pub provider_account_id: Option<String>,
    pub provider_name: Option<String>,
    pub service: String,
    pub required_profession: ProfessionKind,
    pub materials: MaterialStock,
    pub tools_required: u32,
    pub reward_gold: u32,
    pub benefit: String,
    pub status: ServiceOrderStatus,
    pub quality: u8,
    pub created_tick: u64,
    pub completed_tick: Option<u64>,
}

impl Settles for ServiceOrder {
    open spec fn is_settled(&self) -> bool {
        self.status == ServiceOrderStatus::Completed || self.status == ServiceOrderStatus::Cancelled
    }

    fn settled(&self) -> (r: bool) {
        self.status == ServiceOrderStatus::Completed || self.status == ServiceOrderStatus::Cancelled
    }
}

/// The recipe a service order follows.
#[derive(Debug, Clone)]
pub struct ServiceRecipe {
    pub profession: ProfessionKind,
    pub service: String,
    pub materials: MaterialStock,
    pub tools_required: u32,
    pub reward_gold: u32,
    pub benefit: String,
}

/// The settlement's service-order board.
#[derive(Debug, Clone)]
pub struct ServiceBoard {
    pub orders: Vec<ServiceOrder>,
    pub next_order_id: u64,
}

/// What the board knows of the player giving a command.
#[derive(Debug, Clone)]
pub struct Practitioner {
    pub account_id: String,
    pub display_name: String,
    pub profiles: Vec<ProfessionProfile>,
    pub materials: MaterialStock,
    pub credentials: Vec<String>,
    pub gold: u32,
    pub skill: u32,
}

/// A validated profession command.
#[derive(Debug, Clone)]
pub struct ProfessionRequest {
    pub action: ProfessionAction,
    pub order_id: Option<String>,
    pub profession: Option<ProfessionKind>,
    pub timing_score: Option<u8>,
}

#[derive(Debug, Clone, Copy, PartialEq, Eq, Structural)]
pub enum ProfessionNote {
    CapabilityLearned(ProfessionKind),
    OrderCreated,
    OrderAccepted,
    OrderCompleted,
}

#[derive(Debug, Clone)]
pub struct ProfessionResponse {
    pub accepted: bool,
    pub order: Option<ServiceOrder>,
    pub reason: Option<String>,
    pub note: Option<ProfessionNote>,
    /// The requester whose field tool a completed tool repair restores.
    pub restores_field_tool_of: Option<String>,
}

// ---------------------------------------------------------------- specs

pub open spec fn profession_name(k: ProfessionKind) -> Seq<char> {
    match k {
        ProfessionKind::Farmer => "Farmer"@,
        ProfessionKind::Smith => "Smith"@,
        ProfessionKind::Carpenter => "Carpenter"@,
        ProfessionKind::Healer => "Healer"@,
        ProfessionKind::Scout => "Scout"@,
        ProfessionKind::Steward => "Steward"@,
    }
}

pub open spec fn profession_slug(k: ProfessionKind) -> Seq<char> {
    match k {
        ProfessionKind::Farmer => "farmer"@,
        ProfessionKind::Smith => "smith"@,
        ProfessionKind::Carpenter => "carpenter"@,
        ProfessionKind::Healer => "healer"@,
        ProfessionKind::Scout => "scout"@,
        ProfessionKind::Steward => "steward"@,
    }
}

/// The identifier, name, description and effect of a profession's first
/// capability.
pub open spec fn capability_text(k: ProfessionKind) -> (Seq<char>, Seq<char>, Seq<char>, Seq<char>) {
    match k {
        ProfessionKind::Farmer => (
            "field-tending"@,
            "Field tending"@,
            "Keeps a crop reliable without wasting seed."@,
            "Adds one quality to a tended crop."@,
        ),
        ProfessionKind::Smith => (
            "iron-fitting"@,
            "Iron fitting"@,
            "Turns a small iron stock into a dependable repair."@,
            "Improves repair quality by one."@,
        ),
        ProfessionKind::Carpenter => (
            "joinery"@,
            "Joinery"@,
            "Makes wood and tools serve a public repair order."@,
            "Improves public-work reliability by one."@,
        ),
        ProfessionKind::Healer => (
            "field-dressing"@,
            "Field dressing"@,
            "Limits an injury before it becomes a lasting burden."@,
            "Reduces recovery cost by one."@,
        ),
        ProfessionKind::Scout => (
            "road-reading"@,
            "Road reading"@,
            "Finds a safe route and records the clue for others."@,
            "Improves route knowledge."@,
        ),
        ProfessionKind::Steward => (
            "public-accounting"@,
            "Public accounting"@,
            "Keeps a proposal's cost and service legible."@,
            "Adds one administration quality to a completed action."@,
        ),
    }
}

pub open spec fn is_default_capability(c: Capability, k: ProfessionKind) -> bool {
    let t = capability_text(k);
    &&& c.capability_id@ == t.0
    &&& c.name@ == t.1
    &&& c.profession == k
    &&& c.level == 1
    &&& c.description@ == t.2
    &&& c.effect@ == t.3
}

pub open spec fn has_profession_spec(ps: Seq<ProfessionProfile>, k: ProfessionKind) -> bool {
    exists|i: int| 0 <= i < ps.len() && (#[trigger] ps[i]).profession == k
}

/// The level of the first profile of profession `k`, or one.
pub open spec fn level_for(ps: Seq<ProfessionProfile>, k: ProfessionKind) -> u8
    decreases ps.len(),
{
    if ps.len() == 0 {
        1
    } else if ps[0].profession == k {
        ps[0].level
    } else {
        level_for(ps.drop_first(), k)
    }
}

pub open spec fn covers(stock: MaterialStock, required: MaterialStock) -> bool {
    &&& stock.wood >= required.wood
    &&& stock.iron >= required.iron
    &&& stock.cloth >= required.cloth
    &&& stock.bandages >= required.bandages
    &&& stock.tools >= required.tools
}

/// The quality of a completed order.
pub open spec fn order_quality(timing: u8, level: u8) -> u8 {
    let q = 50 + timing / 2 + level * 5;
    (if q > 100 { 100 } else { q }) as u8
}

/// `c` is the lower-case ASCII letter `l` in either case.
pub open spec fn same_letter(c: char, l: char) -> bool {
    c == l || (c as u32) + 32 == (l as u32)
}

/// `s` names a tool repair: ignoring ASCII case, it contains "tool".
pub open spec fn mentions_tool(s: Seq<char>) -> bool {
    exists|i: int|
        0 <= i && i + 4 <= s.len() && #[trigger] same_letter(s[i], 't') && same_letter(s[i + 1], 'o')
            && same_letter(s[i + 2], 'o') && same_letter(s[i + 3], 'l')
}

pub open spec fn sat_add_u32(a: u32, b: u32) -> u32 {
    if a + b > u32::MAX { u32::MAX } else { (a + b) as u32 }
}

pub open spec fn sat_add_u64(a: u64, b: u64) -> u64 {
    if a + b > u64::MAX { u64::MAX } else { (a + b) as u64 }
}

/// The index of the order with identifier `id`, or -1.
pub open spec fn find_order(s: Seq<ServiceOrder>, id: Seq<char>) -> int
    decreases s.len(),
{
    if s.len() == 0 {
        -1
    } else if s[0].order_id@ == id {
        0
    } else {
        let r = find_order(s.drop_first(), id);
        if r < 0 { -1 } else { r + 1 }
    }
}

proof fn lemma_find_order_bounds(s: Seq<ServiceOrder>, id: Seq<char>)
    ensures
        -1 <= find_order(s, id) < s.len(),
        find_order(s, id) >= 0 ==> s[find_order(s, id)].order_id@ == id,
    decreases s.len(),
{
    if s.len() > 0 && s[0].order_id@ != id {
        lemma_find_order_bounds(s.drop_first(), id);
    }
}

pub open spec fn orders_with_room(s: Seq<ServiceOrder>) -> Option<Seq<ServiceOrder>> {
    let t = trimmed_settled(s, MAX_SERVICE_ORDERS as nat);
    if t.len() < MAX_SERVICE_ORDERS {
        Some(t)
    } else if first_settled(t) < t.len() {
        Some(t.remove(first_settled(t) as int))
    } else {
        None
    }
}

/// The board can take another order: it is under its limit or holds a
/// settled order to evict.
pub open spec fn board_has_room(s: Seq<ServiceOrder>) -> bool {
    s.len() < MAX_SERVICE_ORDERS || exists|i: int| 0 <= i < s.len() && (#[trigger] s[i]).is_settled()
}

pub open spec fn turned_down(r: ProfessionResponse, text: Seq<char>) -> bool {
    &&& !r.accepted
    &&& r.order is None
    &&& r.note is None
    &&& r.restores_field_tool_of is None
    &&& r.reason matches Some(s) && s@ == text
}

// ---------------------------------------------------------------- helpers

fn letter_is(c: char, l: char) -> (r: bool)
    requires
        'a' <= l <= 'z',
    ensures
        r == same_letter(c, l),
{
    let v: u32 = c as u32;
    let w: u32 = l as u32;
    v == w || v + 32 == w
}

/// Whether `s`, ignoring ASCII case, contains "tool".
pub fn names_tool(s: &String) -> (r: bool)
    ensures
        r == mentions_tool(s@),
{
    let chars = crate::text::chars_of(s.as_str());
    let n = chars.len();
    if n < 4 {
        return false;
    }
    let mut i: usize = 0;
    while i <= n - 4
        invariant
            n >= 4,
            n == chars@.len(),
            chars@ == s@,
            forall|k: int|
                0 <= k < i && k + 4 <= n ==> !(#[trigger] same_letter(s@[k], 't') && same_letter(
                    s@[k + 1],
                    'o',
                ) && same_letter(s@[k + 2], 'o') && same_letter(s@[k + 3], 'l')),
        decreases n - i,
    {
        if letter_is(chars[i], 't') && letter_is(chars[i + 1], 'o') && letter_is(chars[i + 2], 'o')
            && letter_is(chars[i + 3], 'l') {
            return true;
        }
        i = i + 1;
    }
    false
}

/// The display name of a profession.
pub fn profession_label(k: ProfessionKind) -> (r: &'static str)
    ensures
        r@ == profession_name(k),
{
    match k {
        ProfessionKind::Farmer => "Farmer",
        ProfessionKind::Smith => "Smith",
        ProfessionKind::Carpenter => "Carpenter",
        ProfessionKind::Healer => "Healer",
        ProfessionKind::Scout => "Scout",
        ProfessionKind::Steward => "Steward",
    }
}

fn profession_slug_str(k: ProfessionKind) -> (r: &'static str)
    ensures
        r@ == profession_slug(k),
{
    match k {
        ProfessionKind::Farmer => "farmer",
        ProfessionKind::Smith => "smith",
        ProfessionKind::Carpenter => "carpenter",
        ProfessionKind::Healer => "healer",
        ProfessionKind::Scout => "scout",
        ProfessionKind::Steward => "steward",
    }
}

/// Checks the selectors of a profession command: a service-order identifier
/// and a capability identifier, each optional, bounded and free of control
/// characters. The capability selector is checked and not kept.
pub fn validate_profession_request(
    action: ProfessionAction,
    order_id: Option<&str>,
    profession: Option<ProfessionKind>,
    capability_id: Option<&str>,
    timing_score: Option<u8>,
) -> (r: Result<ProfessionRequest, RepositoryError>)
    ensures
        selector_refused(opt_text(order_id)) ==> (r matches Err(e) && e.spec_is(
            400,
            "invalid_order_id"@,
            "A service-order selector must be bounded and contain no control characters."@,
        )),
        !selector_refused(opt_text(order_id)) && selector_refused(opt_text(capability_id)) ==> (r matches Err(
            e,
        ) && e.spec_is(
            400,
            "invalid_capability_id"@,
            "A capability selector must be bounded and contain no control characters."@,
        )),
        !selector_refused(opt_text(order_id)) && !selector_refused(opt_text(capability_id)) ==> (r matches Ok(
            q,
        ) && q.action == action && selector_kept(opt_text(order_id), q.order_id) && q.profession
            == profession && q.timing_score == timing_score),
{
    let order_id = match validate_optional_identifier(
        order_id,
        "invalid_order_id",
        "A service-order selector must be bounded and contain no control characters.",
    ) {
        Ok(v) => v,
        Err(e) => return Err(e),
    };
    match validate_optional_identifier(
        capability_id,
        "invalid_capability_id",
        "A capability selector must be bounded and contain no control characters.",
    ) {
        Ok(_) => {},
        Err(e) => return Err(e),
    }
    Ok(ProfessionRequest { action, order_id, profession, timing_score })
}

/// The materials a player starts with.
pub fn default_materials() -> (m: MaterialStock)
    ensures
        m == (MaterialStock { wood: 3, iron: 2, cloth: 1, bandages: 1, tools: 1 }),
{
    MaterialStock { wood: 3, iron: 2, cloth: 1, bandages: 1, tools: 1 }
}

/// The profession a player starts with: a first-level farmer holding the
/// fieldhand credential and the farmer's first capability.
pub fn default_profiles() -> (ps: Vec<ProfessionProfile>)
    ensures
        ps@.len() == 1,
        ps@[0].profession == ProfessionKind::Farmer,
        ps@[0].level == 1,
        ps@[0].reputation == 0,
        ps@[0].credential matches Some(c) && c@ == "settlement-fieldhand credential"@,
        ps@[0].capabilities@.len() == 1,
        is_default_capability(ps@[0].capabilities@[0], ProfessionKind::Farmer),
{
    let mut capabilities: Vec<Capability> = Vec::new();
    capabilities.push(default_capability(ProfessionKind::Farmer));
    let mut ps: Vec<ProfessionProfile> = Vec::new();
    ps.push(
        ProfessionProfile {
            profession: ProfessionKind::Farmer,
            level: 1,
            reputation: 0,
            credential: Some(String::from_str("settlement-fieldhand credential")),
            capabilities,
        },
    );
    ps
}

/// The first capability a profession teaches.
pub fn default_capability(k: ProfessionKind) -> (c: Capability)
    ensures
        is_default_capability(c, k),
{
    let (id, name, description, effect) = match k {
        ProfessionKind::Farmer => (
            "field-tending",
            "Field tending",
            "Keeps a crop reliable without wasting seed.",
            "Adds one quality to a tended crop.",
        ),
        ProfessionKind::Smith => (
            "iron-fitting",
            "Iron fitting",
            "Turns a small iron stock into a dependable repair.",
            "Improves repair quality by one.",
        ),
        ProfessionKind::Carpenter => (
            "joinery",
            "Joinery",
            "Makes wood and tools serve a public repair order.",
            "Improves public-work reliability by one.",
        ),
        ProfessionKind::Healer => (
            "field-dressing",
            "Field dressing",
            "Limits an injury before it becomes a lasting burden.",
            "Reduces recovery cost by one.",
        ),
        ProfessionKind::Scout => (
            "road-reading",
            "Road reading",
            "Finds a safe route and records the clue for others.",
            "Improves route knowledge.",
        ),
        ProfessionKind::Steward => (
            "public-accounting",
            "Public accounting",
            "Keeps a proposal's cost and service legible.",
            "Adds one administration quality to a completed action.",
        ),
    };
    Capability {
        capability_id: id.to_owned(),
        name: name.to_owned(),
        profession: k,
        level: 1,
        description: description.to_owned(),
        effect: effect.to_owned(),
    }
}

/// Records a credential unless an equal one is already held.
pub fn remember_credential(credentials: &mut Vec<String>, credential: String)
    ensures
        views(final(credentials)@) == remember_spec(views(old(credentials)@), credential@),
{
    remember(credentials, credential);
}

/// Whether `profiles` holds a profile of profession `k`.
pub fn has_profession(profiles: &Vec<ProfessionProfile>, k: ProfessionKind) -> (r: bool)
    ensures
        r == has_profession_spec(profiles@, k),
{
    let n = profiles.len();
    for i in 0..n
        invariant
            n == profiles@.len(),
            forall|j: int| 0 <= j < i ==> (#[trigger] profiles@[j]).profession != k,
    {
        if profiles[i].profession == k {
            return true;
        }
    }
    false
}

/// The level of the first profile of profession `k`, or one.
pub fn profession_level(profiles: &Vec<ProfessionProfile>, k: ProfessionKind) -> (r: u8)
    ensures
        r == level_for(profiles@, k),
{
    let n = profiles.len();
    let mut i: usize = 0;
    assert(profiles@.skip(0) =~= profiles@);
    while i < n
        invariant
            n == profiles@.len(),
            i <= n,
            level_for(profiles@, k) == level_for(profiles@.skip(i as int), k),
        decreases n - i,
    {
        if profiles[i].profession == k {
            return profiles[i].level;
        }
        assert(profiles@.skip(i as int).drop_first() =~= profiles@.skip(i + 1));
        i = i + 1;
    }
    1
}

/// Whether `stock` covers every material of `required`.
pub fn has_materials(stock: MaterialStock, required: MaterialStock) -> (r: bool)
    ensures
        r == covers(stock, required),
{
    stock.wood >= required.wood && stock.iron >= required.iron && stock.cloth >= required.cloth
        && stock.bandages >= required.bandages && stock.tools >= required.tools
}

/// The quality of a completed order.
pub fn service_quality(timing: u8, level: u8) -> (r: u8)
    ensures
        r == order_quality(timing, level),
{
    let q: u32 = 50 + (timing as u32) / 2 + (level as u32) * 5;
    if q > 100 {
        100
    } else {
        q as u8
    }
}

fn copy_opt(s: &Option<String>) -> (r: Option<String>)
    ensures
        r == *s,
{
    match s {
        Some(s) => Some(s.clone()),
        None => None,
    }
}

pub fn copy_order(o: &ServiceOrder) -> (r: ServiceOrder)
    ensures
        r == *o,
{
    ServiceOrder {
        order_id: o.order_id.clone(),
        requester_account_id: o.requester_account_id.clone(),
        requester_name: o.requester_name.clone(),
        provider_account_id: copy_opt(&o.provider_account_id),
        provider_name: copy_opt(&o.provider_name),
        service: o.service.clone(),
        required_profession: o.required_profession,
        materials: o.materials,
        tools_required: o.tools_required,
        reward_gold: o.reward_gold,
        benefit: o.benefit.clone(),
        status: o.status,
        quality: o.quality,
        created_tick: o.created_tick,
        completed_tick: o.completed_tick,
    }
}

pub fn order_position(s: &Vec<ServiceOrder>, id: &String) -> (r: Option<usize>)
    ensures
        r is None <==> find_order(s@, id@) < 0,
        r matches Some(i) ==> i as int == find_order(s@, id@) && i < s@.len(),
{
    let n = s.len();
    let mut i: usize = 0;
    assert(s@.skip(0) =~= s@);
    while i < n
        invariant
            n == s@.len(),
            i <= n,
            find_order(s@, id@) == (if find_order(s@.skip(i as int), id@) < 0 {
                -1
            } else {
                find_order(s@.skip(i as int), id@) + i
            }),
        decreases n - i,
    {
        if s[i].order_id == *id {
            return Some(i);
        }
        assert(s@.skip(i as int).drop_first() =~= s@.skip(i + 1));
        i = i + 1;
    }
    None
}

/// Evicts settled orders beyond the board's limit.
pub fn trim_service_orders(orders: &mut Vec<ServiceOrder>)
    ensures
        final(orders)@ == trimmed_settled(old(orders)@, MAX_SERVICE_ORDERS as nat),
{
    crate::retention::trim_settled(orders, MAX_SERVICE_ORDERS);
}

/// Makes room for one more order; false when every kept order is live.
pub fn service_order_room(orders: &mut Vec<ServiceOrder>) -> (room: bool)
    ensures
        orders_with_room(old(orders)@) is Some ==> room && final(orders)@ == orders_with_room(
            old(orders)@,
        )->0,
        orders_with_room(old(orders)@) is None ==> !room && final(orders)@ == trimmed_settled(
            old(orders)@,
            MAX_SERVICE_ORDERS as nat,
        ),
{
    make_room(orders, MAX_SERVICE_ORDERS)
}

fn any_settled(orders: &Vec<ServiceOrder>) -> (r: bool)
    ensures
        r == exists|i: int| 0 <= i < orders@.len() && (#[trigger] orders@[i]).is_settled(),
{
    let n = orders.len();
    for i in 0..n
        invariant
            n == orders@.len(),
            forall|j: int| 0 <= j < i ==> !(#[trigger] orders@[j]).is_settled(),
    {
        if orders[i].settled() {
            return true;
        }
    }
    false
}

/// Returns an order's escrowed materials and tools to its requester.
pub fn restore_service_order_escrow(stock: &mut MaterialStock, order: &ServiceOrder)
    ensures
        final(stock).wood == sat_add_u32(old(stock).wood, order.materials.wood),
        final(stock).iron == sat_add_u32(old(stock).iron, order.materials.iron),
        final(stock).cloth == sat_add_u32(old(stock).cloth, order.materials.cloth),
        final(stock).bandages == sat_add_u32(old(stock).bandages, order.materials.bandages),
        final(stock).tools == sat_add_u32(
            sat_add_u32(old(stock).tools, order.materials.tools),
            order.tools_required,
        ),
{
    stock.wood = stock.wood.saturating_add(order.materials.wood);
    stock.iron = stock.iron.saturating_add(order.materials.iron);
    stock.cloth = stock.cloth.saturating_add(order.materials.cloth);
    stock.bandages = stock.bandages.saturating_add(order.materials.bandages);
    stock.tools = stock.tools.saturating_add(order.materials.tools).saturating_add(
        order.tools_required,
    );
}

// ---------------------------------------------------------------- commands

pub open spec fn learn_post(
    p: Practitioner,
    p2: Practitioner,
    b: ServiceBoard,
    b2: ServiceBoard,
    req: ProfessionRequest,
    r: ProfessionResponse,
) -> bool {
    let k = match req.profession {
        Some(k) => k,
        None => ProfessionKind::Carpenter,
    };
    if has_profession_spec(p.profiles@, k) {
        turned_down(r, "That professional capability is already recorded."@) && p2 == p && b2 == b
    } else {
        &&& r.accepted && r.reason is None && r.order is None && r.restores_field_tool_of is None
        &&& r.note == Some(ProfessionNote::CapabilityLearned(k))
        &&& b2 == b
        &&& p2 == Practitioner { profiles: p2.profiles, credentials: p2.credentials, ..p }
        &&& p2.profiles@.len() == p.profiles@.len() + 1
        &&& p2.profiles@.drop_last() == p.profiles@
        &&& {
            let q = p2.profiles@.last();
            &&& q.profession == k && q.level == 1 && q.reputation == 0
            &&& q.credential matches Some(c) && c@ == "settlement-credential-"@ + profession_slug(k)
            &&& q.capabilities@.len() == 1
            &&& is_default_capability(q.capabilities@[0], k)
        }
        &&& views(p2.credentials@) == remember_spec(
            views(p.credentials@),
            profession_name(k) + " apprentice credential"@,
        )
    }
}

/// The order a creation posts.
pub open spec fn is_new_order(
    o: ServiceOrder,
    p: Practitioner,
    b: ServiceBoard,
    recipe: ServiceRecipe,
    tick: u64,
) -> bool {
    &&& o.order_id@ == "service-order-"@ + decimal(b.next_order_id as nat)
    &&& o.requester_account_id == p.account_id
    &&& o.requester_name == p.display_name
    &&& o.provider_account_id is None && o.provider_name is None
    &&& o.service == recipe.service
    &&& o.required_profession == recipe.profession
    &&& o.materials == recipe.materials
    &&& o.tools_required == recipe.tools_required
    &&& o.reward_gold == recipe.reward_gold
    &&& o.benefit == recipe.benefit
    &&& o.status == ServiceOrderStatus::Open
    &&& o.quality == 0
    &&& o.created_tick == tick
    &&& o.completed_tick is None
}

pub open spec fn board_full_text() -> Seq<char> {
    "The service order board is full; complete an existing order before adding another."@
}

pub open spec fn create_post(
    p: Practitioner,
    p2: Practitioner,
    b: ServiceBoard,
    b2: ServiceBoard,
    recipe: ServiceRecipe,
    tick: u64,
    req: ProfessionRequest,
    r: ProfessionResponse,
) -> bool {
    let k = match req.profession {
        Some(k) => k,
        None => recipe.profession,
    };
    if k != recipe.profession {
        turned_down(
            r,
            "The current service order recipe requires the "@ + profession_name(recipe.profession)
                + " profession."@,
        ) && p2 == p && b2 == b
    } else if !board_has_room(b.orders@) {
        turned_down(r, board_full_text()) && p2 == p && b2 == b
    } else if !covers(p.materials, recipe.materials) || p.materials.tools < recipe.tools_required {
        turned_down(r, "This order shows its wood, iron, and tool requirements before creation."@)
            && p2 == p && b2 == b
    } else {
        match orders_with_room(b.orders@) {
            None => {
                &&& turned_down(r, board_full_text())
                &&& p2 == p
                &&& b2.next_order_id == b.next_order_id
                &&& b2.orders@ == trimmed_settled(b.orders@, MAX_SERVICE_ORDERS as nat)
            },
            Some(room) => {
                &&& r.accepted && r.reason is None && r.restores_field_tool_of is None
                &&& r.note == Some(ProfessionNote::OrderCreated)
                &&& r.order matches Some(o) && is_new_order(o, p, b, recipe, tick) && b2.orders@
                    == room.push(o)
                &&& b2.next_order_id == sat_add_u64(b.next_order_id, 1)
                &&& p2 == Practitioner {
                    materials: MaterialStock {
                        wood: (p.materials.wood - recipe.materials.wood) as u32,
                        iron: (p.materials.iron - recipe.materials.iron) as u32,
                        cloth: (p.materials.cloth - recipe.materials.cloth) as u32,
                        bandages: (p.materials.bandages - recipe.materials.bandages) as u32,
                        tools: (p.materials.tools - recipe.tools_required) as u32,
                    },
                    ..p
                }
            },
        }
    }
}

pub open spec fn accept_post(
    p: Practitioner,
    p2: Practitioner,
    b: ServiceBoard,
    b2: ServiceBoard,
    req: ProfessionRequest,
    r: ProfessionResponse,
) -> bool {
    match req.order_id {
        None => turned_down(r, "Choose the service order to accept."@) && p2 == p && b2 == b,
        Some(id) => {
            let i = find_order(b.orders@, id@);
            if i < 0 {
                turned_down(r, "That service order is not on the board."@) && p2 == p && b2 == b
            } else {
                let o = b.orders@[i];
                if o.status != ServiceOrderStatus::Open {
                    turned_down(r, "Only an open order can be accepted."@) && p2 == p && b2 == b
                } else if o.requester_account_id@ == p.account_id@ {
                    turned_down(r, "A service order must be answered by another role."@) && p2 == p
                        && b2 == b
                } else if !has_profession_spec(p.profiles@, o.required_profession) {
                    turned_down(
                        r,
                        "Learn or earn the displayed professional credential before accepting this order."@,
                    ) && p2 == p && b2 == b
                } else {
                    let o2 = ServiceOrder {
                        status: ServiceOrderStatus::Accepted,
                        provider_account_id: Some(p.account_id),
                        provider_name: Some(p.display_name),
                        ..o
                    };
                    &&& r.accepted && r.reason is None && r.restores_field_tool_of is None
                    &&& r.note == Some(ProfessionNote::OrderAccepted)
                    &&& r.order == Some(o2)
                    &&& p2 == p
                    &&& b2 == ServiceBoard { orders: b2.orders, ..b }
                    &&& b2.orders@ == b.orders@.update(i, o2)
                }
            }
        },
    }
}

pub open spec fn complete_post(
    p: Practitioner,
    p2: Practitioner,
    b: ServiceBoard,
    b2: ServiceBoard,
    tick: u64,
    req: ProfessionRequest,
    r: ProfessionResponse,
) -> bool {
    match req.order_id {
        None => turned_down(r, "Choose the accepted service order to complete."@) && p2 == p && b2
            == b,
        Some(id) => {
            let i = find_order(b.orders@, id@);
            if i < 0 {
                turned_down(r, "That service order is not on the board."@) && p2 == p && b2 == b
            } else if req.timing_score matches Some(t) && t > 100 {
                turned_down(r, "Timing quality must be a visible score from 0 to 100."@) && p2 == p
                    && b2 == b
            } else {
                let o = b.orders@[i];
                if o.status != ServiceOrderStatus::Accepted || !(o.provider_account_id matches Some(
                    a,
                ) && a@ == p.account_id@) {
                    turned_down(r, "Only the named provider may complete an accepted order."@) && p2
                        == p && b2 == b
                } else {
                    let timing = match req.timing_score {
                        Some(t) => t,
                        None => 50,
                    };
                    let o2 = ServiceOrder {
                        status: ServiceOrderStatus::Completed,
                        quality: order_quality(timing, level_for(p.profiles@, o.required_profession)),
                        completed_tick: Some(tick),
                        ..o
                    };
                    &&& r.accepted && r.reason is None
                    &&& r.note == Some(ProfessionNote::OrderCompleted)
                    &&& r.order == Some(o2)
                    &&& r.restores_field_tool_of == (if mentions_tool(o.service@) {
                        Some(o.requester_account_id)
                    } else {
                        None
                    })
                    &&& b2 == ServiceBoard { orders: b2.orders, ..b }
                    &&& b2.orders@ == b.orders@.update(i, o2)
                    &&& p2 == Practitioner {
                        gold: sat_add_u32(p.gold, o.reward_gold),
                        skill: sat_add_u32(p.skill, 1),
                        credentials: p2.credentials,
                        ..p
                    }
                    &&& views(p2.credentials@) == remember_spec(
                        views(p.credentials@),
                        "completed "@ + o.service@,
                    )
                }
            }
        },
    }
}

/// The outcome of any profession command.
pub open spec fn profession_post(
    p: Practitioner,
    p2: Practitioner,
    b: ServiceBoard,
    b2: ServiceBoard,
    recipe: ServiceRecipe,
    tick: u64,
    req: ProfessionRequest,
    r: ProfessionResponse,
) -> bool {
    match req.action {
        ProfessionAction::Inspect => r.accepted && r.reason is None && r.order is None && r.note
            is None && r.restores_field_tool_of is None && p2 == p && b2 == b,
        ProfessionAction::LearnCapability => learn_post(p, p2, b, b2, req, r),
        ProfessionAction::CreateOrder => create_post(p, p2, b, b2, recipe, tick, req, r),
        ProfessionAction::AcceptOrder => accept_post(p, p2, b, b2, req, r),
        ProfessionAction::CompleteOrder => complete_post(p, p2, b, b2, tick, req, r),
    }
}

fn turn_down(text: &str) -> (r: ProfessionResponse)
    ensures
        turned_down(r, text@),
{
    ProfessionResponse {
        accepted: false,
        order: None,
        reason: Some(text.to_owned()),
        note: None,
        restores_field_tool_of: None,
    }
}

fn learn(p: &mut Practitioner, board: &ServiceBoard, req: &ProfessionRequest) -> (r:
    ProfessionResponse)
    ensures
        learn_post(*old(p), *final(p), *board, *board, *req, r),
{
    let k = match req.profession {
        Some(k) => k,
        None => ProfessionKind::Carpenter,
    };
    if has_profession(&p.profiles, k) {
        return turn_down("That professional capability is already recorded.");
    }
    let mut capabilities: Vec<Capability> = Vec::new();
    capabilities.push(default_capability(k));
    let profile = ProfessionProfile {
        profession: k,
        level: 1,
        reputation: 0,
        credential: Some(String::from_str("settlement-credential-").concat(profession_slug_str(k))),
        capabilities,
    };
    let ghost before = p.profiles@;
    p.profiles.push(profile);
    assert(p.profiles@.drop_last() =~= before);
    let credential = String::from_str(profession_label(k)).concat(" apprentice credential");
    remember_credential(&mut p.credentials, credential);
    ProfessionResponse {
        accepted: true,
        order: None,
        reason: None,
        note: Some(ProfessionNote::CapabilityLearned(k)),
        restores_field_tool_of: None,
    }
}

fn create_order(
    p: &mut Practitioner,
    board: &mut ServiceBoard,
    recipe: &ServiceRecipe,
    tick: u64,
    req: &ProfessionRequest,
) -> (r: ProfessionResponse)
    ensures
        create_post(*old(p), *final(p), *old(board), *final(board), *recipe, tick, *req, r),
{
    let k = match req.profession {
        Some(k) => k,
        None => recipe.profession,
    };
    if k != recipe.profession {
        let text = String::from_str("The current service order recipe requires the ").concat(
            profession_label(recipe.profession),
        ).concat(" profession.");
        return ProfessionResponse {
            accepted: false,
            order: None,
            reason: Some(text),
            note: None,
            restores_field_tool_of: None,
        };
    }
    if !(board.orders.len() < MAX_SERVICE_ORDERS || any_settled(&board.orders)) {
        return turn_down(
            "The service order board is full; complete an existing order before adding another.",
        );
    }
    if !has_materials(p.materials, recipe.materials) || p.materials.tools < recipe.tools_required {
        return turn_down("This order shows its wood, iron, and tool requirements before creation.");
    }
    if !service_order_room(&mut board.orders) {
        return turn_down(
            "The service order board is full; complete an existing order before adding another.",
        );
    }
    p.materials = MaterialStock {
        wood: p.materials.wood - recipe.materials.wood,
        iron: p.materials.iron - recipe.materials.iron,
        cloth: p.materials.cloth - recipe.materials.cloth,
        bandages: p.materials.bandages - recipe.materials.bandages,
        tools: p.materials.tools - recipe.tools_required,
    };
    let order = ServiceOrder {
        order_id: numbered("service-order-", board.next_order_id),
        requester_account_id: p.account_id.clone(),
        requester_name: p.display_name.clone(),
        provider_account_id: None,
        provider_name: None,
        service: recipe.service.clone(),
        required_profession: recipe.profession,
        materials: recipe.materials,
        tools_required: recipe.tools_required,
        reward_gold: recipe.reward_gold,
        benefit: recipe.benefit.clone(),
        status: ServiceOrderStatus::Open,
        quality: 0,
        created_tick: tick,
        completed_tick: None,
    };
    board.next_order_id = board.next_order_id.saturating_add(1);
    let snapshot = copy_order(&order);
    board.orders.push(order);
    ProfessionResponse {
        accepted: true,
        order: Some(snapshot),
        reason: None,
        note: Some(ProfessionNote::OrderCreated),
        restores_field_tool_of: None,
    }
}

fn accept_order(p: &Practitioner, board: &mut ServiceBoard, req: &ProfessionRequest) -> (r:
    ProfessionResponse)
    ensures
        accept_post(*p, *p, *old(board), *final(board), *req, r),
{
    let Some(id) = &req.order_id else {
        return turn_down("Choose the service order to accept.");
    };
    let Some(i) = order_position(&board.orders, id) else {
        return turn_down("That service order is not on the board.");
    };
    let mut order = copy_order(&board.orders[i]);
    if order.status != ServiceOrderStatus::Open {
        return turn_down("Only an open order can be accepted.");
    }
    if order.requester_account_id == p.account_id {
        return turn_down("A service order must be answered by another role.");
    }
    if !has_profession(&p.profiles, order.required_profession) {
        return turn_down(
            "Learn or earn the displayed professional credential before accepting this order.",
        );
    }
    order.status = ServiceOrderStatus::Accepted;
    order.provider_account_id = Some(p.account_id.clone());
    order.provider_name = Some(p.display_name.clone());
    let snapshot = copy_order(&order);
    board.orders.set(i, order);
    ProfessionResponse {
        accepted: true,
        order: Some(snapshot),
        reason: None,
        note: Some(ProfessionNote::OrderAccepted),
        restores_field_tool_of: None,
    }
}

fn complete_order(
    p: &mut Practitioner,
    board: &mut ServiceBoard,
    tick: u64,
    req: &ProfessionRequest,
) -> (r: ProfessionResponse)
    ensures
        complete_post(*old(p), *final(p), *old(board), *final(board), tick, *req, r),
{
    let Some(id) = &req.order_id else {
        return turn_down("Choose the accepted service order to complete.");
    };
    let Some(i) = order_position(&board.orders, id) else {
        return turn_down("That service order is not on the board.");
    };
    if let Some(t) = req.timing_score {
        if t > 100 {
            return turn_down("Timing quality must be a visible score from 0 to 100.");
        }
    }
    let mut order = copy_order(&board.orders[i]);
    let provider_ok = match &order.provider_account_id {
        Some(a) => *a == p.account_id,
        None => false,
    };
    if order.status != ServiceOrderStatus::Accepted || !provider_ok {
        return turn_down("Only the named provider may complete an accepted order.");
    }
    let timing = match req.timing_score {
        Some(t) => t,
        None => 50,
    };
    let level = profession_level(&p.profiles, order.required_profession);
    order.status = ServiceOrderStatus::Completed;
    order.quality = service_quality(timing, level);
    order.completed_tick = Some(tick);
    let restores = if names_tool(&order.service) {
        Some(order.requester_account_id.clone())
    } else {
        None
    };
    p.gold = p.gold.saturating_add(order.reward_gold);
    p.skill = p.skill.saturating_add(1);
    let credential = String::from_str("completed ").concat(order.service.as_str());
    remember_credential(&mut p.credentials, credential);
    let snapshot = copy_order(&order);
    board.orders.set(i, order);
    ProfessionResponse {
        accepted: true,
        order: Some(snapshot),
        reason: None,
        note: Some(ProfessionNote::OrderCompleted),
        restores_field_tool_of: restores,
    }
}

/// Applies one profession command of practitioner `p` to the board.
pub fn profession_order(
    p: &mut Practitioner,
    board: &mut ServiceBoard,
    recipe: &ServiceRecipe,
    tick: u64,
    req: &ProfessionRequest,
) -> (r: ProfessionResponse)
    ensures
        profession_post(*old(p), *final(p), *old(board), *final(board), *recipe, tick, *req, r),
{
    match req.action {
        ProfessionAction::Inspect => ProfessionResponse {
            accepted: true,
            order: None,
            reason: None,
            note: None,
            restores_field_tool_of: None,
        },
        ProfessionAction::LearnCapability => learn(p, board, req),
        ProfessionAction::CreateOrder => create_order(p, board, recipe, tick, req),
        ProfessionAction::AcceptOrder => accept_order(p, board, req),
        ProfessionAction::CompleteOrder => complete_order(p, board, tick, req),
    }
}

// ---------------------------------------------------------------- laws

/// Repeating the same professional work keeps exactly one matching
/// credential.
pub proof fn lemma_repeated_work_keeps_one_credential(creds: Seq<Seq<char>>, c: Seq<char>)
    requires
        crate::ledger::distinct(creds),
    ensures
        remember_spec(remember_spec(creds, c), c) == remember_spec(creds, c),
        crate::ledger::distinct(remember_spec(creds, c)),
        remember_spec(creds, c).contains(c),
{
    crate::ledger::lemma_remember_idempotent(creds, c);
    crate::ledger::lemma_remember_keeps_distinct(creds, c);
}

/// The board never holds more than its limit of orders, and every order's
/// quality stays at or under the ceiling of one hundred.
pub proof fn lemma_service_board_bounded(
    p: Practitioner,
    p2: Practitioner,
    b: ServiceBoard,
    b2: ServiceBoard,
    recipe: ServiceRecipe,
    tick: u64,
    req: ProfessionRequest,
    r: ProfessionResponse,
)
    requires
        b.orders@.len() <= MAX_SERVICE_ORDERS,
        forall|i: int| 0 <= i < b.orders@.len() ==> (#[trigger] b.orders@[i]).quality <= 100,
        profession_post(p, p2, b, b2, recipe, tick, req, r),
    ensures
        b2.orders@.len() <= MAX_SERVICE_ORDERS,
        forall|i: int| 0 <= i < b2.orders@.len() ==> (#[trigger] b2.orders@[i]).quality <= 100,
{
    let t = trimmed_settled(b.orders@, MAX_SERVICE_ORDERS as nat);
    crate::retention::lemma_trimmed_settled(b.orders@, MAX_SERVICE_ORDERS as nat);
    crate::retention::lemma_first_settled(t);
    crate::retention::lemma_trimmed_settled_subset(b.orders@, MAX_SERVICE_ORDERS as nat);
    assert forall|i: int| 0 <= i < t.len() implies (#[trigger] t[i]).quality <= 100 by {
        let j = choose|j: int| 0 <= j < b.orders@.len() && b.orders@[j] == t[i];
        assert(b.orders@[j].quality <= 100);
    }
    match req.action {
        ProfessionAction::CreateOrder => {
            if orders_with_room(b.orders@) is Some && r.accepted {
                let room = orders_with_room(b.orders@)->0;
                if t.len() < MAX_SERVICE_ORDERS {
                    assert(room == t);
                } else {
                    let k = first_settled(t) as int;
                    assert(room == t.remove(k));
                    assert(room.len() < MAX_SERVICE_ORDERS);
                    assert forall|i: int| 0 <= i < room.len() implies (#[trigger] room[i]).quality
                        <= 100 by {
                        if i < k {
                            assert(room[i] == t[i]);
                        } else {
                            assert(room[i] == t[i + 1]);
                        }
                    }
                }
                let o = r.order->0;
                assert(b2.orders@ == room.push(o));
                assert forall|i: int| 0 <= i < b2.orders@.len() implies (
                #[trigger] b2.orders@[i]).quality <= 100 by {
                    if i < room.len() {
                        assert(b2.orders@[i] == room[i]);
                    }
                }
            }
        },
        ProfessionAction::AcceptOrder | ProfessionAction::CompleteOrder => {
            if r.accepted {
                let i = find_order(b.orders@, req.order_id->0@);
                lemma_find_order_bounds(b.orders@, req.order_id->0@);
                assert forall|j: int| 0 <= j < b2.orders@.len() implies (
                #[trigger] b2.orders@[j]).quality <= 100 by {
                    if j != i {
                        assert(b2.orders@[j] == b.orders@[j]);
                    }
                }
            }
        },
        _ => {},
    }
}

/// Only the named provider completes an order, and no one answers their own.
pub proof fn lemma_order_roles(
    p: Practitioner,
    p2: Practitioner,
    b: ServiceBoard,
    b2: ServiceBoard,
    recipe: ServiceRecipe,
    tick: u64,
    req: ProfessionRequest,
    r: ProfessionResponse,
)
    requires
        profession_post(p, p2, b, b2, recipe, tick, req, r),
        r.accepted,
    ensures
        req.action == ProfessionAction::AcceptOrder ==> ({
            let o = b.orders@[find_order(b.orders@, req.order_id->0@)];
            &&& o.requester_account_id@ != p.account_id@
            &&& has_profession_spec(p.profiles@, o.required_profession)
        }),
        req.action == ProfessionAction::CompleteOrder ==> ({
            let o = b.orders@[find_order(b.orders@, req.order_id->0@)];
            o.provider_account_id matches Some(a) && a@ == p.account_id@
        }),
{
}

/// An order's escrow returns exactly what its creation took, when the
/// recipe escrows no tools beyond those it requires.
pub proof fn lemma_escrow_round_trip(stock: MaterialStock, o: ServiceOrder, back: MaterialStock)
    requires
        o.materials.tools == 0,
        covers(stock, o.materials),
        stock.tools >= o.tools_required,
        back.wood == sat_add_u32((stock.wood - o.materials.wood) as u32, o.materials.wood),
        back.iron == sat_add_u32((stock.iron - o.materials.iron) as u32, o.materials.iron),
        back.cloth == sat_add_u32((stock.cloth - o.materials.cloth) as u32, o.materials.cloth),
        back.bandages == sat_add_u32(
            (stock.bandages - o.materials.bandages) as u32,
            o.materials.bandages,
        ),
        back.tools == sat_add_u32(
            sat_add_u32((stock.tools - o.tools_required) as u32, o.materials.tools),
            o.tools_required,
        ),
    ensures
        back == stock,
{
}

/// The chronicle entry an accepted profession command by `actor_name`
/// writes; a completed order names its service and quality.
pub fn profession_entry(note: ProfessionNote, actor_name: &str, service: &str, quality: u8) -> (t:
    crate::chronicle::EntryText)
    ensures
        match note {
            ProfessionNote::CapabilityLearned(k) => crate::chronicle::reads(
                t,
                "capability learned"@,
                "A craft is written into a player's hands"@,
                actor_name@ + " learned the "@ + profession_name(k)
                    + " capability; a new character can now enter that order."@,
            ),
            ProfessionNote::OrderCreated => crate::chronicle::reads(
                t,
                "service order created"@,
                "A need becomes work another profession can answer"@,
                "A player escrowed materials and posted a repair order on the settlement board."@,
            ),
            ProfessionNote::OrderAccepted => crate::chronicle::reads(
                t,
                "service order accepted"@,
                "A second profession answers the settlement's need"@,
                "A credentialed player took responsibility for an escrowed service order."@,
            ),
            ProfessionNote::OrderCompleted => crate::chronicle::reads(
                t,
                "service order completed"@,
                "Craft and demand meet at the Hearth"@,
                actor_name@ + " completed "@ + service@ + " at "@ + decimal(quality as nat)
                    + " quality; the requesting role receives the listed benefit."@,
            ),
        },
{
    match note {
        ProfessionNote::CapabilityLearned(k) => crate::chronicle::EntryText {
            kind: String::from_str("capability learned"),
            title: String::from_str("A craft is written into a player's hands"),
            text: actor_name.to_owned().concat(" learned the ").concat(profession_label(k)).concat(
                " capability; a new character can now enter that order.",
            ),
        },
        ProfessionNote::OrderCreated => crate::chronicle::entry_text(
            "service order created",
            "A need becomes work another profession can answer",
            "A player escrowed materials and posted a repair order on the settlement board.",
        ),
        ProfessionNote::OrderAccepted => crate::chronicle::entry_text(
            "service order accepted",
            "A second profession answers the settlement's need",
            "A credentialed player took responsibility for an escrowed service order.",
        ),
        ProfessionNote::OrderCompleted => {
            let q = numbered("", quality as u64);
            proof {
                reveal_strlit("");
                assert(q@ =~= decimal(quality as nat));
            }
            crate::chronicle::EntryText {
                kind: String::from_str("service order completed"),
                title: String::from_str("Craft and demand meet at the Hearth"),
                text: actor_name.to_owned().concat(" completed ").concat(service).concat(" at ").concat(
                    q.as_str(),
                ).concat(" quality; the requesting role receives the listed benefit."),
            }
        },
    }
}

/// A completed order's quality is fifty, plus half the timing score (fifty
/// when none is given), plus five for each level the provider holds in the
/// order's profession, capped at one hundred.
pub proof fn lemma_completed_quality(
    p: Practitioner,
    p2: Practitioner,
    b: ServiceBoard,
    b2: ServiceBoard,
    recipe: ServiceRecipe,
    tick: u64,
    req: ProfessionRequest,
    r: ProfessionResponse,
)
    requires
        profession_post(p, p2, b, b2, recipe, tick, req, r),
        req.action == ProfessionAction::CompleteOrder,
        r.accepted,
    ensures
        r.order is Some,
        r.order->0.status == ServiceOrderStatus::Completed,
        ({
            let timing: int = match req.timing_score {
                Some(t) => t as int,
                None => 50,
            };
            let level: int = level_for(p.profiles@, r.order->0.required_profession) as int;
            let q: int = 50 + timing / 2 + 5 * level;
            r.order->0.quality == (if q > 100 { 100 } else { q })
        }),
{
}

} // verus!
