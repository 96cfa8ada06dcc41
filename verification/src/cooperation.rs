//! Durable work attribution for the First Beacon cooperation goal: a miner
//! and a logger who trade their fresh ore and timber open a cooperative
//! attempt at the iron field tool, and finishing it in fewer work actions
//! than one player alone needs is recorded as the settlement's result.
use crate::forge::{ForgeAction, ForgeMaterialKind, MaterialAmount};
use crate::gathering::{GatherAction, ResourceAmount};
use crate::storehouse::ResourceKind;
use vstd::prelude::*;
use vstd::string::*;

verus! {

/// The most work credits the cooperation ledger keeps.
pub const MAX_RECENT_WORK: usize = 64;

/// The most cooperative attempts under way at once.
pub const MAX_ACTIVE_ATTEMPTS: usize = 8;

#[derive(Debug, Clone, Copy, PartialEq, Eq, Structural)]
pub enum WorkKind {
    Log,
    Mine,
    BurnCharcoal,
    ShapeHandle,
    ForgeFieldTool,
}

#[derive(Debug, Clone)]
pub struct WorkCredit {
    pub account_id: String,
    pub kind: WorkKind,
    pub materials: Vec<MaterialAmount>,
    pub tick: u64,
}

#[derive(Debug, Clone)]
pub struct CooperationContribution {
    pub account_id: String,
    pub materials: Vec<MaterialAmount>,
    pub work_actions: u32,
}

#[derive(Debug, Clone)]
pub struct CooperationAttempt {
    pub coordinator_account_id: String,
    pub participant_account_ids: Vec<String>,
    pub contributions: Vec<CooperationContribution>,
    pub trade_id: String,
    pub work_actions: u32,
    pub started_tick: u64,
}

#[derive(Debug, Clone)]
pub struct CooperationResult {
    pub coordinator_account_id: String,
    pub participant_account_ids: Vec<String>,
    pub contributions: Vec<CooperationContribution>,
    pub trade_id: String,
    pub work_actions: u32,
    pub saved_work_actions: u32,
    pub completed_tick: u64,
}

/// The fixed goal: the inputs the tool needs and the work actions a
/// player alone spends on it.
#[derive(Debug, Clone)]
pub struct CooperationGoal {
    pub required_inputs: Vec<MaterialAmount>,
    pub solo_work_actions: u32,
}

#[derive(Debug, Clone)]
pub struct Cooperation {
    pub goal: CooperationGoal,
    pub recent_work: Vec<WorkCredit>,
    pub active_attempts: Vec<CooperationAttempt>,
    pub latest_result: Option<CooperationResult>,
}

/// What of a completed barter cooperation reads.
#[derive(Debug, Clone)]
pub struct TradeFacts {
    pub trade_id: String,
    pub creator_account_id: String,
    pub recipient_account_id: String,
    pub offered_iron_ore: u32,
}

// ---------------------------------------------------------------- specs

pub open spec fn sat_add_u32(a: u32, b: u32) -> u32 {
    if a + b > u32::MAX { u32::MAX } else { (a + b) as u32 }
}

/// The amount of `k` the goal needs, or 0.
pub open spec fn required_for(inputs: Seq<MaterialAmount>, k: ForgeMaterialKind) -> u32
    decreases inputs.len(),
{
    if inputs.len() == 0 {
        0
    } else if inputs[0].kind == k {
        inputs[0].amount
    } else {
        required_for(inputs.drop_first(), k)
    }
}

/// The forge materials among gathered yields: timber and iron ore, in
/// order; stone is not a forge material.
pub open spec fn forge_materials(ys: Seq<ResourceAmount>) -> Seq<MaterialAmount>
    decreases ys.len(),
{
    if ys.len() == 0 {
        Seq::empty()
    } else {
        let rest = forge_materials(ys.drop_last());
        let y = ys.last();
        match y.kind {
            ResourceKind::Timber => rest.push(MaterialAmount { kind: ForgeMaterialKind::Timber, amount: y.amount }),
            ResourceKind::IronOre => rest.push(MaterialAmount { kind: ForgeMaterialKind::IronOre, amount: y.amount }),
            ResourceKind::Stone => rest,
        }
    }
}

/// A ledger after a new credit: the oldest credit leaves when the ledger
/// grows past its bound.
pub open spec fn bounded_push<T>(s: Seq<T>, x: T, max: nat) -> Seq<T> {
    let t = s.push(x);
    if t.len() > max { t.subrange(1, t.len() as int) } else { t }
}

pub open spec fn carries(ms: Seq<MaterialAmount>, k: ForgeMaterialKind, amount: u32) -> bool {
    exists|i: int| 0 <= i < ms.len() && (#[trigger] ms[i]).kind == k && ms[i].amount >= amount
}

pub open spec fn credit_matches(
    c: WorkCredit,
    account: Seq<char>,
    kind: WorkKind,
    mk: ForgeMaterialKind,
    amount: u32,
    after: u64,
) -> bool {
    c.account_id@ == account && c.kind == kind && c.tick >= after && carries(c.materials@, mk, amount)
}

/// The index of the latest credit that matches, or `-1`.
pub open spec fn latest_match(
    s: Seq<WorkCredit>,
    account: Seq<char>,
    kind: WorkKind,
    mk: ForgeMaterialKind,
    amount: u32,
    after: u64,
) -> int
    decreases s.len(),
{
    if s.len() == 0 {
        -1
    } else if credit_matches(s.last(), account, kind, mk, amount, after) {
        s.len() - 1
    } else {
        latest_match(s.drop_last(), account, kind, mk, amount, after)
    }
}

/// The beat after which work counts toward a new attempt: the last
/// result's completion, or 0.
pub open spec fn after_tick(c: Cooperation) -> u64 {
    match c.latest_result {
        Some(r) => r.completed_tick,
        None => 0,
    }
}

/// The tick of the latest fresh credit of `kind` by `account` carrying at
/// least `amount` of `mk`.
pub open spec fn recent_tick(c: Cooperation, account: Seq<char>, kind: WorkKind, mk: ForgeMaterialKind, amount: u32) -> Option<u64> {
    let i = latest_match(c.recent_work@, account, kind, mk, amount, after_tick(c));
    if i < 0 { None } else { Some(c.recent_work@[i].tick) }
}

/// The credits a barter consumes: the creator's mining and the
/// recipient's logging.
pub open spec fn consumed(c: WorkCredit, creator: Seq<char>, recipient: Seq<char>) -> bool {
    (c.account_id@ == creator && c.kind == WorkKind::Mine) || (c.account_id@ == recipient && c.kind
        == WorkKind::Log)
}

pub open spec fn kept_work(s: Seq<WorkCredit>, creator: Seq<char>, recipient: Seq<char>) -> Seq<WorkCredit>
    decreases s.len(),
{
    if s.len() == 0 {
        Seq::empty()
    } else {
        let rest = kept_work(s.drop_last(), creator, recipient);
        if consumed(s.last(), creator, recipient) { rest } else { rest.push(s.last()) }
    }
}

pub open spec fn other_attempts(s: Seq<CooperationAttempt>, coordinator: Seq<char>) -> Seq<CooperationAttempt>
    decreases s.len(),
{
    if s.len() == 0 {
        Seq::empty()
    } else {
        let rest = other_attempts(s.drop_last(), coordinator);
        if s.last().coordinator_account_id@ == coordinator { rest } else { rest.push(s.last()) }
    }
}

/// Whether a barter qualifies as the goal's cooperation, and the ticks of
/// the mining and logging it draws on.
pub open spec fn qualifying(c: Cooperation, t: TradeFacts, coordinator_timber: Option<u32>) -> Option<(u64, u64)> {
    let ore = required_for(c.goal.required_inputs@, ForgeMaterialKind::IronOre);
    let timber = required_for(c.goal.required_inputs@, ForgeMaterialKind::Timber);
    if t.offered_iron_ore < ore || ore == 0 || timber == 0 {
        None
    } else if !(coordinator_timber matches Some(held) && held >= timber) {
        None
    } else {
        match (
            recent_tick(c, t.creator_account_id@, WorkKind::Mine, ForgeMaterialKind::IronOre, ore),
            recent_tick(c, t.recipient_account_id@, WorkKind::Log, ForgeMaterialKind::Timber, timber),
        ) {
            (Some(m), Some(l)) => Some((m, l)),
            _ => None,
        }
    }
}

/// The attempt a qualifying barter opens.
pub open spec fn opened_attempt(a: CooperationAttempt, c: Cooperation, t: TradeFacts, started: u64) -> bool {
    let ore = required_for(c.goal.required_inputs@, ForgeMaterialKind::IronOre);
    let timber = required_for(c.goal.required_inputs@, ForgeMaterialKind::Timber);
    &&& a.coordinator_account_id@ == t.recipient_account_id@
    &&& a.participant_account_ids@.len() == 2
    &&& a.participant_account_ids@[0]@ == t.recipient_account_id@
    &&& a.participant_account_ids@[1]@ == t.creator_account_id@
    &&& a.contributions@.len() == 2
    &&& a.contributions@[0].account_id@ == t.recipient_account_id@
    &&& a.contributions@[0].materials@ == seq![MaterialAmount { kind: ForgeMaterialKind::Timber, amount: timber }]
    &&& a.contributions@[0].work_actions == 1
    &&& a.contributions@[1].account_id@ == t.creator_account_id@
    &&& a.contributions@[1].materials@ == seq![MaterialAmount { kind: ForgeMaterialKind::IronOre, amount: ore }]
    &&& a.contributions@[1].work_actions == 1
    &&& a.trade_id@ == t.trade_id@
    &&& a.work_actions == 2
    &&& a.started_tick == started
}

pub open spec fn max3(a: u64, b: u64, c: u64) -> u64 {
    let m = if a >= b { a } else { b };
    if m >= c { m } else { c }
}

/// The cooperation record after a barter.
pub open spec fn trade_recorded(
    c: Cooperation,
    c2: Cooperation,
    t: TradeFacts,
    coordinator_timber: Option<u32>,
    tick: u64,
) -> bool {
    match qualifying(c, t, coordinator_timber) {
        None => c2 == c,
        Some((m, l)) => {
            let kept = other_attempts(c.active_attempts@, t.recipient_account_id@);
            let a = c2.active_attempts@.last();
            &&& c2 == Cooperation { recent_work: c2.recent_work, active_attempts: c2.active_attempts, ..c }
            &&& c2.recent_work@ == kept_work(c.recent_work@, t.creator_account_id@, t.recipient_account_id@)
            &&& c2.active_attempts@.len() > 0
            &&& opened_attempt(a, c, t, max3(m, l, tick))
            &&& c2.active_attempts@ == bounded_push(kept, a, MAX_ACTIVE_ATTEMPTS as nat)
        },
    }
}

pub open spec fn forge_work(a: ForgeAction) -> WorkKind {
    match a {
        ForgeAction::BurnCharcoal => WorkKind::BurnCharcoal,
        ForgeAction::ShapeHandle => WorkKind::ShapeHandle,
        _ => WorkKind::ForgeFieldTool,
    }
}

/// The index of the first attempt coordinated by `account`, or `-1`.
pub open spec fn attempt_of(s: Seq<CooperationAttempt>, account: Seq<char>) -> int
    decreases s.len(),
{
    if s.len() == 0 {
        -1
    } else if s[0].coordinator_account_id@ == account {
        0
    } else {
        let r = attempt_of(s.drop_first(), account);
        if r < 0 { -1 } else { r + 1 }
    }
}

/// The index of the first contribution by `account`, or `-1`.
pub open spec fn contribution_of(s: Seq<CooperationContribution>, account: Seq<char>) -> int
    decreases s.len(),
{
    if s.len() == 0 {
        -1
    } else if s[0].account_id@ == account {
        0
    } else {
        let r = contribution_of(s.drop_first(), account);
        if r < 0 { -1 } else { r + 1 }
    }
}

/// An attempt after one more work action by its coordinator.
pub open spec fn advanced(a: CooperationAttempt, a2: CooperationAttempt, account: Seq<char>) -> bool {
    let j = contribution_of(a.contributions@, account);
    &&& a2 == CooperationAttempt { work_actions: sat_add_u32(a.work_actions, 1), contributions: a2.contributions, ..a }
    &&& a2.contributions@.len() == a.contributions@.len()
    &&& forall|q: int| 0 <= q < a.contributions@.len() && q != j ==> a2.contributions@[q] == a.contributions@[q]
    &&& j >= 0 ==> a2.contributions@[j] == CooperationContribution {
        work_actions: sat_add_u32(a.contributions@[j].work_actions, 1),
        ..a.contributions@[j]
    }
}

/// The cooperation record after forge work by `account` on beat `tick`.
pub open spec fn forge_recorded(c: Cooperation, c2: Cooperation, account: Seq<char>, action: ForgeAction, tick: u64) -> bool {
    if action == ForgeAction::Inspect {
        c2 == c
    } else {
        let e = c2.recent_work@.last();
        let i = attempt_of(c.active_attempts@, account);
        &&& c2.recent_work@.len() > 0
        &&& c2.recent_work@ == bounded_push(c.recent_work@, e, MAX_RECENT_WORK as nat)
        &&& e.account_id@ == account && e.kind == forge_work(action) && e.materials@.len() == 0 && e.tick == tick
        &&& c2.goal == c.goal
        &&& if i < 0 {
            c2.active_attempts == c.active_attempts && c2.latest_result == c.latest_result
        } else {
            exists|a2: CooperationAttempt|
                #[trigger] advanced(c.active_attempts@[i], a2, account) && if action != ForgeAction::ForgeFieldTool {
                    c2.active_attempts@ == c.active_attempts@.update(i, a2) && c2.latest_result == c.latest_result
                } else {
                    &&& c2.active_attempts@ == c.active_attempts@.remove(i)
                    &&& if a2.work_actions > c.goal.solo_work_actions {
                        c2.latest_result == c.latest_result
                    } else {
                        c2.latest_result matches Some(r) && {
                            &&& r.coordinator_account_id == a2.coordinator_account_id
                            &&& r.participant_account_ids == a2.participant_account_ids
                            &&& r.contributions == a2.contributions
                            &&& r.trade_id == a2.trade_id
                            &&& r.work_actions == a2.work_actions
                            &&& r.saved_work_actions == c.goal.solo_work_actions - a2.work_actions
                            &&& r.completed_tick == tick
                        }
                    }
                }
        }
    }
}

// ---------------------------------------------------------------- ledger

/// Adds a credit to the ledger, dropping the oldest past the bound.
pub fn record_work(c: &mut Cooperation, account_id: String, kind: WorkKind, materials: Vec<MaterialAmount>, tick: u64)
    ensures
        final(c).recent_work@.len() > 0,
        final(c).recent_work@ == bounded_push(old(c).recent_work@, final(c).recent_work@.last(), MAX_RECENT_WORK as nat),
        final(c).recent_work@.last().account_id@ == account_id@,
        final(c).recent_work@.last().kind == kind,
        final(c).recent_work@.last().materials@ == materials@,
        final(c).recent_work@.last().tick == tick,
        final(c).goal == old(c).goal,
        final(c).active_attempts == old(c).active_attempts,
        final(c).latest_result == old(c).latest_result,
{
    let ghost before = c.recent_work@;
    let e = WorkCredit { account_id, kind, materials, tick };
    c.recent_work.push(e);
    if c.recent_work.len() > MAX_RECENT_WORK {
        let ghost t = c.recent_work@;
        c.recent_work.remove(0);
        assert(c.recent_work@ =~= t.subrange(1, t.len() as int));
    }
}

fn material_of(y: ResourceAmount) -> (m: Option<MaterialAmount>)
    ensures
        m == match y.kind {
            ResourceKind::Timber => Some(MaterialAmount { kind: ForgeMaterialKind::Timber, amount: y.amount }),
            ResourceKind::IronOre => Some(MaterialAmount { kind: ForgeMaterialKind::IronOre, amount: y.amount }),
            ResourceKind::Stone => None::<MaterialAmount>,
        },
{
    match y.kind {
        ResourceKind::Timber => Some(MaterialAmount { kind: ForgeMaterialKind::Timber, amount: y.amount }),
        ResourceKind::IronOre => Some(MaterialAmount { kind: ForgeMaterialKind::IronOre, amount: y.amount }),
        ResourceKind::Stone => None,
    }
}

/// Credits gathering work with the forge materials it yielded.
pub fn record_gather(c: &mut Cooperation, account_id: String, action: GatherAction, yields: &Vec<ResourceAmount>, tick: u64)
    ensures
        final(c).recent_work@.len() > 0,
        final(c).recent_work@ == bounded_push(old(c).recent_work@, final(c).recent_work@.last(), MAX_RECENT_WORK as nat),
        final(c).recent_work@.last().account_id@ == account_id@,
        final(c).recent_work@.last().kind == (if action == GatherAction::Log { WorkKind::Log } else { WorkKind::Mine }),
        final(c).recent_work@.last().materials@ == forge_materials(yields@),
        final(c).recent_work@.last().tick == tick,
        final(c).goal == old(c).goal,
        final(c).active_attempts == old(c).active_attempts,
        final(c).latest_result == old(c).latest_result,
{
    let mut materials: Vec<MaterialAmount> = Vec::new();
    for i in 0..yields.len()
        invariant
            materials@ == forge_materials(yields@.take(i as int)),
    {
        assert(yields@.take(i + 1).drop_last() =~= yields@.take(i as int));
        if let Some(m) = material_of(yields[i]) {
            materials.push(m);
        }
    }
    assert(yields@.take(yields@.len() as int) =~= yields@);
    let kind = match action {
        GatherAction::Log => WorkKind::Log,
        GatherAction::Mine => WorkKind::Mine,
    };
    record_work(c, account_id, kind, materials, tick);
}

/// The amount of `k` the goal needs.
pub fn required_amount(g: &CooperationGoal, k: ForgeMaterialKind) -> (r: u32)
    ensures
        r == required_for(g.required_inputs@, k),
{
    let n = g.required_inputs.len();
    let mut i: usize = 0;
    assert(g.required_inputs@.subrange(0, n as int) =~= g.required_inputs@);
    while i < n
        invariant
            n == g.required_inputs@.len(),
            i <= n,
            required_for(g.required_inputs@, k) == required_for(g.required_inputs@.subrange(i as int, n as int), k),
        decreases n - i,
    {
        let ghost rest = g.required_inputs@.subrange(i as int, n as int);
        assert(rest.drop_first() =~= g.required_inputs@.subrange(i + 1, n as int));
        assert(rest[0] == g.required_inputs@[i as int]);
        if g.required_inputs[i].kind == k {
            return g.required_inputs[i].amount;
        }
        i = i + 1;
    }
    0
}

fn carries_exec(ms: &Vec<MaterialAmount>, k: ForgeMaterialKind, amount: u32) -> (r: bool)
    ensures
        r == carries(ms@, k, amount),
{
    let n = ms.len();
    for i in 0..n
        invariant
            n == ms@.len(),
            forall|q: int| 0 <= q < i ==> !((#[trigger] ms@[q]).kind == k && ms@[q].amount >= amount),
    {
        if ms[i].kind == k && ms[i].amount >= amount {
            return true;
        }
    }
    false
}

/// The tick of the latest fresh credit of `kind` by `account` carrying at
/// least `amount` of `mk`.
pub fn recent_credit_tick(c: &Cooperation, account: &String, kind: WorkKind, mk: ForgeMaterialKind, amount: u32) -> (r: Option<u64>)
    ensures
        r == recent_tick(*c, account@, kind, mk, amount),
{
    let after = match &c.latest_result {
        Some(res) => res.completed_tick,
        None => 0,
    };
    let s = &c.recent_work;
    let mut i = s.len();
    assert(s@.take(i as int) =~= s@);
    while i > 0
        invariant
            i <= s@.len(),
            after == after_tick(*c),
            s == &c.recent_work,
            latest_match(s@, account@, kind, mk, amount, after) == latest_match(s@.take(i as int), account@, kind, mk, amount, after),
        decreases i,
    {
        let ghost t = s@.take(i as int);
        assert(t.drop_last() =~= s@.take(i - 1));
        assert(t.last() == s@[i - 1]);
        let cr = &s[i - 1];
        if cr.account_id == *account && cr.kind == kind && cr.tick >= after && carries_exec(&cr.materials, mk, amount) {
            return Some(cr.tick);
        }
        i = i - 1;
    }
    None
}

// ---------------------------------------------------------------- barter

fn keep_work(c: &mut Cooperation, creator: &String, recipient: &String)
    ensures
        final(c).recent_work@ == kept_work(old(c).recent_work@, creator@, recipient@),
        final(c).goal == old(c).goal,
        final(c).active_attempts == old(c).active_attempts,
        final(c).latest_result == old(c).latest_result,
{
    let mut rest: Vec<WorkCredit> = Vec::new();
    std::mem::swap(&mut rest, &mut c.recent_work);
    let ghost all = rest@;
    let n = rest.len();
    let mut k: usize = 0;
    while k < n
        invariant
            n == all.len(),
            k <= n,
            rest@ == all.subrange(k as int, n as int),
            c.recent_work@ == kept_work(all.take(k as int), creator@, recipient@),
            c.goal == old(c).goal,
            c.active_attempts == old(c).active_attempts,
            c.latest_result == old(c).latest_result,
        decreases n - k,
    {
        assert(all.take(k + 1).drop_last() =~= all.take(k as int));
        let ghost r0 = rest@;
        let x = rest.remove(0);
        assert(rest@ =~= all.subrange(k + 1, n as int));
        let drop = (x.account_id == *creator && x.kind == WorkKind::Mine) || (x.account_id == *recipient
            && x.kind == WorkKind::Log);
        if !drop {
            c.recent_work.push(x);
        }
        k = k + 1;
    }
    assert(all.take(n as int) =~= all);
}

fn keep_attempts(attempts: &mut Vec<CooperationAttempt>, coordinator: &String)
    ensures
        final(attempts)@ == other_attempts(old(attempts)@, coordinator@),
{
    let mut rest: Vec<CooperationAttempt> = Vec::new();
    std::mem::swap(&mut rest, attempts);
    let ghost all = rest@;
    let n = rest.len();
    let mut k: usize = 0;
    while k < n
        invariant
            n == all.len(),
            k <= n,
            rest@ == all.subrange(k as int, n as int),
            attempts@ == other_attempts(all.take(k as int), coordinator@),
        decreases n - k,
    {
        assert(all.take(k + 1).drop_last() =~= all.take(k as int));
        let x = rest.remove(0);
        assert(rest@ =~= all.subrange(k + 1, n as int));
        if x.coordinator_account_id != *coordinator {
            attempts.push(x);
        }
        k = k + 1;
    }
    assert(all.take(n as int) =~= all);
}

fn single(m: MaterialAmount) -> (v: Vec<MaterialAmount>)
    ensures
        v@ == seq![m],
{
    let mut v: Vec<MaterialAmount> = Vec::new();
    v.push(m);
    assert(v@ =~= seq![m]);
    v
}

/// Records a completed barter: when the creator's fresh mining and the
/// recipient's fresh logging cover the goal's ore and timber, and the
/// recipient still holds the timber, the two open a cooperative attempt
/// coordinated by the recipient. `coordinator_timber` is the timber the
/// recipient carries, if the recipient is a resident.
pub fn record_trade(c: &mut Cooperation, t: &TradeFacts, coordinator_timber: Option<u32>, tick: u64)
    ensures
        trade_recorded(*old(c), *final(c), *t, coordinator_timber, tick),
{
    let ore = required_amount(&c.goal, ForgeMaterialKind::IronOre);
    let timber = required_amount(&c.goal, ForgeMaterialKind::Timber);
    if t.offered_iron_ore < ore || ore == 0 || timber == 0 {
        return;
    }
    let has_timber = match coordinator_timber {
        Some(held) => held >= timber,
        None => false,
    };
    if !has_timber {
        return;
    }
    let Some(miner_tick) = recent_credit_tick(c, &t.creator_account_id, WorkKind::Mine, ForgeMaterialKind::IronOre, ore) else {
        return;
    };
    let Some(logger_tick) = recent_credit_tick(c, &t.recipient_account_id, WorkKind::Log, ForgeMaterialKind::Timber, timber) else {
        return;
    };
    let first = if miner_tick >= logger_tick { miner_tick } else { logger_tick };
    let started = if first >= tick { first } else { tick };
    let mut contributions: Vec<CooperationContribution> = Vec::new();
    contributions.push(
        CooperationContribution {
            account_id: t.recipient_account_id.clone(),
            materials: single(MaterialAmount { kind: ForgeMaterialKind::Timber, amount: timber }),
            work_actions: 1,
        },
    );
    contributions.push(
        CooperationContribution {
            account_id: t.creator_account_id.clone(),
            materials: single(MaterialAmount { kind: ForgeMaterialKind::IronOre, amount: ore }),
            work_actions: 1,
        },
    );
    let mut participants: Vec<String> = Vec::new();
    participants.push(t.recipient_account_id.clone());
    participants.push(t.creator_account_id.clone());
    let attempt = CooperationAttempt {
        coordinator_account_id: t.recipient_account_id.clone(),
        participant_account_ids: participants,
        contributions,
        trade_id: t.trade_id.clone(),
        work_actions: 2,
        started_tick: started,
    };
    keep_work(c, &t.creator_account_id, &t.recipient_account_id);
    keep_attempts(&mut c.active_attempts, &t.recipient_account_id);
    let ghost kept = c.active_attempts@;
    c.active_attempts.push(attempt);
    if c.active_attempts.len() > MAX_ACTIVE_ATTEMPTS {
        let ghost pushed = c.active_attempts@;
        c.active_attempts.remove(0);
        assert(c.active_attempts@ =~= pushed.subrange(1, pushed.len() as int));
    }
}

// ---------------------------------------------------------------- forge work

proof fn lemma_attempt_of_bounds(s: Seq<CooperationAttempt>, account: Seq<char>)
    ensures
        -1 <= attempt_of(s, account) < s.len(),
    decreases s.len(),
{
    if s.len() > 0 && s[0].coordinator_account_id@ != account {
        lemma_attempt_of_bounds(s.drop_first(), account);
    }
}

proof fn lemma_contribution_of_bounds(s: Seq<CooperationContribution>, account: Seq<char>)
    ensures
        -1 <= contribution_of(s, account) < s.len(),
    decreases s.len(),
{
    if s.len() > 0 && s[0].account_id@ != account {
        lemma_contribution_of_bounds(s.drop_first(), account);
    }
}

fn find_attempt(s: &Vec<CooperationAttempt>, account: &String) -> (r: Option<usize>)
    ensures
        match r {
            Some(i) => i as int == attempt_of(s@, account@) && i < s@.len(),
            None => attempt_of(s@, account@) < 0,
        },
{
    proof {
        lemma_attempt_of_bounds(s@, account@);
    }
    let n = s.len();
    let mut i: usize = 0;
    assert(s@.subrange(0, n as int) =~= s@);
    while i < n
        invariant
            n == s@.len(),
            i <= n,
            attempt_of(s@, account@) == if attempt_of(s@.subrange(i as int, n as int), account@) < 0 {
                -1
            } else {
                attempt_of(s@.subrange(i as int, n as int), account@) + i
            },
        decreases n - i,
    {
        let ghost rest = s@.subrange(i as int, n as int);
        assert(rest.drop_first() =~= s@.subrange(i + 1, n as int));
        assert(rest[0] == s@[i as int]);
        if s[i].coordinator_account_id == *account {
            return Some(i);
        }
        i = i + 1;
    }
    assert(s@.subrange(n as int, n as int).len() == 0);
    None
}

fn find_contribution(s: &Vec<CooperationContribution>, account: &String) -> (r: Option<usize>)
    ensures
        match r {
            Some(i) => i as int == contribution_of(s@, account@) && i < s@.len(),
            None => contribution_of(s@, account@) < 0,
        },
{
    proof {
        lemma_contribution_of_bounds(s@, account@);
    }
    let n = s.len();
    let mut i: usize = 0;
    assert(s@.subrange(0, n as int) =~= s@);
    while i < n
        invariant
            n == s@.len(),
            i <= n,
            contribution_of(s@, account@) == if contribution_of(s@.subrange(i as int, n as int), account@) < 0 {
                -1
            } else {
                contribution_of(s@.subrange(i as int, n as int), account@) + i
            },
        decreases n - i,
    {
        let ghost rest = s@.subrange(i as int, n as int);
        assert(rest.drop_first() =~= s@.subrange(i + 1, n as int));
        assert(rest[0] == s@[i as int]);
        if s[i].account_id == *account {
            return Some(i);
        }
        i = i + 1;
    }
    assert(s@.subrange(n as int, n as int).len() == 0);
    None
}

proof fn lemma_replace<T>(s: Seq<T>, i: int, x: T)
    requires
        0 <= i < s.len(),
    ensures
        s.remove(i).insert(i, x) == s.update(i, x),
{
    assert(s.remove(i).insert(i, x) =~= s.update(i, x));
}

fn advance(a: &mut CooperationAttempt, account: &String)
    ensures
        advanced(*old(a), *final(a), account@),
{
    a.work_actions = a.work_actions.saturating_add(1);
    proof {
        lemma_contribution_of_bounds(a.contributions@, account@);
    }
    if let Some(j) = find_contribution(&a.contributions, account) {
        let ghost before = a.contributions@;
        let mut cont = a.contributions.remove(j);
        cont.work_actions = cont.work_actions.saturating_add(1);
        a.contributions.insert(j, cont);
        proof {
            lemma_replace(before, j as int, cont);
        }
    }
}

/// Records forge work by `account` on beat `tick`, advancing the attempt
/// it coordinates; forging the tool closes the attempt, and an attempt
/// that beat solo work becomes the settlement's latest result.
pub fn record_forge(c: &mut Cooperation, account: &String, action: ForgeAction, tick: u64)
    ensures
        forge_recorded(*old(c), *final(c), account@, action, tick),
{
    let kind = match action {
        ForgeAction::Inspect => {
            return;
        },
        ForgeAction::BurnCharcoal => WorkKind::BurnCharcoal,
        ForgeAction::ShapeHandle => WorkKind::ShapeHandle,
        ForgeAction::ForgeFieldTool => WorkKind::ForgeFieldTool,
    };
    record_work(c, account.clone(), kind, Vec::new(), tick);
    let ghost c1 = *c;
    proof {
        lemma_attempt_of_bounds(c.active_attempts@, account@);
    }
    let Some(i) = find_attempt(&c.active_attempts, account) else {
        return;
    };
    let ghost before = c.active_attempts@;
    let mut a = c.active_attempts.remove(i);
    advance(&mut a, account);
    if action != ForgeAction::ForgeFieldTool {
        c.active_attempts.insert(i, a);
        proof {
            lemma_replace(before, i as int, a);
        }
        return;
    }
    let solo = c.goal.solo_work_actions;
    if a.work_actions > solo {
        return;
    }
    c.latest_result = Some(
        CooperationResult {
            coordinator_account_id: a.coordinator_account_id,
            participant_account_ids: a.participant_account_ids,
            contributions: a.contributions,
            trade_id: a.trade_id,
            work_actions: a.work_actions,
            saved_work_actions: solo - a.work_actions,
            completed_tick: tick,
        },
    );
}

// ---------------------------------------------------------------- accounts

/// `a` with the account `from` renamed to `to`.
pub open spec fn renamed(a: Seq<char>, from: Seq<char>, to: Seq<char>) -> Seq<char> {
    if a == from { to } else { a }
}

/// Whether `account` is among `ids`.
pub open spec fn takes_part(ids: Seq<String>, account: Seq<char>) -> bool {
    exists|i: int| 0 <= i < ids.len() && (#[trigger] ids[i])@ == account
}

/// The work credits of every account but `account`, in order.
pub open spec fn work_without(s: Seq<WorkCredit>, account: Seq<char>) -> Seq<WorkCredit>
    decreases s.len(),
{
    if s.len() == 0 {
        Seq::empty()
    } else {
        let rest = work_without(s.drop_last(), account);
        if s.last().account_id@ == account { rest } else { rest.push(s.last()) }
    }
}

/// The attempts `account` takes no part in, in order.
pub open spec fn attempts_without(s: Seq<CooperationAttempt>, account: Seq<char>) -> Seq<CooperationAttempt>
    decreases s.len(),
{
    if s.len() == 0 {
        Seq::empty()
    } else {
        let rest = attempts_without(s.drop_last(), account);
        if takes_part(s.last().participant_account_ids@, account) { rest } else { rest.push(s.last()) }
    }
}

pub open spec fn ids_renamed(s: Seq<String>, s2: Seq<String>, from: Seq<char>, to: Seq<char>) -> bool {
    &&& s2.len() == s.len()
    &&& forall|i: int| 0 <= i < s.len() ==> (#[trigger] s2[i])@ == renamed(s[i]@, from, to)
}

pub open spec fn contributions_renamed(
    s: Seq<CooperationContribution>,
    s2: Seq<CooperationContribution>,
    from: Seq<char>,
    to: Seq<char>,
) -> bool {
    &&& s2.len() == s.len()
    &&& forall|i: int|
        0 <= i < s.len() ==> (#[trigger] s2[i]) == (CooperationContribution { account_id: s2[i].account_id, ..s[i] })
            && s2[i].account_id@ == renamed(s[i].account_id@, from, to)
}

pub open spec fn work_renamed(s: Seq<WorkCredit>, s2: Seq<WorkCredit>, from: Seq<char>, to: Seq<char>) -> bool {
    &&& s2.len() == s.len()
    &&& forall|i: int|
        0 <= i < s.len() ==> (#[trigger] s2[i]) == (WorkCredit { account_id: s2[i].account_id, ..s[i] })
            && s2[i].account_id@ == renamed(s[i].account_id@, from, to)
}

pub open spec fn attempt_renamed(a: CooperationAttempt, a2: CooperationAttempt, from: Seq<char>, to: Seq<char>) -> bool {
    &&& a2 == CooperationAttempt {
        coordinator_account_id: a2.coordinator_account_id,
        participant_account_ids: a2.participant_account_ids,
        contributions: a2.contributions,
        ..a
    }
    &&& a2.coordinator_account_id@ == renamed(a.coordinator_account_id@, from, to)
    &&& ids_renamed(a.participant_account_ids@, a2.participant_account_ids@, from, to)
    &&& contributions_renamed(a.contributions@, a2.contributions@, from, to)
}

pub open spec fn result_renamed(r: CooperationResult, r2: CooperationResult, from: Seq<char>, to: Seq<char>) -> bool {
    &&& r2 == CooperationResult {
        coordinator_account_id: r2.coordinator_account_id,
        participant_account_ids: r2.participant_account_ids,
        contributions: r2.contributions,
        ..r
    }
    &&& r2.coordinator_account_id@ == renamed(r.coordinator_account_id@, from, to)
    &&& ids_renamed(r.participant_account_ids@, r2.participant_account_ids@, from, to)
    &&& contributions_renamed(r.contributions@, r2.contributions@, from, to)
}

/// Renames `value` to `new_account_id` when it names `old_account_id`.
pub fn replace_account(value: &mut String, old_account_id: &String, new_account_id: &String)
    ensures
        final(value)@ == renamed(old(value)@, old_account_id@, new_account_id@),
{
    if *value == *old_account_id {
        *value = new_account_id.clone();
    }
}

fn rename_ids(ids: &mut Vec<String>, from: &String, to: &String)
    ensures
        ids_renamed(old(ids)@, final(ids)@, from@, to@),
{
    let ghost start = ids@;
    let n = ids.len();
    for i in 0..n
        invariant
            n == start.len(),
            start == old(ids)@,
            ids@.len() == n,
            forall|k: int| 0 <= k < i ==> (#[trigger] ids@[k])@ == renamed(start[k]@, from@, to@),
            forall|k: int| i <= k < n ==> ids@[k] == start[k],
    {
        let mut v = ids[i].clone();
        replace_account(&mut v, from, to);
        ids.set(i, v);
    }
}

fn rename_contributions(cs: &mut Vec<CooperationContribution>, from: &String, to: &String)
    ensures
        contributions_renamed(old(cs)@, final(cs)@, from@, to@),
{
    let mut rest: Vec<CooperationContribution> = Vec::new();
    std::mem::swap(&mut rest, cs);
    let ghost all = rest@;
    let n = rest.len();
    let mut k: usize = 0;
    while k < n
        invariant
            n == all.len(),
            all == old(cs)@,
            k <= n,
            rest@ == all.subrange(k as int, n as int),
            cs@.len() == k,
            forall|q: int|
                0 <= q < k ==> (#[trigger] cs@[q]) == (CooperationContribution { account_id: cs@[q].account_id, ..all[q] })
                    && cs@[q].account_id@ == renamed(all[q].account_id@, from@, to@),
        decreases n - k,
    {
        let mut x = rest.remove(0);
        assert(rest@ =~= all.subrange(k + 1, n as int));
        replace_account(&mut x.account_id, from, to);
        cs.push(x);
        k = k + 1;
    }
}

fn rename_attempt(a: &mut CooperationAttempt, from: &String, to: &String)
    ensures
        attempt_renamed(*old(a), *final(a), from@, to@),
{
    replace_account(&mut a.coordinator_account_id, from, to);
    rename_ids(&mut a.participant_account_ids, from, to);
    rename_contributions(&mut a.contributions, from, to);
}

/// Forgets a deleted account: its work credits, the attempts it takes part
/// in, and the latest result when it took part in it.
pub fn remove_account(c: &mut Cooperation, account_id: &String)
    ensures
        final(c).goal == old(c).goal,
        final(c).recent_work@ == work_without(old(c).recent_work@, account_id@),
        final(c).active_attempts@ == attempts_without(old(c).active_attempts@, account_id@),
        final(c).latest_result == match old(c).latest_result {
            Some(r) => if takes_part(r.participant_account_ids@, account_id@) {
                None
            } else {
                Some(r)
            },
            None => None,
        },
{
    let mut rest: Vec<WorkCredit> = Vec::new();
    std::mem::swap(&mut rest, &mut c.recent_work);
    let ghost all = rest@;
    let n = rest.len();
    let mut k: usize = 0;
    while k < n
        invariant
            n == all.len(),
            all == old(c).recent_work@,
            k <= n,
            rest@ == all.subrange(k as int, n as int),
            c.recent_work@ == work_without(all.take(k as int), account_id@),
            c.goal == old(c).goal,
            c.active_attempts == old(c).active_attempts,
            c.latest_result == old(c).latest_result,
        decreases n - k,
    {
        assert(all.take(k + 1).drop_last() =~= all.take(k as int));
        let x = rest.remove(0);
        assert(rest@ =~= all.subrange(k + 1, n as int));
        if x.account_id != *account_id {
            c.recent_work.push(x);
        }
        k = k + 1;
    }
    assert(all.take(n as int) =~= all);

    let mut attempts: Vec<CooperationAttempt> = Vec::new();
    std::mem::swap(&mut attempts, &mut c.active_attempts);
    let ghost every = attempts@;
    let m = attempts.len();
    let mut j: usize = 0;
    while j < m
        invariant
            m == every.len(),
            every == old(c).active_attempts@,
            j <= m,
            attempts@ == every.subrange(j as int, m as int),
            c.active_attempts@ == attempts_without(every.take(j as int), account_id@),
            c.goal == old(c).goal,
            c.recent_work@ == work_without(old(c).recent_work@, account_id@),
            c.latest_result == old(c).latest_result,
        decreases m - j,
    {
        assert(every.take(j + 1).drop_last() =~= every.take(j as int));
        let a = attempts.remove(0);
        assert(attempts@ =~= every.subrange(j + 1, m as int));
        if !contains_account(&a.participant_account_ids, account_id) {
            c.active_attempts.push(a);
        }
        j = j + 1;
    }
    assert(every.take(m as int) =~= every);

    let drop = match &c.latest_result {
        Some(r) => contains_account(&r.participant_account_ids, account_id),
        None => false,
    };
    if drop {
        c.latest_result = None;
    }
}

fn contains_account(ids: &Vec<String>, account: &String) -> (r: bool)
    ensures
        r == takes_part(ids@, account@),
{
    let n = ids.len();
    for i in 0..n
        invariant
            n == ids@.len(),
            forall|q: int| 0 <= q < i ==> (#[trigger] ids@[q])@ != account@,
    {
        if ids[i] == *account {
            assert(ids@[i as int]@ == account@);
            return true;
        }
    }
    false
}

/// Moves every record of the account `old_account_id` to `new_account_id`.
pub fn migrate_account(c: &mut Cooperation, old_account_id: &String, new_account_id: &String)
    ensures
        final(c).goal == old(c).goal,
        work_renamed(old(c).recent_work@, final(c).recent_work@, old_account_id@, new_account_id@),
        final(c).active_attempts@.len() == old(c).active_attempts@.len(),
        forall|i: int|
            0 <= i < old(c).active_attempts@.len() ==> attempt_renamed(
                old(c).active_attempts@[i],
                #[trigger] final(c).active_attempts@[i],
                old_account_id@,
                new_account_id@,
            ),
        match old(c).latest_result {
            Some(r) => final(c).latest_result matches Some(r2) && result_renamed(
                r,
                r2,
                old_account_id@,
                new_account_id@,
            ),
            None => final(c).latest_result is None,
        },
{
    let mut rest: Vec<WorkCredit> = Vec::new();
    std::mem::swap(&mut rest, &mut c.recent_work);
    let ghost all = rest@;
    let n = rest.len();
    let mut k: usize = 0;
    while k < n
        invariant
            n == all.len(),
            all == old(c).recent_work@,
            k <= n,
            rest@ == all.subrange(k as int, n as int),
            c.recent_work@.len() == k,
            forall|q: int|
                0 <= q < k ==> (#[trigger] c.recent_work@[q]) == (WorkCredit { account_id: c.recent_work@[q].account_id, ..all[q] })
                    && c.recent_work@[q].account_id@ == renamed(all[q].account_id@, old_account_id@, new_account_id@),
            c.goal == old(c).goal,
            c.active_attempts == old(c).active_attempts,
            c.latest_result == old(c).latest_result,
        decreases n - k,
    {
        let mut x = rest.remove(0);
        assert(rest@ =~= all.subrange(k + 1, n as int));
        replace_account(&mut x.account_id, old_account_id, new_account_id);
        c.recent_work.push(x);
        k = k + 1;
    }

    let mut attempts: Vec<CooperationAttempt> = Vec::new();
    std::mem::swap(&mut attempts, &mut c.active_attempts);
    let ghost every = attempts@;
    let m = attempts.len();
    let mut j: usize = 0;
    while j < m
        invariant
            m == every.len(),
            every == old(c).active_attempts@,
            j <= m,
            attempts@ == every.subrange(j as int, m as int),
            c.active_attempts@.len() == j,
            forall|q: int|
                0 <= q < j ==> attempt_renamed(every[q], #[trigger] c.active_attempts@[q], old_account_id@, new_account_id@),
            c.goal == old(c).goal,
            work_renamed(old(c).recent_work@, c.recent_work@, old_account_id@, new_account_id@),
            c.latest_result == old(c).latest_result,
        decreases m - j,
    {
        let mut a = attempts.remove(0);
        assert(attempts@ =~= every.subrange(j + 1, m as int));
        rename_attempt(&mut a, old_account_id, new_account_id);
        c.active_attempts.push(a);
        j = j + 1;
    }

    if let Some(mut r) = c.latest_result.take() {
        replace_account(&mut r.coordinator_account_id, old_account_id, new_account_id);
        rename_ids(&mut r.participant_account_ids, old_account_id, new_account_id);
        rename_contributions(&mut r.contributions, old_account_id, new_account_id);
        c.latest_result = Some(r);
    }
}

// ---------------------------------------------------------------- laws

/// The ledgers stay within their bounds.
pub proof fn lemma_ledgers_bounded(c: Cooperation, c2: Cooperation, t: TradeFacts, timber: Option<u32>, tick: u64)
    requires
        trade_recorded(c, c2, t, timber, tick),
        c.recent_work@.len() <= MAX_RECENT_WORK,
        c.active_attempts@.len() <= MAX_ACTIVE_ATTEMPTS,
    ensures
        c2.recent_work@.len() <= MAX_RECENT_WORK,
        c2.active_attempts@.len() <= MAX_ACTIVE_ATTEMPTS,
{
    if qualifying(c, t, timber) is Some {
        lemma_kept_work_shorter(c.recent_work@, t.creator_account_id@, t.recipient_account_id@);
        lemma_other_attempts_shorter(c.active_attempts@, t.recipient_account_id@);
    }
}

proof fn lemma_kept_work_shorter(s: Seq<WorkCredit>, creator: Seq<char>, recipient: Seq<char>)
    ensures
        kept_work(s, creator, recipient).len() <= s.len(),
    decreases s.len(),
{
    if s.len() > 0 {
        lemma_kept_work_shorter(s.drop_last(), creator, recipient);
    }
}

proof fn lemma_other_attempts_shorter(s: Seq<CooperationAttempt>, coordinator: Seq<char>)
    ensures
        other_attempts(s, coordinator).len() <= s.len(),
    decreases s.len(),
{
    if s.len() > 0 {
        lemma_other_attempts_shorter(s.drop_last(), coordinator);
    }
}

/// A barter consumes the mining and logging it draws on: no credit of the
/// creator's mining or the recipient's logging remains to open a second
/// attempt.
pub proof fn lemma_barter_consumes_its_work(
    c: Cooperation,
    c2: Cooperation,
    t: TradeFacts,
    timber: Option<u32>,
    tick: u64,
)
    requires
        trade_recorded(c, c2, t, timber, tick),
        qualifying(c, t, timber) is Some,
    ensures
        forall|i: int|
            0 <= i < c2.recent_work@.len() ==> !consumed(#[trigger] c2.recent_work@[i], t.creator_account_id@, t.recipient_account_id@),
{
    lemma_kept_work_clean(c.recent_work@, t.creator_account_id@, t.recipient_account_id@);
}

proof fn lemma_kept_work_clean(s: Seq<WorkCredit>, creator: Seq<char>, recipient: Seq<char>)
    ensures
        forall|i: int|
            0 <= i < kept_work(s, creator, recipient).len() ==> !consumed(
                #[trigger] kept_work(s, creator, recipient)[i],
                creator,
                recipient,
            ),
    decreases s.len(),
{
    if s.len() > 0 {
        lemma_kept_work_clean(s.drop_last(), creator, recipient);
        let rest = kept_work(s.drop_last(), creator, recipient);
        if !consumed(s.last(), creator, recipient) {
            assert forall|i: int| 0 <= i < rest.push(s.last()).len() implies !consumed(
                #[trigger] rest.push(s.last())[i],
                creator,
                recipient,
            ) by {
                if i < rest.len() {
                    assert(rest.push(s.last())[i] == rest[i]);
                }
            }
        }
    }
}

} // verus!
