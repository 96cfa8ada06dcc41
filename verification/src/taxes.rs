//! The daily settlement tax: while a Steward is seated, each player near the
//! Hearth pays a bounded share of carried gold once a day, every payment is
//! receipted in the public ledger, and the treasury receives the total.
use vstd::prelude::*;
use vstd::string::*;
use crate::frontier::Position;
use crate::governance::{Governance, TaxCollection};
use crate::retention::{newest, retain_recent};
use crate::text::{decimal, numbered};
use crate::upkeep::{maintained, pay_upkeep, review_offices, reviewed, steward_is_seated, steward_seated};

verus! {

/// The most receipts the public ledger keeps.
pub const MAX_TAX_COLLECTIONS: usize = 64;

/// How far from the Hearth, in tiles, the tax applies.
pub const TAX_RADIUS: i64 = 4;

/// A player as the tax collector sees them.
#[derive(Debug, Clone)]
pub struct TaxPayer {
    pub account_id: String,
    pub display_name: String,
    pub gold: u32,
    pub last_tax_day: u32,
    pub knocked_out: bool,
    pub position: Position,
}

/// The result of a day's collection.
#[derive(Debug, Clone, Copy, PartialEq, Eq, Structural)]
pub struct TaxReport {
    pub payer_count: usize,
    pub total: u32,
    pub rate_percent: u8,
    pub day: u32,
}

pub open spec fn hearth() -> Position {
    Position { x: 8, y: 5 }
}

pub open spec fn abs_int(v: int) -> int {
    if v < 0 { -v } else { v }
}

/// The Manhattan distance between two tiles.
pub open spec fn distance(a: Position, b: Position) -> int {
    abs_int(a.x - b.x) + abs_int(a.y - b.y)
}

/// What a player owes on `day` at `rate` percent.
pub open spec fn tax_due(p: TaxPayer, day: u32, rate: u8) -> u32 {
    if p.last_tax_day >= day || p.knocked_out || distance(p.position, hearth()) > TAX_RADIUS || rate
        == 0 {
        0
    } else {
        let m = p.gold * rate;
        let m = if m > u32::MAX { u32::MAX as int } else { m };
        (m / 100) as u32
    }
}

/// `p2` is `p` after the day's collection.
pub open spec fn taxed(p: TaxPayer, p2: TaxPayer, day: u32, rate: u8) -> bool {
    if p.last_tax_day >= day {
        p2 == p
    } else {
        p2 == TaxPayer { last_tax_day: day, gold: (p.gold - tax_due(p, day, rate)) as u32, ..p }
    }
}

/// The players who pay something, in order.
pub open spec fn charged(ps: Seq<TaxPayer>, day: u32, rate: u8) -> Seq<TaxPayer>
    decreases ps.len(),
{
    if ps.len() == 0 {
        seq![]
    } else if tax_due(ps.last(), day, rate) > 0 {
        charged(ps.drop_last(), day, rate).push(ps.last())
    } else {
        charged(ps.drop_last(), day, rate)
    }
}

/// The sum of what the players owe.
pub open spec fn sum_due(ps: Seq<TaxPayer>, day: u32, rate: u8) -> int
    decreases ps.len(),
{
    if ps.len() == 0 {
        0
    } else {
        sum_due(ps.drop_last(), day, rate) + tax_due(ps.last(), day, rate)
    }
}

/// The sum of what the players owe, held at the numeric ceiling.
pub open spec fn total_due(ps: Seq<TaxPayer>, day: u32, rate: u8) -> u32
    decreases ps.len(),
{
    if ps.len() == 0 {
        0
    } else {
        let s = total_due(ps.drop_last(), day, rate) + tax_due(ps.last(), day, rate);
        if s > u32::MAX { u32::MAX } else { s as u32 }
    }
}

pub open spec fn sat_add_u32(a: u32, b: u32) -> u32 {
    if a + b > u32::MAX { u32::MAX } else { (a + b) as u32 }
}

pub open spec fn receipt_id(next: u64, k: int) -> u64 {
    if next + k > u64::MAX { u64::MAX } else { (next + k) as u64 }
}

/// `c` is the `k`-th receipt of a collection, for payer `p`.
pub open spec fn is_receipt(
    c: TaxCollection,
    p: TaxPayer,
    k: int,
    next: u64,
    rate: u8,
    day: u32,
    tick: u64,
) -> bool {
    &&& c.collection_id@ == "tax-"@ + decimal(receipt_id(next, k) as nat)
    &&& c.payer_account_id == p.account_id
    &&& c.payer_name == p.display_name
    &&& c.amount == tax_due(p, day, rate)
    &&& c.rate_percent == rate
    &&& c.territory@ == "hearth-settlement"@
    &&& c.day == day
    &&& c.created_tick == tick
}

/// The outcome of a day's collection.
pub open spec fn collected(
    g: Governance,
    g2: Governance,
    ps: Seq<TaxPayer>,
    ps2: Seq<TaxPayer>,
    day: u32,
    tick: u64,
    report: Option<TaxReport>,
) -> bool {
    match g.tax_rate_percent {
        None => g2 == g && ps2 == ps && report is None,
        Some(rate) => if !steward_seated(g.offices@) {
            g2 == g && ps2 == ps && report is None
        } else {
            let c = charged(ps, day, rate);
            let total = total_due(ps, day, rate);
            &&& ps2.len() == ps.len()
            &&& forall|i: int| 0 <= i < ps.len() ==> taxed(#[trigger] ps[i], ps2[i], day, rate)
            &&& if total == 0 {
                g2 == g && report is None
            } else {
                &&& report == Some(
                    TaxReport { payer_count: c.len() as usize, total, rate_percent: rate, day },
                )
                &&& g2 == Governance {
                    tax_ledger: g2.tax_ledger,
                    next_tax_id: receipt_id(g.next_tax_id, c.len() as int),
                    public_treasury: sat_add_u32(g.public_treasury, total),
                    ..g
                }
                &&& exists|added: Seq<TaxCollection>|
                    {
                        &&& added.len() == c.len()
                        &&& forall|k: int|
                            0 <= k < c.len() ==> is_receipt(
                                #[trigger] added[k],
                                c[k],
                                k,
                                g.next_tax_id,
                                rate,
                                day,
                                tick,
                            )
                        &&& g2.tax_ledger@ == newest(
                            g.tax_ledger@ + added,
                            MAX_TAX_COLLECTIONS as nat,
                        )
                    }
            }
        },
    }
}

fn abs_diff(a: i32, b: i32) -> (r: i64)
    ensures
        r == abs_int(a - b),
{
    let d: i64 = (a as i64) - (b as i64);
    if d < 0 {
        -d
    } else {
        d
    }
}

/// What `p` owes on `day` at `rate` percent.
pub fn tax_owed(p: &TaxPayer, day: u32, rate: u8) -> (r: u32)
    requires
        rate <= 100,
    ensures
        r == tax_due(*p, day, rate),
        r <= p.gold,
{
    let far = abs_diff(p.position.x, 8) + abs_diff(p.position.y, 5) > TAX_RADIUS;
    if p.last_tax_day >= day || p.knocked_out || far || rate == 0 {
        return 0;
    }
    let g64: u64 = p.gold as u64;
    let r64: u64 = rate as u64;
    assert(g64 * r64 <= 0xffff_ffff_u64 * 100) by (nonlinear_arith)
        requires
            g64 <= 0xffff_ffff_u64,
            r64 <= 100,
    ;
    let wide: u64 = g64 * r64;
    let m: u32 = if wide > (u32::MAX as u64) {
        u32::MAX
    } else {
        wide as u32
    };
    assert(m <= p.gold * 100) by (nonlinear_arith)
        requires
            m <= p.gold * rate,
            rate <= 100,
    ;
    m / 100
}

proof fn lemma_charged_step(ps: Seq<TaxPayer>, i: int, day: u32, rate: u8)
    requires
        0 <= i < ps.len(),
    ensures
        charged(ps.take(i + 1), day, rate) == if tax_due(ps[i], day, rate) > 0 {
            charged(ps.take(i), day, rate).push(ps[i])
        } else {
            charged(ps.take(i), day, rate)
        },
        total_due(ps.take(i + 1), day, rate) == sat_add_u32(
            total_due(ps.take(i), day, rate),
            tax_due(ps[i], day, rate),
        ),
        sum_due(ps.take(i + 1), day, rate) == sum_due(ps.take(i), day, rate) + tax_due(
            ps[i],
            day,
            rate,
        ),
{
    assert(ps.take(i + 1).drop_last() =~= ps.take(i));
}

/// Collects the day's settlement tax from `payers` into the treasury.
pub fn collect_taxes(g: &mut Governance, payers: &mut Vec<TaxPayer>, day: u32, tick: u64) -> (report:
    Option<TaxReport>)
    requires
        old(g).tax_rate_percent matches Some(r) ==> r <= 100,
    ensures
        collected(*old(g), *final(g), old(payers)@, final(payers)@, day, tick, report),
{
    let Some(rate) = g.tax_rate_percent else {
        return None;
    };
    if !steward_is_seated(&g.offices) {
        return None;
    }
    let ghost start = payers@;
    let n = payers.len();
    let next = g.next_tax_id;
    let mut total: u32 = 0;
    let mut count: usize = 0;
    let mut receipts: Vec<TaxCollection> = Vec::new();
    for i in 0..n
        invariant
            n == start.len(),
            start == old(payers)@,
            payers@.len() == n,
            rate <= 100,
            next == g.next_tax_id,
            forall|k: int| 0 <= k < i ==> taxed(#[trigger] start[k], payers@[k], day, rate),
            forall|k: int| i <= k < n ==> payers@[k] == start[k],
            total == total_due(start.take(i as int), day, rate),
            count == charged(start.take(i as int), day, rate).len(),
            count <= i,
            receipts@.len() == count,
            forall|k: int|
                0 <= k < count ==> is_receipt(
                    #[trigger] receipts@[k],
                    charged(start.take(i as int), day, rate)[k],
                    k,
                    next,
                    rate,
                    day,
                    tick,
                ),
    {
        proof {
            lemma_charged_step(start, i as int, day, rate);
        }
        let mut payer = TaxPayer {
            account_id: payers[i].account_id.clone(),
            display_name: payers[i].display_name.clone(),
            gold: payers[i].gold,
            last_tax_day: payers[i].last_tax_day,
            knocked_out: payers[i].knocked_out,
            position: payers[i].position,
        };
        if payer.last_tax_day < day {
            let due = tax_owed(&payer, day, rate);
            payer.last_tax_day = day;
            payer.gold = payer.gold - due;
            total = total.saturating_add(due);
            if due > 0 {
                let id = if next <= u64::MAX - (count as u64) {
                    next + count as u64
                } else {
                    u64::MAX
                };
                let receipt = TaxCollection {
                    collection_id: numbered("tax-", id),
                    payer_account_id: payers[i].account_id.clone(),
                    payer_name: payers[i].display_name.clone(),
                    amount: due,
                    rate_percent: rate,
                    territory: String::from_str("hearth-settlement"),
                    day,
                    created_tick: tick,
                };
                receipts.push(receipt);
                count = count + 1;
            }
            payers.set(i, payer);
        }
    }
    assert(start.take(n as int) =~= start);
    if total == 0 {
        return None;
    }
    let ghost added = receipts@;
    let ghost before = g.tax_ledger@;
    let mut receipts = receipts;
    g.tax_ledger.append(&mut receipts);
    assert(g.tax_ledger@ =~= before + added);
    retain_recent(&mut g.tax_ledger, MAX_TAX_COLLECTIONS);
    g.next_tax_id = if next <= u64::MAX - (count as u64) {
        next + count as u64
    } else {
        u64::MAX
    };
    g.public_treasury = g.public_treasury.saturating_add(total);
    Some(TaxReport { payer_count: count, total, rate_percent: rate, day })
}

// ---------------------------------------------------------------- laws

/// The gold carried by all players.
pub open spec fn gold_sum(ps: Seq<TaxPayer>) -> int
    decreases ps.len(),
{
    if ps.len() == 0 {
        0
    } else {
        gold_sum(ps.drop_last()) + ps.last().gold
    }
}

proof fn lemma_pointwise_taxed(ps: Seq<TaxPayer>, ps2: Seq<TaxPayer>, day: u32, rate: u8)
    requires
        rate <= 100,
        ps2.len() == ps.len(),
        forall|i: int| 0 <= i < ps.len() ==> taxed(#[trigger] ps[i], ps2[i], day, rate),
    ensures
        gold_sum(ps) == gold_sum(ps2) + sum_due(ps, day, rate),
        total_due(ps, day, rate) == (if sum_due(ps, day, rate) > u32::MAX {
            u32::MAX as int
        } else {
            sum_due(ps, day, rate)
        }),
    decreases ps.len(),
{
    if ps.len() > 0 {
        let n = ps.len() - 1;
        assert forall|i: int| 0 <= i < ps.drop_last().len() implies taxed(
            #[trigger] ps.drop_last()[i],
            ps2.drop_last()[i],
            day,
            rate,
        ) by {
            assert(taxed(ps[i], ps2[i], day, rate));
        }
        lemma_pointwise_taxed(ps.drop_last(), ps2.drop_last(), day, rate);
        assert(taxed(ps[n], ps2[n], day, rate));
        lemma_due_bounded(ps[n], day, rate);
    }
}

proof fn lemma_due_bounded(p: TaxPayer, day: u32, rate: u8)
    requires
        rate <= 100,
    ensures
        tax_due(p, day, rate) <= p.gold,
        tax_due(p, day, rate) * 100 <= p.gold * rate,
{
    if tax_due(p, day, rate) > 0 {
        let m = p.gold * rate;
        let m2 = if m > u32::MAX { u32::MAX as int } else { m };
        assert(m2 <= m);
        assert(m <= p.gold * 100) by (nonlinear_arith)
            requires
                m == p.gold * rate,
                rate <= 100,
                p.gold >= 0,
        ;
        assert((m2 / 100) * 100 <= m2) by (nonlinear_arith)
            requires
                m2 >= 0,
        ;
    }
}

/// The day's collection moves gold without creating or losing any: the
/// players lose exactly what they owed, each pays at most `rate` percent of
/// the gold carried, and the treasury receives the sum (held at the
/// numeric ceiling).
pub proof fn lemma_tax_conserves_gold(
    g: Governance,
    g2: Governance,
    ps: Seq<TaxPayer>,
    ps2: Seq<TaxPayer>,
    day: u32,
    tick: u64,
    report: Option<TaxReport>,
)
    requires
        g.tax_rate_percent matches Some(r) ==> r <= 100,
        collected(g, g2, ps, ps2, day, tick, report),
    ensures
        g.tax_rate_percent matches Some(rate) ==> {
            &&& gold_sum(ps) == gold_sum(ps2) + (if steward_seated(g.offices@) {
                sum_due(ps, day, rate)
            } else {
                0
            })
            &&& forall|i: int|
                0 <= i < ps.len() ==> (#[trigger] ps[i]).gold - ps2[i].gold <= ps[i].gold * rate / 100
        },
        report matches Some(t) ==> g2.public_treasury == sat_add_u32(g.public_treasury, t.total)
            && t.total == (if sum_due(ps, day, g.tax_rate_percent->0) > u32::MAX {
            u32::MAX as int
        } else {
            sum_due(ps, day, g.tax_rate_percent->0)
        }),
{
    match g.tax_rate_percent {
        Some(rate) => {
            if steward_seated(g.offices@) {
                lemma_pointwise_taxed(ps, ps2, day, rate);
                assert forall|i: int|
                    0 <= i < ps.len() implies (#[trigger] ps[i]).gold - ps2[i].gold <= ps[i].gold
                    * rate / 100 by {
                    lemma_due_bounded(ps[i], day, rate);
                    let d = tax_due(ps[i], day, rate) as int;
                    let gr = ps[i].gold * rate;
                    assert(d <= gr / 100) by (nonlinear_arith)
                        requires
                            d * 100 <= gr,
                            d >= 0,
                    ;
                }
            } else {
                assert(ps2 == ps);
            }
        },
        None => {},
    }
}

proof fn lemma_no_dues_after_collection(ps: Seq<TaxPayer>, day: u32, rate: u8)
    requires
        forall|i: int| 0 <= i < ps.len() ==> (#[trigger] ps[i]).last_tax_day >= day,
    ensures
        total_due(ps, day, rate) == 0,
        charged(ps, day, rate).len() == 0,
    decreases ps.len(),
{
    if ps.len() > 0 {
        assert forall|i: int| 0 <= i < ps.drop_last().len() implies (
        #[trigger] ps.drop_last()[i]).last_tax_day >= day by {
            assert(ps[i].last_tax_day >= day);
        }
        lemma_no_dues_after_collection(ps.drop_last(), day, rate);
        assert(ps[ps.len() - 1].last_tax_day >= day);
    }
}

/// The tax is collected at most once a day: a second collection on the same
/// day changes nothing.
pub proof fn lemma_tax_once_per_day(
    g: Governance,
    g2: Governance,
    g3: Governance,
    ps: Seq<TaxPayer>,
    ps2: Seq<TaxPayer>,
    ps3: Seq<TaxPayer>,
    day: u32,
    tick: u64,
    tick2: u64,
    report: Option<TaxReport>,
    report2: Option<TaxReport>,
)
    requires
        collected(g, g2, ps, ps2, day, tick, report),
        collected(g2, g3, ps2, ps3, day, tick2, report2),
    ensures
        g3 == g2,
        ps3 == ps2,
        report2 is None,
{
    match g.tax_rate_percent {
        Some(rate) => {
            if steward_seated(g.offices@) {
                assert forall|i: int| 0 <= i < ps2.len() implies (#[trigger] ps2[i]).last_tax_day
                    >= day by {
                    assert(taxed(ps[i], ps2[i], day, rate));
                }
                assert(g2.tax_rate_percent == g.tax_rate_percent);
                assert(g2.offices == g.offices);
                lemma_no_dues_after_collection(ps2, day, rate);
                assert forall|i: int| 0 <= i < ps2.len() implies (#[trigger] ps3[i]) == ps2[i] by {
                    assert(taxed(ps2[i], ps3[i], day, rate));
                }
                assert(ps3 =~= ps2);
            }
        },
        None => {},
    }
}

// ---------------------------------------------------------------- the town-hall tick

/// What a town-hall tick did, for the chronicle.
#[derive(Debug, Clone)]
pub struct GovernanceTickReport {
    pub vacated: Vec<String>,
    pub failures: Vec<String>,
    pub taxes: Option<TaxReport>,
}

/// Names the intermediate states of a tick.
pub open spec fn stages(a: Governance, b: Governance) -> bool {
    true
}

/// The vacancy review runs every `interval` ticks (at least one).
pub open spec fn review_interval(inactivity_ticks: u64) -> u64 {
    if inactivity_ticks < 1 { 1 } else { inactivity_ticks }
}

/// The outcome of a town-hall tick: offices are reviewed every interval,
/// upkeep is paid every twelfth tick, and the daily tax is collected.
pub open spec fn governance_ticked(
    g: Governance,
    g3: Governance,
    ps: Seq<TaxPayer>,
    ps2: Seq<TaxPayer>,
    tick: u64,
    day: u32,
    inactivity_ticks: u64,
    r: GovernanceTickReport,
) -> bool {
    if tick == 0 {
        g3 == g && ps2 == ps && r.vacated@.len() == 0 && r.failures@.len() == 0 && r.taxes is None
    } else {
        let interval = review_interval(inactivity_ticks);
        exists|g1: Governance, g2: Governance|
            #![trigger stages(g1, g2)]
            {
                &&& stages(g1, g2)
                &&& if tick % interval == 0 {
                    reviewed(g, g1, tick, interval, r.vacated@)
                } else {
                    g1 == g && r.vacated@.len() == 0
                }
                &&& if tick % 12 == 0 {
                    maintained(g1, g2, tick, r.failures@)
                } else {
                    g2 == g1 && r.failures@.len() == 0
                }
                &&& collected(g2, g3, ps, ps2, day, tick, r.taxes)
            }
    }
}

/// Runs the town hall's periodic duties at world tick `tick` on world day
/// `day`.
pub fn governance_tick(
    g: &mut Governance,
    payers: &mut Vec<TaxPayer>,
    tick: u64,
    day: u32,
    inactivity_ticks: u64,
) -> (r: GovernanceTickReport)
    requires
        old(g).tax_rate_percent matches Some(rate) ==> rate <= 100,
    ensures
        governance_ticked(*old(g), *final(g), old(payers)@, final(payers)@, tick, day, inactivity_ticks, r),
{
    if tick == 0 {
        return GovernanceTickReport { vacated: Vec::new(), failures: Vec::new(), taxes: None };
    }
    let interval = if inactivity_ticks < 1 {
        1
    } else {
        inactivity_ticks
    };
    let vacated = if tick % interval == 0 {
        review_offices(g, tick, interval)
    } else {
        Vec::new()
    };
    let ghost g1 = *g;
    let failures = if tick % 12 == 0 {
        pay_upkeep(g, tick)
    } else {
        Vec::new()
    };
    let ghost g2 = *g;
    let taxes = collect_taxes(g, payers, day, tick);
    let r = GovernanceTickReport { vacated, failures, taxes };
    proof {
        let pre = *old(g);
        let post = *g;
        assert(if tick % interval == 0 {
            reviewed(pre, g1, tick, interval, r.vacated@)
        } else {
            g1 == pre && r.vacated@.len() == 0
        });
        assert(if tick % 12 == 0 {
            maintained(g1, g2, tick, r.failures@)
        } else {
            g2 == g1 && r.failures@.len() == 0
        });
        assert(collected(g2, post, old(payers)@, payers@, day, tick, r.taxes));
        assert(stages(g1, g2));
    }
    r
}

} // verus!
