//! The periodic duties of the town hall: absent office-holders leave their
//! offices vacant, and infrastructure upkeep is paid from the treasury or
//! the structures decay.
use vstd::prelude::*;
use vstd::string::*;
use crate::governance::{
    Governance, InfrastructureRecord, InfrastructureStatus, OfficeKind, OfficeRecord,
    copy_infrastructure, copy_office, infrastructure_status, status_for,
};
use crate::ledger::views;

verus! {

/// An office whose holder has been absent for longer than `interval` ticks.
pub open spec fn lapsed_office(o: OfficeRecord, tick: u64, interval: u64) -> bool {
    o.holder_account_id is Some && (if tick < o.last_active_tick {
        0
    } else {
        tick - o.last_active_tick
    }) > interval
}

pub open spec fn vacancy_text() -> Seq<char> {
    "The office-holder has been absent; a new player may take responsibility."@
}

/// `o2` is `o` after the vacancy pass.
pub open spec fn vacancy_step(o: OfficeRecord, o2: OfficeRecord, tick: u64, interval: u64) -> bool {
    if lapsed_office(o, tick, interval) {
        &&& o2 == OfficeRecord {
            holder_account_id: None,
            holder_name: None,
            vacant: true,
            vacancy_reason: o2.vacancy_reason,
            ..o
        }
        &&& o2.vacancy_reason matches Some(t) && t@ == vacancy_text()
    } else {
        o2 == o
    }
}

/// The titles of the offices of `s` that lapse, in order.
pub open spec fn lapsed_titles(s: Seq<OfficeRecord>, tick: u64, interval: u64) -> Seq<Seq<char>>
    decreases s.len(),
{
    if s.len() == 0 {
        seq![]
    } else if lapsed_office(s.last(), tick, interval) {
        lapsed_titles(s.drop_last(), tick, interval).push(s.last().title@)
    } else {
        lapsed_titles(s.drop_last(), tick, interval)
    }
}

pub open spec fn steward_seated(s: Seq<OfficeRecord>) -> bool {
    exists|i: int| 0 <= i < s.len() && (#[trigger] s[i]).kind == OfficeKind::Steward && !s[i].vacant
}

/// The administration quality after a vacancy review.
pub open spec fn reviewed_quality(q: u8, any_vacated: bool, seated: bool) -> u8 {
    if any_vacated {
        (if q < 12 { 0 } else { q - 12 }) as u8
    } else if seated {
        (if q + 1 > 100 { 100 } else { q + 1 }) as u8
    } else {
        (if q < 2 { 0 } else { q - 2 }) as u8
    }
}

/// Whether a Steward office is held.
pub fn steward_is_seated(offices: &Vec<OfficeRecord>) -> (r: bool)
    ensures
        r == steward_seated(offices@),
{
    let n = offices.len();
    for i in 0..n
        invariant
            n == offices@.len(),
            forall|k: int| 0 <= k < i ==> !((#[trigger] offices@[k]).kind == OfficeKind::Steward && !offices@[k].vacant),
    {
        if offices[i].kind == OfficeKind::Steward && !offices[i].vacant {
            return true;
        }
    }
    false
}

/// The outcome of the vacancy review.
pub open spec fn reviewed(g: Governance, g2: Governance, tick: u64, interval: u64, vacated: Seq<String>) -> bool {
    &&& g2 == (Governance {
        offices: g2.offices,
        administration_quality: g2.administration_quality,
        ..g
    })
    &&& g2.offices@.len() == g.offices@.len()
    &&& forall|i: int|
        0 <= i < g.offices@.len() ==> vacancy_step(
            #[trigger] g.offices@[i],
            g2.offices@[i],
            tick,
            interval,
        )
    &&& views(vacated) == lapsed_titles(g.offices@, tick, interval)
    &&& g2.administration_quality == reviewed_quality(
        g.administration_quality,
        vacated.len() > 0,
        steward_seated(g2.offices@),
    )
}

/// Vacates the offices whose holders have been absent for longer than
/// `interval` ticks and adjusts the administration quality; returns the
/// titles of the vacated offices.
pub fn review_offices(g: &mut Governance, tick: u64, interval: u64) -> (vacated: Vec<String>)
    ensures
        reviewed(*old(g), *final(g), tick, interval, vacated@),
{
    let ghost start = g.offices@;
    let mut vacated: Vec<String> = Vec::new();
    let n = g.offices.len();
    for i in 0..n
        invariant
            n == start.len(),
            start == old(g).offices@,
            g.offices@.len() == n,
            *g == (Governance { offices: g.offices, ..*old(g) }),
            forall|k: int| 0 <= k < i ==> vacancy_step(#[trigger] start[k], g.offices@[k], tick, interval),
            forall|k: int| i <= k < n ==> g.offices@[k] == start[k],
            views(vacated@) == lapsed_titles(start.take(i as int), tick, interval),
    {
        assert(start.take(i + 1).drop_last() =~= start.take(i as int));
        let mut office = copy_office(&g.offices[i]);
        let absent = tick.saturating_sub(office.last_active_tick);
        if office.holder_account_id.is_some() && absent > interval {
            let ghost before = vacated@;
            vacated.push(office.title.clone());
            assert(views(vacated@) =~= views(before).push(start[i as int].title@));
            office.holder_account_id = None;
            office.holder_name = None;
            office.vacant = true;
            office.vacancy_reason = Some(String::from_str(
                "The office-holder has been absent; a new player may take responsibility.",
            ));
            g.offices.set(i, office);
        }
    }
    assert(start.take(n as int) =~= start);
    let q = g.administration_quality;
    if vacated.len() > 0 {
        g.administration_quality = q.saturating_sub(12);
    } else if steward_is_seated(&g.offices) {
        g.administration_quality = if q >= 99 {
            100
        } else {
            q + 1
        };
    } else {
        g.administration_quality = q.saturating_sub(2);
    }
    vacated
}

/// The upkeep of all infrastructure, summed at the numeric ceiling.
pub open spec fn upkeep_total(s: Seq<InfrastructureRecord>) -> u32
    decreases s.len(),
{
    if s.len() == 0 {
        0
    } else {
        let sum = upkeep_total(s.drop_last()) + s.last().upkeep_per_day;
        if sum > u32::MAX { u32::MAX } else { sum as u32 }
    }
}

/// The condition a structure falls to when its upkeep is not paid.
pub open spec fn decayed(c: u8) -> u8 {
    if c < 5 { 0 } else { (c - 5) as u8 }
}

/// `r2` is `r` after the upkeep pass.
pub open spec fn upkeep_step(r: InfrastructureRecord, r2: InfrastructureRecord, funded: bool, tick: u64) -> bool {
    if funded {
        r2 == InfrastructureRecord { last_maintained_tick: tick, ..r }
    } else {
        r2 == InfrastructureRecord {
            condition: decayed(r.condition),
            status: status_for(decayed(r.condition)),
            ..r
        }
    }
}

/// A structure that newly fails when its upkeep is not paid.
pub open spec fn newly_failed(r: InfrastructureRecord) -> bool {
    status_for(decayed(r.condition)) == InfrastructureStatus::Failed && r.status
        != InfrastructureStatus::Failed
}

pub open spec fn failed_names(s: Seq<InfrastructureRecord>) -> Seq<Seq<char>>
    decreases s.len(),
{
    if s.len() == 0 {
        seq![]
    } else if newly_failed(s.last()) {
        failed_names(s.drop_last()).push(s.last().name@)
    } else {
        failed_names(s.drop_last())
    }
}

/// The outcome of the upkeep pass.
pub open spec fn maintained(g: Governance, g2: Governance, tick: u64, failures: Seq<String>) -> bool {
    let total = upkeep_total(g.infrastructure@);
    let funded = g.public_treasury >= total;
    &&& g2 == (Governance {
        infrastructure: g2.infrastructure,
        public_treasury: g2.public_treasury,
        ..g
    })
    &&& g2.public_treasury == (if funded {
        (g.public_treasury - total) as u32
    } else {
        g.public_treasury
    })
    &&& g2.infrastructure@.len() == g.infrastructure@.len()
    &&& forall|i: int|
        0 <= i < g.infrastructure@.len() ==> upkeep_step(
            #[trigger] g.infrastructure@[i],
            g2.infrastructure@[i],
            funded,
            tick,
        )
    &&& views(failures) == (if funded {
        Seq::<Seq<char>>::empty()
    } else {
        failed_names(g.infrastructure@)
    })
}

/// Pays the day's upkeep from the treasury when it covers the whole sum;
/// otherwise every structure decays. Returns the names of the structures
/// that newly failed.
pub fn pay_upkeep(g: &mut Governance, tick: u64) -> (failures: Vec<String>)
    ensures
        maintained(*old(g), *final(g), tick, failures@),
{
    let ghost start = g.infrastructure@;
    let n = g.infrastructure.len();
    let mut total: u32 = 0;
    for i in 0..n
        invariant
            n == start.len(),
            start == g.infrastructure@,
            total == upkeep_total(start.take(i as int)),
    {
        assert(start.take(i + 1).drop_last() =~= start.take(i as int));
        total = total.saturating_add(g.infrastructure[i].upkeep_per_day);
    }
    assert(start.take(n as int) =~= start);
    let funded = g.public_treasury >= total;
    if funded {
        g.public_treasury = g.public_treasury - total;
    }
    let mut failures: Vec<String> = Vec::new();
    for i in 0..n
        invariant
            n == start.len(),
            start == old(g).infrastructure@,
            g.infrastructure@.len() == n,
            *g == (Governance {
                infrastructure: g.infrastructure,
                public_treasury: g.public_treasury,
                ..*old(g)
            }),
            g.public_treasury == (if funded {
                (old(g).public_treasury - total) as u32
            } else {
                old(g).public_treasury
            }),
            funded == (old(g).public_treasury >= total),
            total == upkeep_total(start),
            forall|k: int| 0 <= k < i ==> upkeep_step(#[trigger] start[k], g.infrastructure@[k], funded, tick),
            forall|k: int| i <= k < n ==> g.infrastructure@[k] == start[k],
            views(failures@) == (if funded {
                Seq::<Seq<char>>::empty()
            } else {
                failed_names(start.take(i as int))
            }),
    {
        assert(start.take(i + 1).drop_last() =~= start.take(i as int));
        let mut record = copy_infrastructure(&g.infrastructure[i]);
        if funded {
            record.last_maintained_tick = tick;
        } else {
            let old_status = record.status;
            record.condition = record.condition.saturating_sub(5);
            record.status = infrastructure_status(record.condition);
            if record.status == InfrastructureStatus::Failed && old_status
                != InfrastructureStatus::Failed {
                let ghost before = failures@;
                failures.push(record.name.clone());
                assert(views(failures@) =~= views(before).push(start[i as int].name@));
            }
        }
        g.infrastructure.set(i, record);
    }
    assert(start.take(n as int) =~= start);
    failures
}

proof fn lemma_upkeep_total_covers(s: Seq<InfrastructureRecord>)
    ensures
        forall|i: int| 0 <= i < s.len() ==> (#[trigger] s[i]).upkeep_per_day <= upkeep_total(s),
    decreases s.len(),
{
    if s.len() > 0 {
        lemma_upkeep_total_covers(s.drop_last());
        assert forall|i: int| 0 <= i < s.len() implies (#[trigger] s[i]).upkeep_per_day
            <= upkeep_total(s) by {
            if i < s.len() - 1 {
                assert(s.drop_last()[i] == s[i]);
            }
        }
    }
}

/// Upkeep never raises the treasury, never wraps it: the treasury pays only
/// when it covers the whole (ceiling-held) sum, so a structure whose upkeep
/// alone exceeds the treasury leaves every structure unfunded and decaying.
pub proof fn lemma_upkeep_cannot_wrap(g: Governance, g2: Governance, tick: u64, failures: Seq<String>)
    requires
        maintained(g, g2, tick, failures),
    ensures
        g2.public_treasury <= g.public_treasury,
        (exists|i: int|
            0 <= i < g.infrastructure@.len() && (#[trigger] g.infrastructure@[i]).upkeep_per_day
                > g.public_treasury) ==> g2.public_treasury == g.public_treasury && forall|i: int|
            0 <= i < g.infrastructure@.len() ==> (#[trigger] g2.infrastructure@[i]).condition
                == decayed(g.infrastructure@[i].condition),
{
    lemma_upkeep_total_covers(g.infrastructure@);
    let total = upkeep_total(g.infrastructure@);
    if exists|i: int|
        0 <= i < g.infrastructure@.len() && (#[trigger] g.infrastructure@[i]).upkeep_per_day
            > g.public_treasury {
        let i = choose|i: int|
            0 <= i < g.infrastructure@.len() && (#[trigger] g.infrastructure@[i]).upkeep_per_day
                > g.public_treasury;
        assert(g.infrastructure@[i].upkeep_per_day <= total);
        assert forall|k: int| 0 <= k < g.infrastructure@.len() implies (#[trigger] g2.infrastructure@[k]).condition
            == decayed(g.infrastructure@[k].condition) by {
            assert(upkeep_step(g.infrastructure@[k], g2.infrastructure@[k], false, tick));
        }
    }
}

/// On a day whose upkeep goes unpaid every structure is reported by its new
/// condition: 0 to 24 failed, 25 to 59 in need of repair, 60 to 79
/// recovering, 80 and above operational. On a paid day no structure changes
/// condition or status.
pub proof fn lemma_upkeep_reports_condition(g: Governance, g2: Governance, tick: u64, failures: Seq<String>)
    requires
        maintained(g, g2, tick, failures),
    ensures
        g.public_treasury < upkeep_total(g.infrastructure@) ==> forall|i: int|
            0 <= i < g2.infrastructure@.len() ==> {
                let c = (#[trigger] g2.infrastructure@[i]).condition;
                let s = g2.infrastructure@[i].status;
                &&& c <= 24 ==> s == InfrastructureStatus::Failed
                &&& 25 <= c <= 59 ==> s == InfrastructureStatus::NeedsRepair
                &&& 60 <= c <= 79 ==> s == InfrastructureStatus::Recovering
                &&& 80 <= c ==> s == InfrastructureStatus::Operational
            },
        g.public_treasury >= upkeep_total(g.infrastructure@) ==> forall|i: int|
            0 <= i < g2.infrastructure@.len() ==> (#[trigger] g2.infrastructure@[i]).condition
                == g.infrastructure@[i].condition && g2.infrastructure@[i].status
                == g.infrastructure@[i].status,
{
    assert forall|i: int| 0 <= i < g2.infrastructure@.len() implies upkeep_step(
        g.infrastructure@[i],
        #[trigger] g2.infrastructure@[i],
        g.public_treasury >= upkeep_total(g.infrastructure@),
        tick,
    ) by {}
}

} // verus!
