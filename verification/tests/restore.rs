use std::collections::VecDeque;
use tarrowyn_repository::chronicle::Chronicle;
use tarrowyn_repository::events::{EventLog, NoticeBoard, TavernNotice};
use tarrowyn_repository::replay::{ReplayCache, MAX_REPLAY_CACHE};
use tarrowyn_repository::claims::{ClaimLifecycleStatus, ClaimRecord};
use tarrowyn_repository::farming::FarmAnimal;
use tarrowyn_repository::frontier::{Frontier, Position};
use tarrowyn_repository::governance::Governance;
use tarrowyn_repository::journey::{FutureGoalState, JourneyProgress};
use tarrowyn_repository::restore::{restore_world, StoredSession, WorldState};
use tarrowyn_repository::watch::{HouseholdStatus, OpportunitySignal};

const PEN: Position = Position { x: 4, y: 6 };

fn session(token: &str, revoked: bool, expires_at_tick: u64) -> StoredSession {
    StoredSession {
        token: token.to_owned(),
        identity_key: format!("{token}-identity"),
        revoked,
        expires_at_tick,
    }
}

fn claim(status: ClaimLifecycleStatus) -> ClaimRecord {
    ClaimRecord {
        claim_id: "lease-1".to_owned(),
        plot_id: "plot-1".to_owned(),
        owner_account_id: Some("ada".to_owned()),
        owner_name: Some("Ada".to_owned()),
        position: Position { x: 2, y: 2 },
        lease_days: 3,
        started_tick: 1,
        expires_tick: 2,
        started_at_unix_seconds: 0,
        expires_at_unix_seconds: 0,
        last_active_tick: 1,
        status,
        approved_by: None,
        building_access: true,
        protected_goods_policy: "Stored goods remain protected.".to_owned(),
        inspection_note: String::new(),
    }
}

fn notice(id: u64) -> TavernNotice {
    TavernNotice { notice_id: id, kind: "road".to_owned(), text: String::new(), created_tick: 0, cursor: id }
}

fn saved_world() -> WorldState<(), u64, u32> {
    WorldState {
        tick: 50,
        day: 0,
        next_guest: 0,
        next_message: 9,
        next_token: 0,
        next_trade: 3,
        next_property: 0,
        events: {
            let mut log = EventLog::new(3);
            for e in 0..5u64 {
                log.push_event(e);
            }
            log.max_events = 2;
            log
        },
        notices: NoticeBoard {
            notices: (1..=4).map(notice).collect(),
            next_notice: 0,
            max_notices: 3,
        },
        replay_caches: {
            let mut cache = ReplayCache::new();
            for i in 0..(MAX_REPLAY_CACHE as u32 + 3) {
                cache.record(format!("key-{i}"), i, false);
            }
            vec![cache, ReplayCache::new()]
        },
        journeys: vec![JourneyProgress {
            journey_id: String::new(),
            credits: Vec::new(),
            revision: 4,
            completed_tick: Some(2),
            future_goal_state: FutureGoalState::Complete,
            future_goal_completed_tick: Some(3),
        }],
        chronicle: Chronicle { live: VecDeque::new(), archive: Vec::new(), next_event_id: 1, max_live: 64 },
        frontier: Frontier { expedition: None, credentials: Vec::new(), outpost: None },
        households: vec![
            OpportunitySignal { opportunity_score: -4, status: HouseholdStatus::Travelling, clue: "a".to_owned() },
            OpportunitySignal { opportunity_score: 140, status: HouseholdStatus::Arrived, clue: "b".to_owned() },
        ],
        governance: Governance {
            offices: Vec::new(),
            proposals: Vec::new(),
            decisions: Vec::new(),
            public_treasury: 0,
            administration_quality: 50,
            service_funding_until_tick: 0,
            tax_rate_percent: None,
            infrastructure: Vec::new(),
            households: Vec::new(),
            next_proposal_id: 1,
            next_decision_id: 1,
            tax_ledger: Vec::new(),
            next_tax_id: 1,
        },
        service_orders: Vec::new(),
        claims: vec![claim(ClaimLifecycleStatus::Active)],
        lessons: Vec::new(),
        animals: vec![FarmAnimal {
            animal_id: "bellweather-goat".to_owned(),
            name: "Bellweather".to_owned(),
            position: Position { x: 30, y: 30 },
            condition: 2,
            max_condition: 3,
            last_cared_tick: 0,
            last_cared_day: 0,
        }],
        sessions: vec![session("live", false, 51), session("revoked", true, 90), session("stale", false, 50)],
    }
}

#[test]
fn restoring_a_saved_world_brings_it_within_todays_rules() {
    let mut w = saved_world();
    restore_world(&mut w, &"first-beacon".to_owned(), PEN, 86_400 * 2, 1_000);

    assert_eq!(w.day, 1);
    assert_eq!((w.next_guest, w.next_message, w.next_token, w.next_trade), (1, 9, 1, 3));
    assert_eq!((w.notices.next_notice, w.next_property), (1, 1));
    assert_eq!(w.events.cursor, 5);
    let kept: Vec<u64> = w.events.events.iter().map(|r| r.cursor).collect();
    assert_eq!(kept, vec![4, 5]);
    let notices: Vec<u64> = w.notices.notices.iter().map(|n| n.notice_id).collect();
    assert_eq!(notices, vec![2, 3, 4]);
    assert_eq!(w.replay_caches[0].entries.len(), MAX_REPLAY_CACHE);
    assert_eq!(w.replay_caches[0].entries[0].key, "key-3");
    assert!(w.replay_caches[1].entries.is_empty());
    assert_eq!(w.journeys[0].journey_id, "first-beacon");
    assert_eq!(w.journeys[0].revision, 0);
    assert_eq!(w.households[0].opportunity_score, 0);
    assert_eq!(w.households[1].opportunity_score, 100);
    assert_eq!(w.governance.tax_rate_percent, Some(5));
    assert_eq!(w.claims[0].lease_days, 2);
    assert_eq!(w.claims[0].started_at_unix_seconds, 1_000);
    assert_eq!(w.claims[0].expires_at_unix_seconds, 1_000 + 86_400 * 2);
    assert_eq!(w.animals[0].position, PEN);
    let tokens: Vec<&str> = w.sessions.iter().map(|s| s.token.as_str()).collect();
    assert_eq!(tokens, vec!["live"]);
}
