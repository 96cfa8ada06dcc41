use std::collections::VecDeque;
use tarrowyn_repository::events::{
    add_notice, regional_events_since, EventLog, EventRecord, NoticeBoard, TavernNotice,
};

#[derive(Debug, Clone, PartialEq)]
enum WorldEvent {
    Notice(u64, u64),
    Other,
}

fn announce(n: TavernNotice) -> WorldEvent {
    WorldEvent::Notice(n.notice_id, n.cursor)
}

#[test]
fn notices_take_the_next_number_and_the_cursor_of_their_event() {
    let mut log: EventLog<WorldEvent> = EventLog::new(3);
    log.push_event(WorldEvent::Other);
    let mut board = NoticeBoard { notices: VecDeque::new(), next_notice: 7, max_notices: 2 };

    let first = add_notice(&mut board, &mut log, announce, "harvest", "The field is ready.", 12);
    assert_eq!(first.notice_id, 7);
    assert_eq!(first.cursor, 2);
    assert_eq!(first.kind, "harvest");
    assert_eq!(first.created_tick, 12);
    assert_eq!(log.cursor, 2);
    assert_eq!(log.events.back().unwrap().event, WorldEvent::Notice(7, 2));

    add_notice(&mut board, &mut log, announce, "road", "The road is open.", 13);
    let third = add_notice(&mut board, &mut log, announce, "road", "The road is closed.", 14);
    assert_eq!(third.notice_id, 9);
    assert_eq!(board.next_notice, 10);
    let kept: Vec<u64> = board.notices.iter().map(|n| n.notice_id).collect();
    assert_eq!(kept, vec![8, 9]);
    let cursors: Vec<u64> = log.events.iter().map(|e| e.cursor).collect();
    assert_eq!(cursors, vec![2, 3, 4]);
}

#[test]
fn regional_events_resume_after_the_client_cursor() {
    let events: Vec<EventRecord<&str>> = vec![
        EventRecord { cursor: 3, event: "market" },
        EventRecord { cursor: 5, event: "route" },
        EventRecord { cursor: 9, event: "household" },
    ];
    assert_eq!(regional_events_since(&events, 4, 9).unwrap(), vec![1, 2]);
    assert_eq!(regional_events_since(&events, 0, 9).unwrap(), vec![0, 1, 2]);
    assert!(regional_events_since(&events, 9, 9).unwrap().is_empty());
    let ahead = regional_events_since(&events, 10, 9).unwrap_err();
    assert_eq!(ahead.status, 409);
    assert_eq!(ahead.error.code, "cursor_ahead");
    assert_eq!(ahead.error.message, "The regional event cursor is ahead of this world.");
}
