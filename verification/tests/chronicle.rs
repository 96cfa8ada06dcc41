use std::collections::VecDeque;
use tarrowyn_repository::chronicle::{
    chronicle_search, chronicle_summary, entries_after, file_entry, new_entry, ChronicleEntry,
    MAX_CHRONICLE,
};
use tarrowyn_repository::events::EventLog;

/// The settlement's retained event window in these scenarios.
const MAX_EVENTS: usize = 256;

struct Chronicle {
    events: EventLog<String>,
    live: VecDeque<ChronicleEntry>,
    archive: Vec<ChronicleEntry>,
    next_event_id: u64,
}

impl Chronicle {
    fn new() -> Self {
        Chronicle {
            events: EventLog::new(MAX_EVENTS),
            live: VecDeque::new(),
            archive: Vec::new(),
            next_event_id: 1,
        }
    }

    fn record(&mut self, kind: &str, title: &str, text: &str) {
        let entry = new_entry(&mut self.next_event_id, kind, title, text, 7);
        let cursor = self.events.push_event(title.to_owned());
        file_entry(&mut self.live, &mut self.archive, entry, cursor, MAX_CHRONICLE);
    }
}

fn archived_entries_searchable_and_summarised() {
    let mut chronicle = Chronicle::new();
    for index in 0..(MAX_CHRONICLE + 3) {
        chronicle.record(
            "archived achievement",
            &format!("Achievement {index:02}"),
            "An achievement remains in the regional record.",
        );
    }

    chronicle.events.validate_event_cursor(0, "chronicle").expect("cursor in window");
    let recent = entries_after(&chronicle.live, 0);
    assert_eq!(recent.len(), MAX_CHRONICLE);
    let summary = chronicle_summary(&chronicle.archive, 0).expect("archived summary");
    assert_eq!(summary.entry_count, 3);
    assert!(summary.from_cursor < recent[0].cursor);
    assert!(summary.to_cursor > summary.from_cursor);
    assert_eq!(summary.kinds, vec!["archived achievement".to_owned()]);
    assert_eq!(
        summary.highlights,
        vec!["Achievement 00".to_owned(), "Achievement 01".to_owned(), "Achievement 02".to_owned()]
    );

    let (entries, search_summary) =
        chronicle_search(&chronicle.archive, &chronicle.live, "Achievement 00", 0);
    assert!(entries.iter().any(|entry| entry.title == "Achievement 00"));
    assert_eq!(search_summary.expect("search summary").entry_count, 1);
}

#[test]
fn tests_chronicle_keeps_archived_entries_searchable_and_summarised() {
    archived_entries_searchable_and_summarised();
}

#[test]
fn chronicle_chronicle_keeps_archived_entries_searchable_and_summarised() {
    archived_entries_searchable_and_summarised();
}

fn cursors_outside_the_window_fail_closed() {
    let mut chronicle = Chronicle::new();
    for index in 0..=MAX_EVENTS {
        chronicle.record(
            "cursor boundary",
            &format!("Boundary entry {index}"),
            "The chronicle boundary remains explicit.",
        );
    }
    let oldest = chronicle.events.events.front().expect("retained event window").cursor;
    let current = chronicle.events.cursor;

    let stale = chronicle
        .events
        .validate_event_cursor(oldest - 2, "chronicle")
        .expect_err("a stale chronicle cursor must fail closed");
    assert_eq!(stale.status, 409);
    assert_eq!(stale.error.code, "cursor_stale");

    let ahead = chronicle
        .events
        .validate_event_cursor(current + 1, "chronicle")
        .expect_err("a chronicle cursor ahead of the world must fail closed");
    assert_eq!(ahead.status, 409);
    assert_eq!(ahead.error.code, "cursor_ahead");
    assert_eq!(
        ahead.error.message,
        "The chronicle event cursor is ahead of the settlement."
    );

    assert!(chronicle.events.validate_event_cursor(oldest - 1, "chronicle").is_ok());
}

#[test]
fn tests_chronicle_rejects_cursors_outside_the_retained_event_window() {
    cursors_outside_the_window_fail_closed();
}

#[test]
fn chronicle_chronicle_rejects_cursors_outside_the_retained_event_window() {
    cursors_outside_the_window_fail_closed();
}

#[test]
fn entries_are_numbered_and_the_summary_lists_each_kind_once() {
    let mut chronicle = Chronicle::new();
    chronicle.record("harvest", "First wheat", "The fields give their first wheat.");
    chronicle.record("office filled", "A steward", "The town hall has a steward.");
    chronicle.record("harvest", "Second wheat", "More wheat comes in.");
    let live: Vec<ChronicleEntry> = chronicle.live.iter().cloned().collect();
    assert_eq!(live[0].event_id, "chronicle-1");
    assert_eq!(live[2].event_id, "chronicle-3");
    let summary = chronicle_summary(&live, 1).expect("two entries after the first cursor");
    assert_eq!(summary.entry_count, 2);
    assert_eq!(summary.kinds, vec!["office filled".to_owned(), "harvest".to_owned()]);
    assert!(chronicle_summary(&live, 3).is_none());
    let (hits, _) = chronicle_search(&chronicle.archive, &chronicle.live, "wheat", 0);
    assert_eq!(hits.len(), 2);
}
