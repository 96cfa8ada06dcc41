use std::collections::VecDeque;
use tarrowyn_repository::chronicle::{Chronicle, ChronicleEntry};
use tarrowyn_repository::commands::{run_knowledge_command, CommandCounters};
use tarrowyn_repository::events::EventLog;
use tarrowyn_repository::replay::{settlement_cache_key, ReplayCache};
use tarrowyn_repository::knowledge::{
    knowledge_command, knowledge_entry, knowledge_view, validate_knowledge_request, KnowledgeAction, KnowledgeItem,
    KnowledgeKind, KnowledgeNote, KnowledgeOutcome, KnowledgeRequest, LessonTarget,
};

fn moonberry() -> KnowledgeItem {
    KnowledgeItem {
        knowledge_id: "moonberry-tending".to_owned(),
        title: "Moonberry trellis method".to_owned(),
        kind: KnowledgeKind::CropTechnique,
        description: "A low trellis keeps moonberries dry when the road is wet.".to_owned(),
        effect: "Improves moonberry quality by one when applied to a harvest.".to_owned(),
        teachable: true,
        writable: true,
        discovered_by: Vec::new(),
        stored_in: "A discoverer's private field notes".to_owned(),
    }
}

fn request(action: KnowledgeAction, knowledge_id: Option<&str>, target: Option<&str>) -> KnowledgeRequest {
    KnowledgeRequest {
        action,
        knowledge_id: knowledge_id.map(str::to_owned),
        target_account_id: target.map(str::to_owned),
    }
}

fn solo(
    items: &mut Vec<KnowledgeItem>,
    actor: &str,
    known: &mut Vec<String>,
    req: &KnowledgeRequest,
) -> tarrowyn_repository::knowledge::KnowledgeOutcome {
    let mut nobody: Vec<String> = Vec::new();
    knowledge_command(items, &actor.to_owned(), known, LessonTarget::Unregistered, &mut nobody, req)
}

#[test]
fn undiscovered_knowledge_stays_private_until_taught_or_recorded() {
    let mut items = vec![moonberry()];
    let mut discoverer: Vec<String> = Vec::new();
    let mut learner: Vec<String> = Vec::new();
    let observer: Vec<String> = Vec::new();

    let initial = knowledge_view(&items, &observer);
    assert_eq!(initial[0].title, "Unrevealed field clue");
    assert!(!initial[0].description.contains("moonberries"));

    let discovered = solo(
        &mut items,
        "knowledge-private-discoverer",
        &mut discoverer,
        &request(KnowledgeAction::Discover, Some("moonberry-tending"), None),
    );
    assert!(discovered.accepted);
    assert_eq!(knowledge_view(&items, &discoverer)[0].title, "Moonberry trellis method");
    assert_eq!(knowledge_view(&items, &observer)[0].title, "Unrevealed field clue");

    let taught = knowledge_command(
        &mut items,
        &"knowledge-private-discoverer".to_owned(),
        &mut discoverer,
        LessonTarget::Other,
        &mut learner,
        &request(
            KnowledgeAction::Teach,
            Some("moonberry-tending"),
            Some("knowledge-private-learner"),
        ),
    );
    assert!(taught.accepted);
    assert_eq!(taught.note, Some(KnowledgeNote::Taught));
    assert_eq!(knowledge_view(&items, &learner)[0].title, "Moonberry trellis method");

    let recorded = solo(
        &mut items,
        "knowledge-private-discoverer",
        &mut discoverer,
        &request(KnowledgeAction::Record, Some("moonberry-tending"), None),
    );
    assert!(recorded.accepted);
    assert_eq!(knowledge_view(&items, &observer)[0].title, "Moonberry trellis method");
    assert_eq!(items[0].stored_in, "The Hearth guild archive (written)");
}

#[test]
fn unknown_knowledge_selector_does_not_fall_back_to_the_first_clue() {
    let mut items = vec![moonberry()];
    let mut known: Vec<String> = Vec::new();
    let response = solo(
        &mut items,
        "knowledge-selector-boundary",
        &mut known,
        &request(KnowledgeAction::Discover, Some("missing-knowledge"), None),
    );
    assert!(!response.accepted);
    assert_eq!(
        response.reason.as_deref(),
        Some("That knowledge item is not discoverable in this settlement.")
    );
    assert!(known.is_empty());
    assert!(items[0].discovered_by.is_empty());
}

#[test]
fn knowledge_selectors_reject_unbounded_or_controlled_ids() {
    for knowledge_id in ["x".repeat(161), "knowledge\nwith-control".to_owned()] {
        let error = validate_knowledge_request(
            KnowledgeAction::Inspect,
            Some(knowledge_id.as_str()),
            None,
        )
        .expect_err("invalid knowledge selector should be rejected");
        assert_eq!(error.status, 400);
        assert_eq!(error.error.code, "invalid_knowledge_id");
    }
    let error = validate_knowledge_request(
        KnowledgeAction::Teach,
        Some("moonberry-tending"),
        Some("account\nwith-control"),
    )
    .expect_err("invalid target selector should be rejected");
    assert_eq!(error.error.code, "invalid_target_account_id");
    let ok = validate_knowledge_request(KnowledgeAction::Apply, Some(" moonberry-tending "), None)
        .expect("a bounded selector is accepted");
    assert_eq!(ok.knowledge_id.as_deref(), Some("moonberry-tending"));
}

#[test]
fn knowledge_inspection_is_fresh_and_does_not_fill_replay_storage() {
    let mut items = vec![moonberry()];
    let mut known: Vec<String> = Vec::new();
    let mut nobody: Vec<String> = Vec::new();
    let mut cache: ReplayCache<KnowledgeOutcome> = ReplayCache::new();
    let mut chronicle = Chronicle { live: VecDeque::new(), archive: Vec::new(), next_event_id: 1, max_live: 64 };
    let mut log: EventLog<ChronicleEntry> = EventLog::new(256);
    let mut counters = CommandCounters { completed: 0, rejected: 0 };
    let actor = "phase4-knowledge-read-view".to_owned();
    let mut run = |items: &mut Vec<KnowledgeItem>,
                   known: &mut Vec<String>,
                   cache: &mut ReplayCache<KnowledgeOutcome>,
                   counters: &mut CommandCounters,
                   request_id: &str,
                   action: KnowledgeAction,
                   knowledge_id: Option<&str>| {
        run_knowledge_command(
            items,
            known,
            LessonTarget::Unregistered,
            &mut nobody,
            cache,
            &mut chronicle,
            &mut log,
            |e| e,
            counters,
            &actor,
            1,
            request_id,
            action,
            knowledge_id,
            None,
        )
        .unwrap()
    };

    let first = run(&mut items, &mut known, &mut cache, &mut counters, "same-beat-knowledge-inspect", KnowledgeAction::Inspect, None);
    assert!(first.accepted);
    assert_eq!(first.note, None);
    assert!(known.is_empty());
    assert!(cache.entries.is_empty());
    assert_eq!(counters.completed, 0);

    let discovered = run(
        &mut items,
        &mut known,
        &mut cache,
        &mut counters,
        "read-view-discover",
        KnowledgeAction::Discover,
        Some("moonberry-tending"),
    );
    assert!(discovered.accepted);
    assert_eq!(discovered.note, Some(KnowledgeNote::Discovered));

    let after = run(&mut items, &mut known, &mut cache, &mut counters, "same-beat-knowledge-inspect", KnowledgeAction::Inspect, None);
    assert!(after.accepted);
    assert_eq!(knowledge_view(&items, &known)[0].title, "Moonberry trellis method");
    assert_eq!(items[0].discovered_by, vec!["phase4-knowledge-read-view".to_owned()]);
    assert_eq!(counters.completed, 1);
    assert_eq!(cache.entries.len(), 1);
    assert!(cache.lookup(&settlement_cache_key("phase4-knowledge-read-view", "same-beat-knowledge-inspect")).is_none());
}

#[test]
fn a_lesson_needs_another_registered_player_who_learns_once() {
    let mut items = vec![moonberry()];
    let mut teacher: Vec<String> = vec!["moonberry-tending".to_owned()];
    let mut pupil: Vec<String> = Vec::new();
    let teach = request(KnowledgeAction::Teach, Some("moonberry-tending"), Some("pupil"));
    let self_taught = knowledge_command(
        &mut items, &"teacher".to_owned(), &mut teacher, LessonTarget::Actor, &mut pupil, &teach,
    );
    assert!(!self_taught.accepted);
    assert_eq!(
        self_taught.reason.as_deref(),
        Some("A lesson needs another player to receive the technique.")
    );
    for _ in 0..2 {
        let taught = knowledge_command(
            &mut items, &"teacher".to_owned(), &mut teacher, LessonTarget::Other, &mut pupil, &teach,
        );
        assert!(taught.accepted);
    }
    assert_eq!(pupil, vec!["moonberry-tending".to_owned()]);
    let applied = solo(
        &mut items,
        "pupil",
        &mut pupil,
        &request(KnowledgeAction::Apply, Some("moonberry-tending"), None),
    );
    assert!(applied.accepted);
    assert_eq!(applied.message, "Improves moonberry quality by one when applied to a harvest.");
}

#[test]
fn accepted_knowledge_commands_are_chronicled() {
    let taught = knowledge_entry(KnowledgeNote::Taught, "");
    assert_eq!(taught.kind, "knowledge taught");
    let applied = knowledge_entry(KnowledgeNote::Applied, "The trellis holds.");
    assert_eq!(applied.title, "A recorded technique changes local work");
    assert_eq!(applied.text, "The trellis holds.");
}
