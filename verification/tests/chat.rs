use tarrowyn_repository::errors::validate_bounded_text;
use std::collections::VecDeque;
use tarrowyn_repository::chat::{check_chat, post_chat, ChatMessage};

#[test]
fn chat_trims_text_and_defaults_the_channel() {
    assert_eq!(
        check_chat("  hello there  ", "   ", 200, 500, false),
        Ok(("hello there".to_owned(), "settlement".to_owned()))
    );
    assert_eq!(
        check_chat("hi", " market ", 200, 500, false),
        Ok(("hi".to_owned(), "market".to_owned()))
    );
}

#[test]
fn chat_refusals_follow_the_order_of_the_checks() {
    assert_eq!(check_chat("   ", "x", 200, 500, false), Err("A message cannot be empty.".to_owned()));
    assert_eq!(
        check_chat("abcdef", "", 5, 500, false),
        Err("Messages are limited to 5 characters.".to_owned())
    );
    assert_eq!(
        check_chat("abcdef", "", 200, 4, false),
        Err("Messages are limited to 200 characters.".to_owned())
    );
    assert_eq!(
        check_chat("a\u{7}b", "", 200, 500, false),
        Err("Messages cannot contain control characters.".to_owned())
    );
    assert_eq!(
        check_chat("hi", "ééééééééééééé", 200, 500, false),
        Err("That channel name is too long.".to_owned())
    );
    assert!(check_chat("hi", "éééééééééééé", 200, 500, false).is_ok());
    assert_eq!(
        check_chat("hi", "a\tb", 200, 500, false),
        Err("Channel names cannot contain control characters.".to_owned())
    );
    assert_eq!(
        check_chat("hi", "", 200, 500, true),
        Err("Give the channel a moment before sending again.".to_owned())
    );
}

#[test]
fn chat_history_keeps_the_newest_messages() {
    let mut history: VecDeque<ChatMessage> = VecDeque::new();
    let mut next = 7u64;
    for i in 0..5u64 {
        let m = post_chat(
            &mut history,
            &mut next,
            "ada".to_owned(),
            "Ada".to_owned(),
            "settlement".to_owned(),
            format!("message {i}"),
            100 + i,
            3,
        );
        assert_eq!(m.message_id, 7 + i);
        assert_eq!(m.cursor, 100 + i);
    }
    assert_eq!(next, 12);
    assert_eq!(history.len(), 3);
    let ids: Vec<u64> = history.iter().map(|m| m.message_id).collect();
    assert_eq!(ids, vec![9, 10, 11]);
    assert_eq!(history.back().unwrap().text, "message 4");
}

#[test]
fn validated_text_validates_to_itself() {
    let once = validate_bounded_text("  Lantern Rest \t", 80, "bad", "bad text").unwrap();
    assert_eq!(once, "Lantern Rest");
    assert_eq!(validate_bounded_text(&once, 80, "bad", "bad text").unwrap(), once);
}
