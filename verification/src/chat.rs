//! Settlement chat: a message is trimmed and checked before it is posted,
//! a channel defaults to the settlement channel, and the history keeps
//! only the newest messages.
use crate::retention::trim_back;
use crate::text::{any_control, chars_of, has_control, trim_bounds, trim_seq};
use std::collections::VecDeque;
use vstd::prelude::*;
use vstd::string::*;

verus! {

/// The longest channel name, in bytes of UTF-8.
pub const MAX_CHANNEL_BYTES: usize = 24;

#[derive(Debug, Clone)]
pub struct ChatMessage {
    pub message_id: u64,
    pub account_id: String,
    pub display_name: String,
    pub channel: String,
    pub text: String,
    pub cursor: u64,
}

// ---------------------------------------------------------------- specs

/// The bytes a character takes in UTF-8.
pub open spec fn utf8_width(c: char) -> nat {
    let v = c as u32;
    if v < 0x80 { 1 } else if v < 0x800 { 2 } else if v < 0x10000 { 3 } else { 4 }
}

/// The bytes a text takes in UTF-8.
pub open spec fn utf8_len(s: Seq<char>) -> nat
    decreases s.len(),
{
    if s.len() == 0 { 0 } else { utf8_len(s.drop_last()) + utf8_width(s.last()) }
}

/// The channel a message goes to: the trimmed name, or `settlement`.
pub open spec fn channel_of(channel: Seq<char>) -> Seq<char> {
    if trim_seq(channel).len() == 0 { "settlement"@ } else { trim_seq(channel) }
}

/// The trimmed text and channel of an acceptable message, or the reason
/// it is refused, in the order the checks are made.
pub open spec fn chat_check_spec(
    text: Seq<char>,
    channel: Seq<char>,
    configured_max: usize,
    hard_max: usize,
    fast: bool,
) -> Result<(Seq<char>, Seq<char>), Seq<char>> {
    let t = trim_seq(text);
    let ch = channel_of(channel);
    let limit = if configured_max < hard_max { configured_max } else { hard_max };
    if t.len() == 0 {
        Err("A message cannot be empty."@)
    } else if t.len() > limit {
        Err("Messages are limited to "@ + crate::text::decimal(configured_max as nat) + " characters."@)
    } else if has_control(t) {
        Err("Messages cannot contain control characters."@)
    } else if utf8_len(ch) > MAX_CHANNEL_BYTES {
        Err("That channel name is too long."@)
    } else if has_control(ch) {
        Err("Channel names cannot contain control characters."@)
    } else if fast {
        Err("Give the channel a moment before sending again."@)
    } else {
        Ok((t, ch))
    }
}

// ---------------------------------------------------------------- exec

fn utf8_width_of(c: char) -> (w: usize)
    ensures
        w == utf8_width(c),
{
    let v: u32 = c as u32;
    if v < 0x80 { 1 } else if v < 0x800 { 2 } else if v < 0x10000 { 3 } else { 4 }
}

/// The bytes `chars` take in UTF-8, counted up to just past `limit`.
fn utf8_len_past(chars: &Vec<char>, limit: usize) -> (r: bool)
    ensures
        r == (utf8_len(chars@) > limit),
{
    let mut total: usize = 0;
    let n = chars.len();
    for i in 0..n
        invariant
            n == chars@.len(),
            total == utf8_len(chars@.take(i as int)),
            total <= limit,
    {
        assert(chars@.take(i + 1).drop_last() =~= chars@.take(i as int));
        let w = utf8_width_of(chars[i]);
        if w > limit - total {
            proof {
                lemma_utf8_len_grows(chars@, i as int + 1);
            }
            return true;
        }
        total = total + w;
    }
    assert(chars@.take(n as int) =~= chars@);
    false
}

proof fn lemma_utf8_len_grows(s: Seq<char>, k: int)
    requires
        0 <= k <= s.len(),
    ensures
        utf8_len(s.take(k)) <= utf8_len(s),
    decreases s.len() - k,
{
    if k < s.len() {
        lemma_utf8_len_grows(s, k + 1);
        assert(s.take(k + 1).drop_last() =~= s.take(k));
    } else {
        assert(s.take(k) =~= s);
    }
}

fn trimmed(value: &str) -> (r: String)
    ensures
        r@ == trim_seq(value@),
{
    let chars = chars_of(value);
    let (start, end) = trim_bounds(&chars);
    value.substring_char(start, end).to_owned()
}

/// The trimmed text and channel of a message, or why it is refused: it
/// must not be empty, must fit the configured length (bounded by the hard
/// limit), and neither it nor the channel may hold a control character;
/// the channel fits 24 bytes, and a player sends once per beat.
pub fn check_chat(
    text: &str,
    channel: &str,
    configured_max: usize,
    hard_max: usize,
    fast: bool,
) -> (r: Result<(String, String), String>)
    ensures
        match (r, chat_check_spec(text@, channel@, configured_max, hard_max, fast)) {
            (Ok((a, b)), Ok((x, y))) => a@ == x && b@ == y,
            (Err(a), Err(x)) => a@ == x,
            _ => false,
        },
{
    proof {
        reveal_strlit("settlement");
    }
    let t = trimmed(text);
    let c0 = trimmed(channel);
    let ch = if c0.as_str().is_empty() { String::from_str("settlement") } else { c0 };
    let limit = if configured_max < hard_max { configured_max } else { hard_max };
    let t_chars = chars_of(t.as_str());
    let ch_chars = chars_of(ch.as_str());
    if t_chars.len() == 0 {
        return Err(String::from_str("A message cannot be empty."));
    }
    if t_chars.len() > limit {
        return Err(
            crate::text::numbered("Messages are limited to ", configured_max as u64).concat(
                " characters.",
            ),
        );
    }
    if any_control(&t_chars) {
        return Err(String::from_str("Messages cannot contain control characters."));
    }
    if utf8_len_past(&ch_chars, MAX_CHANNEL_BYTES) {
        return Err(String::from_str("That channel name is too long."));
    }
    if any_control(&ch_chars) {
        return Err(String::from_str("Channel names cannot contain control characters."));
    }
    if fast {
        return Err(String::from_str("Give the channel a moment before sending again."));
    }
    Ok((t, ch))
}

/// Posts a checked message as message `*next_message` at event cursor
/// `cursor`, keeping the newest `max_history` messages.
pub fn post_chat(
    history: &mut VecDeque<ChatMessage>,
    next_message: &mut u64,
    account_id: String,
    display_name: String,
    channel: String,
    text: String,
    cursor: u64,
    max_history: usize,
) -> (m: ChatMessage)
    requires
        *old(next_message) < u64::MAX,
    ensures
        *final(next_message) == *old(next_message) + 1,
        m.message_id == *old(next_message),
        m.account_id@ == account_id@,
        m.display_name@ == display_name@,
        m.channel@ == channel@,
        m.text@ == text@,
        m.cursor == cursor,
        final(history)@ == crate::retention::newest(old(history)@.push(final(history)@.last()), max_history as nat),
        final(history)@.len() > 0 ==> final(history)@.last() == m,
        max_history > 0 ==> final(history)@.len() > 0,
{
    let m = ChatMessage {
        message_id: *next_message,
        account_id,
        display_name,
        channel,
        text,
        cursor,
    };
    *next_message = *next_message + 1;
    let shown = ChatMessage {
        message_id: m.message_id,
        account_id: m.account_id.clone(),
        display_name: m.display_name.clone(),
        channel: m.channel.clone(),
        text: m.text.clone(),
        cursor: m.cursor,
    };
    history.push_back(m);
    trim_back(history, max_history);
    shown
}

} // verus!
