//! The settlement's knowledge archive: techniques that players discover,
//! teach to one another, write into the guild archive and apply to their
//! work. What a player has not learned stays redacted in their view until
//! it is written into the archive.
use crate::errors::{RepositoryError, opt_text, selector_kept, selector_refused, validate_optional_identifier};
use crate::ledger::{contains_name, distinct, lemma_remember_keeps_distinct, remember, remember_spec, views};
use crate::text::{contains_text, has_infix};
use vstd::prelude::*;

verus! {

/// Checks the selectors of a knowledge command: a knowledge identifier and a
/// lesson's receiving account, each optional, bounded and free of control
/// characters.
pub fn validate_knowledge_request(
    action: KnowledgeAction,
    knowledge_id: Option<&str>,
    target_account_id: Option<&str>,
) -> (r: Result<KnowledgeRequest, RepositoryError>)
    ensures
        selector_refused(opt_text(knowledge_id)) ==> (r matches Err(e) && e.spec_is(
            400,
            "invalid_knowledge_id"@,
            "A knowledge selector must be bounded and contain no control characters."@,
        )),
        !selector_refused(opt_text(knowledge_id)) && selector_refused(opt_text(target_account_id))
            ==> (r matches Err(e) && e.spec_is(
            400,
            "invalid_target_account_id"@,
            "A target account selector must be bounded and contain no control characters."@,
        )),
        !selector_refused(opt_text(knowledge_id)) && !selector_refused(opt_text(target_account_id))
            ==> (r matches Ok(q) && q.action == action && selector_kept(
            opt_text(knowledge_id),
            q.knowledge_id,
        ) && selector_kept(opt_text(target_account_id), q.target_account_id)),
{
    let knowledge_id = match validate_optional_identifier(
        knowledge_id,
        "invalid_knowledge_id",
        "A knowledge selector must be bounded and contain no control characters.",
    ) {
        Ok(v) => v,
        Err(e) => return Err(e),
    };
    let target_account_id = match validate_optional_identifier(
        target_account_id,
        "invalid_target_account_id",
        "A target account selector must be bounded and contain no control characters.",
    ) {
        Ok(v) => v,
        Err(e) => return Err(e),
    };
    Ok(KnowledgeRequest { action, knowledge_id, target_account_id })
}


#[derive(Debug, Clone, Copy, PartialEq, Eq, Structural)]
pub enum KnowledgeKind {
    CropTechnique,
}

#[derive(Debug, Clone)]
pub struct KnowledgeItem {
    pub knowledge_id: String,
    pub title: String,
    pub kind: KnowledgeKind,
    pub description: String,
    pub effect: String,
    pub teachable: bool,
    pub writable: bool,
    pub discovered_by: Vec<String>,
    pub stored_in: String,
}

#[derive(Debug, Clone, Copy, PartialEq, Eq, Structural)]
pub enum KnowledgeAction {
    Inspect,
    Discover,
    Teach,
    Record,
    Apply,
}

#[derive(Debug, Clone)]
pub struct KnowledgeRequest {
    pub action: KnowledgeAction,
    pub knowledge_id: Option<String>,
    pub target_account_id: Option<String>,
}

/// The account registry's answer for the account a lesson names.
#[derive(Debug, Clone, Copy, PartialEq, Eq, Structural)]
pub enum LessonTarget {
    /// No settlement account has that id.
    Unregistered,
    /// The named account is the teacher's own.
    Actor,
    /// Another registered player.
    Other,
}

/// The chronicle entry an accepted command asks for.
#[derive(Debug, Clone, Copy, PartialEq, Eq, Structural)]
pub enum KnowledgeNote {
    Discovered,
    Taught,
    Recorded,
    Applied,
}

#[derive(Debug, Clone)]
pub struct KnowledgeOutcome {
    pub accepted: bool,
    pub message: String,
    pub reason: Option<String>,
    pub note: Option<KnowledgeNote>,
}

// ---------------------------------------------------------------- specs

/// The index of the item a selector names: the item with that id, or the
/// first item when no id is given; `-1` when there is none.
pub open spec fn selected_item(items: Seq<KnowledgeItem>, id: Option<String>) -> int {
    match id {
        Some(id) => first_with_id(items, id@),
        None => if items.len() > 0 { 0 } else { -1 },
    }
}

pub open spec fn first_with_id(items: Seq<KnowledgeItem>, id: Seq<char>) -> int
    decreases items.len(),
{
    if items.len() == 0 {
        -1
    } else if items[0].knowledge_id@ == id {
        0
    } else {
        let r = first_with_id(items.drop_first(), id);
        if r < 0 { -1 } else { r + 1 }
    }
}

/// The text of the guild archive's location once an item is written there.
pub open spec fn archive_location() -> Seq<char> {
    "The Hearth guild archive (written)"@
}

/// The message of a command that was turned down or only inspected.
pub open spec fn idle_message() -> Seq<char> {
    "The guild archive is open to inspection."@
}

pub open spec fn turned_down(r: KnowledgeOutcome, text: Seq<char>) -> bool {
    &&& !r.accepted
    &&& r.message@ == idle_message()
    &&& r.note is None
    &&& r.reason matches Some(s) && s@ == text
}

pub open spec fn unchanged(
    items: Seq<KnowledgeItem>,
    items2: Seq<KnowledgeItem>,
    known: Seq<String>,
    known2: Seq<String>,
    target_known: Seq<String>,
    target_known2: Seq<String>,
) -> bool {
    items2 == items && known2 == known && target_known2 == target_known
}

/// The outcome of a knowledge command, and the archive and field notes
/// it leaves.
pub open spec fn knowledge_post(
    items: Seq<KnowledgeItem>,
    items2: Seq<KnowledgeItem>,
    actor_id: Seq<char>,
    known: Seq<String>,
    known2: Seq<String>,
    target: LessonTarget,
    target_known: Seq<String>,
    target_known2: Seq<String>,
    req: KnowledgeRequest,
    r: KnowledgeOutcome,
) -> bool {
    let i = selected_item(items, req.knowledge_id);
    let same = unchanged(items, items2, known, known2, target_known, target_known2);
    match req.action {
        KnowledgeAction::Inspect => r.accepted && r.reason is None && r.note is None
            && r.message@ == idle_message() && same,
        KnowledgeAction::Discover => if i < 0 {
            turned_down(r, "That knowledge item is not discoverable in this settlement."@) && same
        } else if views(known).contains(items[i].knowledge_id@) {
            turned_down(r, "Your field notes already contain that knowledge."@) && same
        } else {
            &&& r.accepted && r.reason is None && r.note == Some(KnowledgeNote::Discovered)
            &&& r.message@ == items[i].effect@
            &&& views(known2) == views(known).push(items[i].knowledge_id@)
            &&& target_known2 == target_known
            &&& items2.len() == items.len()
            &&& forall|j: int| 0 <= j < items.len() && j != i ==> items2[j] == items[j]
            &&& items2[i] == KnowledgeItem { discovered_by: items2[i].discovered_by, ..items[i] }
            &&& views(items2[i].discovered_by@) == remember_spec(
                views(items[i].discovered_by@),
                actor_id,
            )
        },
        KnowledgeAction::Teach => if i < 0 {
            turned_down(r, "Name the knowledge item to teach."@) && same
        } else if req.target_account_id is None {
            turned_down(r, "Teaching needs a receiving account."@) && same
        } else if target == LessonTarget::Unregistered {
            turned_down(r, "The receiving player must have a recognised settlement account."@)
                && same
        } else if target == LessonTarget::Actor {
            turned_down(r, "A lesson needs another player to receive the technique."@) && same
        } else if !views(known).contains(items[i].knowledge_id@) {
            turned_down(r, "Discover or receive the knowledge before teaching it."@) && same
        } else if !items[i].teachable {
            turned_down(r, "This knowledge is useful but cannot be taught as a shortcut."@)
                && same
        } else {
            &&& r.accepted && r.reason is None && r.note == Some(KnowledgeNote::Taught)
            &&& r.message@ == "The receiving player can now apply the taught technique."@
            &&& items2 == items && known2 == known
            &&& views(target_known2) == remember_spec(views(target_known), items[i].knowledge_id@)
        },
        KnowledgeAction::Record => if i < 0 {
            turned_down(r, "Name the knowledge item to write into the archive."@) && same
        } else if !views(known).contains(items[i].knowledge_id@) {
            turned_down(r, "Only known knowledge can be written to the guild archive."@) && same
        } else if !items[i].writable {
            turned_down(r, "This clue is oral only and cannot be stored in the archive."@) && same
        } else {
            &&& r.accepted && r.reason is None && r.note == Some(KnowledgeNote::Recorded)
            &&& r.message@ == "The guild archive will preserve this technique for new players."@
            &&& known2 == known && target_known2 == target_known
            &&& items2.len() == items.len()
            &&& forall|j: int| 0 <= j < items.len() && j != i ==> items2[j] == items[j]
            &&& items2[i] == KnowledgeItem { stored_in: items2[i].stored_in, ..items[i] }
            &&& items2[i].stored_in@ == archive_location()
        },
        KnowledgeAction::Apply => if i < 0 {
            turned_down(r, "Name the knowledge item to apply."@) && same
        } else if !views(known).contains(items[i].knowledge_id@) {
            turned_down(r, "Discover or receive this knowledge before applying it."@) && same
        } else {
            &&& r.accepted && r.reason is None && r.note == Some(KnowledgeNote::Applied)
            &&& r.message@ == items[i].effect@
            &&& same
        },
    }
}

/// Whether a player sees an item in full: they know it, or it has been
/// written into the guild archive.
pub open spec fn visible_to(item: KnowledgeItem, known: Seq<String>) -> bool {
    views(known).contains(item.knowledge_id@) || has_infix(item.stored_in@, "guild archive"@)
}

/// `b` shows the same text and flags as `a`.
pub open spec fn same_item(a: KnowledgeItem, b: KnowledgeItem) -> bool {
    &&& b.knowledge_id@ == a.knowledge_id@
    &&& b.title@ == a.title@
    &&& b.kind == a.kind
    &&& b.description@ == a.description@
    &&& b.effect@ == a.effect@
    &&& b.teachable == a.teachable
    &&& b.writable == a.writable
    &&& views(b.discovered_by@) == views(a.discovered_by@)
    &&& b.stored_in@ == a.stored_in@
}

/// The placeholder shown in place of an item a player has not learned:
/// only its id and kind come through.
pub open spec fn redacted_as(a: KnowledgeItem, b: KnowledgeItem) -> bool {
    &&& b.knowledge_id@ == a.knowledge_id@
    &&& b.title@ == "Unrevealed field clue"@
    &&& b.kind == a.kind
    &&& b.description@ == "A discovery is waiting, but its method remains with the discoverer."@
    &&& b.effect@ == "Discover this clue through play or receive it from another player."@
    &&& !b.teachable
    &&& !b.writable
    &&& b.discovered_by@.len() == 0
    &&& b.stored_in@ == "Private field notes"@
}

// ---------------------------------------------------------------- helpers

proof fn lemma_first_with_id_bounds(items: Seq<KnowledgeItem>, id: Seq<char>)
    ensures
        -1 <= first_with_id(items, id) < items.len(),
        first_with_id(items, id) >= 0 ==> items[first_with_id(items, id)].knowledge_id@ == id,
    decreases items.len(),
{
    if items.len() > 0 && items[0].knowledge_id@ != id {
        lemma_first_with_id_bounds(items.drop_first(), id);
    }
}

/// The index of the item a selector names.
pub fn item_index(items: &Vec<KnowledgeItem>, id: &Option<String>) -> (r: Option<usize>)
    ensures
        match r {
            Some(i) => i as int == selected_item(items@, *id) && i < items@.len(),
            None => selected_item(items@, *id) < 0,
        },
{
    match id {
        None => if items.len() > 0 { Some(0) } else { None },
        Some(want) => {
            let n = items.len();
            let mut i: usize = 0;
            assert(items@.subrange(0, n as int) =~= items@);
            while i < n
                invariant
                    n == items@.len(),
                    i <= n,
                    *id == Some(*want),
                    first_with_id(items@, want@) == if first_with_id(
                        items@.subrange(i as int, n as int),
                        want@,
                    ) < 0 {
                        -1
                    } else {
                        first_with_id(items@.subrange(i as int, n as int), want@) + i
                    },
                decreases n - i,
            {
                let ghost rest = items@.subrange(i as int, n as int);
                assert(rest.drop_first() =~= items@.subrange(i + 1, n as int));
                if items[i].knowledge_id == *want {
                    assert(rest[0] == items@[i as int]);
                    assert(first_with_id(rest, want@) == 0);
                    assert(first_with_id(items@, want@) == i);
                    return Some(i);
                }
                i = i + 1;
            }
            proof {
                assert(items@.subrange(n as int, n as int).len() == 0);
            }
            None
        },
    }
}

fn turn_down(text: &str) -> (r: KnowledgeOutcome)
    ensures
        turned_down(r, text@),
{
    proof {
        reveal_strlit("The guild archive is open to inspection.");
    }
    KnowledgeOutcome {
        accepted: false,
        message: String::from_str("The guild archive is open to inspection."),
        reason: Some(text.to_owned()),
        note: None,
    }
}

fn accept(message: String, note: KnowledgeNote) -> (r: KnowledgeOutcome)
    ensures
        r.accepted && r.reason is None && r.note == Some(note) && r.message == message,
{
    KnowledgeOutcome { accepted: true, message, reason: None, note: Some(note) }
}

proof fn lemma_replace(s: Seq<KnowledgeItem>, i: int, x: KnowledgeItem)
    requires
        0 <= i < s.len(),
    ensures
        s.remove(i).insert(i, x) == s.update(i, x),
{
    assert(s.remove(i).insert(i, x) =~= s.update(i, x));
}

// ---------------------------------------------------------------- commands

/// Carries out one knowledge command for the player `actor_id`, whose field
/// notes are `known`. For a lesson, `target` is the registry's answer for
/// the named account and `target_known` that player's field notes.
pub fn knowledge_command(
    items: &mut Vec<KnowledgeItem>,
    actor_id: &String,
    known: &mut Vec<String>,
    target: LessonTarget,
    target_known: &mut Vec<String>,
    request: &KnowledgeRequest,
) -> (r: KnowledgeOutcome)
    ensures
        knowledge_post(
            old(items)@,
            final(items)@,
            actor_id@,
            old(known)@,
            final(known)@,
            target,
            old(target_known)@,
            final(target_known)@,
            *request,
            r,
        ),
{
    proof {
        if request.knowledge_id is Some {
            lemma_first_with_id_bounds(items@, request.knowledge_id->0@);
        }
    }
    if request.action == KnowledgeAction::Inspect {
        proof {
            reveal_strlit("The guild archive is open to inspection.");
        }
        return KnowledgeOutcome {
            accepted: true,
            message: String::from_str("The guild archive is open to inspection."),
            reason: None,
            note: None,
        };
    }
    let index = item_index(items, &request.knowledge_id);
    match request.action {
        KnowledgeAction::Discover => {
            let Some(i) = index else {
                return turn_down("That knowledge item is not discoverable in this settlement.");
            };
            let item_id = items[i].knowledge_id.clone();
            if contains_name(known, &item_id) {
                return turn_down("Your field notes already contain that knowledge.");
            }
            let ghost before = known@;
            known.push(item_id);
            assert(views(known@) =~= views(before).push(items@[i as int].knowledge_id@));
            let ghost old_items = items@;
            let mut item = items.remove(i);
            remember(&mut item.discovered_by, actor_id.clone());
            let message = item.effect.clone();
            items.insert(i, item);
            proof {
                lemma_replace(old_items, i as int, item);
            }
            accept(message, KnowledgeNote::Discovered)
        },
        KnowledgeAction::Teach => {
            let Some(i) = index else {
                return turn_down("Name the knowledge item to teach.");
            };
            if request.target_account_id.is_none() {
                return turn_down("Teaching needs a receiving account.");
            }
            if target == LessonTarget::Unregistered {
                return turn_down("The receiving player must have a recognised settlement account.");
            }
            if target == LessonTarget::Actor {
                return turn_down("A lesson needs another player to receive the technique.");
            }
            let item_id = items[i].knowledge_id.clone();
            if !contains_name(known, &item_id) {
                return turn_down("Discover or receive the knowledge before teaching it.");
            }
            if !items[i].teachable {
                return turn_down("This knowledge is useful but cannot be taught as a shortcut.");
            }
            remember(target_known, item_id);
            accept(
                String::from_str("The receiving player can now apply the taught technique."),
                KnowledgeNote::Taught,
            )
        },
        KnowledgeAction::Record => {
            let Some(i) = index else {
                return turn_down("Name the knowledge item to write into the archive.");
            };
            let item_id = items[i].knowledge_id.clone();
            if !contains_name(known, &item_id) {
                return turn_down("Only known knowledge can be written to the guild archive.");
            }
            if !items[i].writable {
                return turn_down("This clue is oral only and cannot be stored in the archive.");
            }
            let ghost old_items = items@;
            let mut item = items.remove(i);
            item.stored_in = String::from_str("The Hearth guild archive (written)");
            items.insert(i, item);
            proof {
                lemma_replace(old_items, i as int, item);
            }
            accept(
                String::from_str(
                    "The guild archive will preserve this technique for new players.",
                ),
                KnowledgeNote::Recorded,
            )
        },
        _ => {
            let Some(i) = index else {
                return turn_down("Name the knowledge item to apply.");
            };
            let item_id = items[i].knowledge_id.clone();
            if !contains_name(known, &item_id) {
                return turn_down("Discover or receive this knowledge before applying it.");
            }
            accept(items[i].effect.clone(), KnowledgeNote::Applied)
        },
    }
}

fn copy_names(v: &Vec<String>) -> (r: Vec<String>)
    ensures
        views(r@) == views(v@),
{
    let mut r: Vec<String> = Vec::new();
    for i in 0..v.len()
        invariant
            views(r@) == views(v@).take(i as int),
    {
        let ghost before = r@;
        let c = v[i].clone();
        r.push(c);
        assert(views(r@) =~= views(before).push(c@));
        assert(views(v@).take(i + 1) =~= views(v@).take(i as int).push(v@[i as int]@));
    }
    assert(views(v@).take(v@.len() as int) =~= views(v@));
    r
}

/// The archive as `known`'s holder sees it: each item in full where
/// [`visible_to`] holds, else its redacted placeholder.
pub fn knowledge_view(items: &Vec<KnowledgeItem>, known: &Vec<String>) -> (r: Vec<KnowledgeItem>)
    ensures
        r@.len() == items@.len(),
        forall|i: int|
            0 <= i < items@.len() ==> if visible_to(items@[i], known@) {
                same_item(items@[i], #[trigger] r@[i])
            } else {
                redacted_as(items@[i], r@[i])
            },
{
    proof {
        reveal_strlit("Unrevealed field clue");
        reveal_strlit("A discovery is waiting, but its method remains with the discoverer.");
        reveal_strlit("Discover this clue through play or receive it from another player.");
        reveal_strlit("Private field notes");
    }
    let mut r: Vec<KnowledgeItem> = Vec::new();
    for i in 0..items.len()
        invariant
            r@.len() == i,
            forall|j: int|
                0 <= j < i ==> if visible_to(items@[j], known@) {
                    same_item(items@[j], #[trigger] r@[j])
                } else {
                    redacted_as(items@[j], r@[j])
                },
    {
        let item = &items[i];
        let shown = contains_name(known, &item.knowledge_id) || contains_text(
            item.stored_in.as_str(),
            "guild archive",
        );
        let entry = if shown {
            KnowledgeItem {
                knowledge_id: item.knowledge_id.clone(),
                title: item.title.clone(),
                kind: item.kind,
                description: item.description.clone(),
                effect: item.effect.clone(),
                teachable: item.teachable,
                writable: item.writable,
                discovered_by: copy_names(&item.discovered_by),
                stored_in: item.stored_in.clone(),
            }
        } else {
            KnowledgeItem {
                knowledge_id: item.knowledge_id.clone(),
                title: String::from_str("Unrevealed field clue"),
                kind: item.kind,
                description: String::from_str(
                    "A discovery is waiting, but its method remains with the discoverer.",
                ),
                effect: String::from_str(
                    "Discover this clue through play or receive it from another player.",
                ),
                teachable: false,
                writable: false,
                discovered_by: Vec::new(),
                stored_in: String::from_str("Private field notes"),
            }
        };
        r.push(entry);
    }
    r
}

// ---------------------------------------------------------------- laws

/// Once an item is written into the guild archive, every player sees it in
/// full, whatever their own field notes hold.
pub proof fn lemma_recorded_item_is_public(
    items: Seq<KnowledgeItem>,
    items2: Seq<KnowledgeItem>,
    actor_id: Seq<char>,
    known: Seq<String>,
    known2: Seq<String>,
    target: LessonTarget,
    target_known: Seq<String>,
    target_known2: Seq<String>,
    req: KnowledgeRequest,
    r: KnowledgeOutcome,
    anyone: Seq<String>,
)
    requires
        knowledge_post(items, items2, actor_id, known, known2, target, target_known, target_known2, req, r),
        req.action == KnowledgeAction::Record,
        r.accepted,
    ensures
        visible_to(items2[selected_item(items, req.knowledge_id)], anyone),
{
    let i = selected_item(items, req.knowledge_id);
    reveal_strlit("The Hearth guild archive (written)");
    reveal_strlit("guild archive");
    let s = items2[i].stored_in@;
    assert(s.subrange(11, 24) =~= "guild archive"@);
    assert(crate::text::infix_at(s, "guild archive"@, 11));
}

/// No command writes a technique into a player's field notes twice.
pub proof fn lemma_field_notes_stay_distinct(
    items: Seq<KnowledgeItem>,
    items2: Seq<KnowledgeItem>,
    actor_id: Seq<char>,
    known: Seq<String>,
    known2: Seq<String>,
    target: LessonTarget,
    target_known: Seq<String>,
    target_known2: Seq<String>,
    req: KnowledgeRequest,
    r: KnowledgeOutcome,
)
    requires
        knowledge_post(items, items2, actor_id, known, known2, target, target_known, target_known2, req, r),
        distinct(views(known)),
        distinct(views(target_known)),
    ensures
        distinct(views(known2)),
        distinct(views(target_known2)),
{
    let i = selected_item(items, req.knowledge_id);
    if r.accepted && req.action == KnowledgeAction::Teach {
        lemma_remember_keeps_distinct(views(target_known), items[i].knowledge_id@);
    }
}

/// A command that is turned down leaves the archive and every player's
/// field notes as they were.
pub proof fn lemma_refusal_changes_nothing(
    items: Seq<KnowledgeItem>,
    items2: Seq<KnowledgeItem>,
    actor_id: Seq<char>,
    known: Seq<String>,
    known2: Seq<String>,
    target: LessonTarget,
    target_known: Seq<String>,
    target_known2: Seq<String>,
    req: KnowledgeRequest,
    r: KnowledgeOutcome,
)
    requires
        knowledge_post(items, items2, actor_id, known, known2, target, target_known, target_known2, req, r),
        !r.accepted,
    ensures
        items2 == items,
        known2 == known,
        target_known2 == target_known,
{
}

/// The kind, title and text of the chronicle entry an accepted knowledge
/// command writes; an applied technique is chronicled with the message it
/// answered.
pub open spec fn knowledge_entry_spec(note: KnowledgeNote, message: Seq<char>) -> (Seq<char>, Seq<char>, Seq<char>) {
    match note {
        KnowledgeNote::Discovered => (
            "knowledge discovered"@,
            "A useful truth is found and recorded"@,
            "A player discovered a technique that can be applied or taught server-authoritatively."@,
        ),
        KnowledgeNote::Taught => (
            "knowledge taught"@,
            "A useful truth crosses from one player to another"@,
            "The server recorded a teachable knowledge transfer in the settlement archive."@,
        ),
        KnowledgeNote::Recorded => (
            "knowledge recorded"@,
            "The guild archive keeps a lesson for later hands"@,
            "A discovered technique was written into the settlement record."@,
        ),
        KnowledgeNote::Applied => ("knowledge applied"@, "A recorded technique changes local work"@, message),
    }
}

/// The chronicle entry an accepted knowledge command writes.
pub fn knowledge_entry(note: KnowledgeNote, message: &str) -> (t: crate::chronicle::EntryText)
    ensures
        (t.kind@, t.title@, t.text@) == knowledge_entry_spec(note, message@),
{
    match note {
        KnowledgeNote::Discovered => crate::chronicle::entry_text(
            "knowledge discovered",
            "A useful truth is found and recorded",
            "A player discovered a technique that can be applied or taught server-authoritatively.",
        ),
        KnowledgeNote::Taught => crate::chronicle::entry_text(
            "knowledge taught",
            "A useful truth crosses from one player to another",
            "The server recorded a teachable knowledge transfer in the settlement archive.",
        ),
        KnowledgeNote::Recorded => crate::chronicle::entry_text(
            "knowledge recorded",
            "The guild archive keeps a lesson for later hands",
            "A discovered technique was written into the settlement record.",
        ),
        KnowledgeNote::Applied => crate::chronicle::entry_text(
            "knowledge applied",
            "A recorded technique changes local work",
            message,
        ),
    }
}

} // verus!
