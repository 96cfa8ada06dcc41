//! The local encounter at Whisperwood Edge: a short, readable fight whose
//! worst outcome is a bounded knockout. Stored property is never touched;
//! at most one carried seed is lost.
use crate::frontier::Position;
use crate::text::{decimal, numbered};
use vstd::prelude::*;
use vstd::string::*;

verus! {

/// Health the Brambleback scout starts each encounter with.
pub const ENEMY_START_HEALTH: u8 = 3;

/// Health a fighter starts each encounter with, and the most a bandage
/// restores to.
pub const PLAYER_START_HEALTH: u8 = 2;

/// The most injuries a knockout can leave a fighter with.
pub const INJURY_LIMIT: u8 = 3;

/// What recovering from a knockout costs.
pub const KNOCKOUT_RECOVERY_COST: u32 = 4;

#[derive(Debug, Clone, Copy, PartialEq, Eq, Structural)]
pub enum WeaponKind {
    IronSword,
    Spear,
    Axe,
    Bow,
    Shield,
    ImprovisedClub,
}

#[derive(Debug, Clone, Copy, PartialEq, Eq, Structural)]
pub enum LocalCombatStatus {
    Ready,
    Engaged,
    Victorious,
    Retreated,
    KnockedOut,
}

#[derive(Debug, Clone, Copy, PartialEq, Eq, Structural)]
pub enum LocalCombatAction {
    Prepare,
    Strike,
    Technique,
    Guard,
    UseItem,
    Reposition,
    CastSpell,
    Retreat,
}

#[derive(Debug, Clone)]
pub struct LocalCombatState {
    pub encounter_id: String,
    pub enemy_name: String,
    pub enemy_health: u8,
    pub player_health: u8,
    pub turn: u32,
    pub status: LocalCombatStatus,
    pub weapon: WeaponKind,
    pub injury_limit: u8,
    pub stored_property_safe: bool,
    pub carried_risk: String,
    pub recovery_cost: u32,
    pub reposition_ready: bool,
    pub spell_ready: bool,
    pub action_available_at_tick: u64,
}

/// What of a player an encounter can change.
#[derive(Debug, Clone, Copy, PartialEq, Eq, Structural)]
pub struct Combatant {
    pub position: Position,
    pub gold: u32,
    pub skill: u32,
    pub bandages: u32,
    pub seeds: u32,
    pub knocked_out: bool,
    pub injuries: u8,
    pub recovery_cost: u32,
}

#[derive(Debug, Clone, Copy, PartialEq, Eq, Structural)]
pub struct LocalCombatRequest {
    pub action: LocalCombatAction,
    pub weapon: WeaponKind,
}

/// The chronicle entry an accepted action asks for.
#[derive(Debug, Clone, Copy, PartialEq, Eq, Structural)]
pub enum CombatNote {
    Retreat,
    Victory,
    Knockout,
}

/// The skill an accepted action practises.
#[derive(Debug, Clone, Copy, PartialEq, Eq, Structural)]
pub enum CombatPractice {
    /// The weapon's own fighting skill, with a defeat recorded for it.
    WeaponVictory(WeaponKind),
    /// Wind magic, practised by every accepted cast of the wind spark.
    WindMagic,
}

#[derive(Debug, Clone)]
pub struct CombatOutcome {
    pub accepted: bool,
    pub prompt: String,
    pub reason: Option<String>,
    pub note: Option<CombatNote>,
    pub practice: Option<CombatPractice>,
}

// ---------------------------------------------------------------- specs

/// The damage a weapon is listed with.
pub open spec fn listed_damage(w: WeaponKind) -> u8 {
    match w {
        WeaponKind::Spear | WeaponKind::Axe => 3,
        WeaponKind::IronSword | WeaponKind::Bow => 2,
        WeaponKind::Shield | WeaponKind::ImprovisedClub => 1,
    }
}

/// A plain strike deals the listed damage kept within 1..=2.
pub open spec fn strike_damage(w: WeaponKind) -> u8 {
    let d = listed_damage(w);
    if d < 1 { 1 } else if d > 2 { 2 } else { d }
}

/// The opening technique of a weapon.
pub open spec fn technique_damage_spec(w: WeaponKind) -> u8 {
    match w {
        WeaponKind::Spear | WeaponKind::Axe => 3,
        WeaponKind::IronSword | WeaponKind::Bow => 2,
        WeaponKind::Shield | WeaponKind::ImprovisedClub => 1,
    }
}

/// What the wind spark deals.
pub open spec fn spell_damage() -> u8 {
    2
}

pub open spec fn weapon_label(w: WeaponKind) -> Seq<char> {
    match w {
        WeaponKind::IronSword => "iron sword"@,
        WeaponKind::Spear => "spear"@,
        WeaponKind::Axe => "axe"@,
        WeaponKind::Bow => "bow"@,
        WeaponKind::Shield => "shield"@,
        WeaponKind::ImprovisedClub => "improvised club"@,
    }
}

/// Weapons too light to keep the threat from answering.
pub open spec fn is_light(w: WeaponKind) -> bool {
    w == WeaponKind::ImprovisedClub || w == WeaponKind::Shield
}

pub open spec fn abs_diff(a: i32, b: i32) -> int {
    if a >= b { a - b } else { b - a }
}

/// Within two steps (by Manhattan distance) of the encounter.
pub open spec fn near_encounter(p: Position, zone: Position) -> bool {
    abs_diff(p.x, zone.x) + abs_diff(p.y, zone.y) <= 2
}

pub open spec fn sat_add_u64(a: u64, b: u64) -> u64 {
    if a + b > u64::MAX { u64::MAX } else { (a + b) as u64 }
}

pub open spec fn sat_add_u32(a: u32, b: u32) -> u32 {
    if a + b > u32::MAX { u32::MAX } else { (a + b) as u32 }
}

pub open spec fn sat_sub_u8(a: u8, b: u8) -> u8 {
    if a >= b { (a - b) as u8 } else { 0 }
}

pub open spec fn next_turn(t: u32) -> u32 {
    sat_add_u32(t, 1)
}

/// An encounter as it stands before anyone has prepared for it.
pub open spec fn is_fresh_encounter(c: LocalCombatState) -> bool {
    &&& c.encounter_id@ == "whisperwood-local-1"@
    &&& c.enemy_name@ == "Brambleback scout"@
    &&& c.enemy_health == ENEMY_START_HEALTH
    &&& c.player_health == PLAYER_START_HEALTH
    &&& c.turn == 0
    &&& c.status == LocalCombatStatus::Ready
    &&& c.weapon == WeaponKind::ImprovisedClub
    &&& c.injury_limit == INJURY_LIMIT
    &&& c.stored_property_safe
    &&& c.carried_risk@
        == "At most one carried seed is risked on knockout; the choice is shown first."@
    &&& c.recovery_cost == KNOCKOUT_RECOVERY_COST
    &&& !c.reposition_ready
    &&& c.spell_ready
    &&& c.action_available_at_tick == 0
}

pub open spec fn idle_prompt() -> Seq<char> {
    "Tap PREPARE before choosing a weapon; stored property is safe."@
}

/// The action was turned down with `text`, and nothing changed.
pub open spec fn turned_down(
    c: LocalCombatState,
    c2: LocalCombatState,
    p: Combatant,
    p2: Combatant,
    r: CombatOutcome,
    text: Seq<char>,
) -> bool {
    &&& !r.accepted
    &&& r.prompt@ == idle_prompt()
    &&& r.note is None
    &&& r.practice is None
    &&& r.reason matches Some(s) && s@ == text
    &&& c2 == c
    &&& p2 == p
}

pub open spec fn accepted_with(r: CombatOutcome, prompt: Seq<char>) -> bool {
    r.accepted && r.reason is None && r.prompt@ == prompt
}

/// The text that asks a fighter to wait for the server's next beat.
pub open spec fn wait_text(at: u64) -> Seq<char> {
    "The encounter answers on server beat "@ + decimal(at as nat)
        + "; wait for it before acting again."@
}

/// The refusal of an action that needs an engaged encounter.
pub open spec fn not_engaged_text(a: LocalCombatAction) -> Seq<char> {
    match a {
        LocalCombatAction::Guard => "Prepare the local encounter before guarding."@,
        LocalCombatAction::UseItem => "Prepare the local encounter before using a bandage."@,
        LocalCombatAction::Reposition => "Prepare the local encounter before repositioning."@,
        LocalCombatAction::CastSpell => "Prepare the local encounter before casting."@,
        _ => "Prepare the local encounter before striking."@,
    }
}

/// Preparing for the encounter.
pub open spec fn prepare_post(
    c: LocalCombatState,
    c2: LocalCombatState,
    p: Combatant,
    p2: Combatant,
    zone: Position,
    tick: u64,
    cooldown: u64,
    w: WeaponKind,
    r: CombatOutcome,
) -> bool {
    if p.knocked_out {
        turned_down(
            c,
            c2,
            p,
            p2,
            r,
            "Complete a recovery choice before preparing for another encounter."@,
        )
    } else if !near_encounter(p.position, zone) {
        turned_down(
            c,
            c2,
            p,
            p2,
            r,
            "Stand near Whisperwood Edge before preparing for the local encounter."@,
        )
    } else {
        let finished = c.status == LocalCombatStatus::Victorious || c.status
            == LocalCombatStatus::Retreated || c.status == LocalCombatStatus::KnockedOut;
        &&& r.note is None && r.practice is None
        &&& p2 == p
        &&& c2.status == LocalCombatStatus::Engaged
        &&& c2.weapon == w
        &&& c2.action_available_at_tick == sat_add_u64(tick, cooldown)
        &&& if finished {
            &&& is_fresh_encounter(
                LocalCombatState {
                    status: LocalCombatStatus::Ready,
                    weapon: WeaponKind::ImprovisedClub,
                    action_available_at_tick: 0,
                    ..c2
                },
            )
            &&& accepted_with(
                r,
                "The encounter is ready with the "@ + weapon_label(w)
                    + ". Tap TECHNIQUE, STRIKE, GUARD, or RETREAT."@,
            )
        } else {
            &&& c2 == LocalCombatState {
                status: LocalCombatStatus::Engaged,
                weapon: w,
                action_available_at_tick: sat_add_u64(tick, cooldown),
                ..c
            }
            &&& accepted_with(
                r,
                "The local threat is watching your "@ + weapon_label(w)
                    + ". Tap TECHNIQUE, STRIKE, GUARD, or RETREAT."@,
            )
        }
    }
}

/// Leaving an engaged encounter.
pub open spec fn retreat_post(
    c: LocalCombatState,
    c2: LocalCombatState,
    p: Combatant,
    p2: Combatant,
    r: CombatOutcome,
) -> bool {
    if c.status != LocalCombatStatus::Engaged {
        turned_down(c, c2, p, p2, r, "There is no active local encounter to retreat from."@)
    } else {
        &&& accepted_with(
            r,
            "You retreated; no stored property was touched. Prepare again when ready."@,
        )
        &&& r.note == Some(CombatNote::Retreat) && r.practice is None
        &&& c2 == LocalCombatState { status: LocalCombatStatus::Retreated, ..c }
        &&& p2 == p
    }
}

/// The engaged state after an accepted turn-taking action.
pub open spec fn took_turn(c: LocalCombatState, tick: u64, cooldown: u64) -> LocalCombatState {
    LocalCombatState {
        turn: next_turn(c.turn),
        action_available_at_tick: sat_add_u64(tick, cooldown),
        ..c
    }
}

/// The fighter after a victory: three gold and a point of skill.
pub open spec fn rewarded(p: Combatant) -> Combatant {
    Combatant { gold: sat_add_u32(p.gold, 3), skill: sat_add_u32(p.skill, 1), ..p }
}

/// The fighter after a knockout: sent home, injured, owing the recovery
/// cost, and short at most one carried seed.
pub open spec fn knocked_out_as(p: Combatant) -> Combatant {
    Combatant {
        knocked_out: true,
        injuries: if p.injuries >= INJURY_LIMIT { INJURY_LIMIT } else { (p.injuries + 1) as u8 },
        recovery_cost: KNOCKOUT_RECOVERY_COST,
        position: Position { x: 8, y: 5 },
        seeds: if p.seeds > 0 { (p.seeds - 1) as u32 } else { 0 },
        ..p
    }
}

/// What a blow that left the threat at `hit.enemy_health` leads to: a
/// victory, the threat's answer, or nothing more.
pub open spec fn blow_post(
    hit: LocalCombatState,
    c2: LocalCombatState,
    p: Combatant,
    p2: Combatant,
    answered: bool,
    practice_on_win: CombatPractice,
    practice_quiet: Option<CombatPractice>,
    quiet_prompt: Seq<char>,
    r: CombatOutcome,
) -> bool {
    if hit.enemy_health == 0 {
        &&& c2 == LocalCombatState { status: LocalCombatStatus::Victorious, ..hit }
        &&& p2 == rewarded(p)
        &&& accepted_with(r, "Victory. The road is safer; stored property remained safe."@)
        &&& r.note == Some(CombatNote::Victory)
        &&& r.practice == Some(practice_on_win)
    } else if answered && hit.reposition_ready {
        &&& c2 == LocalCombatState { reposition_ready: false, ..hit }
        &&& p2 == p
        &&& accepted_with(
            r,
            "Your new footing turns the threat's answer aside. STRIKE again or RETREAT."@,
        )
        &&& r.note is None && r.practice is None
    } else if answered {
        let h = sat_sub_u8(hit.player_health, 1);
        if h == 0 {
            &&& c2 == LocalCombatState {
                player_health: 0,
                status: LocalCombatStatus::KnockedOut,
                reposition_ready: false,
                ..hit
            }
            &&& p2 == knocked_out_as(p)
            &&& accepted_with(
                r,
                "Knockout. Choose the visible recovery action; carried risk is one seed at most and stored property is safe."@,
            )
            &&& r.note == Some(CombatNote::Knockout) && r.practice is None
        } else {
            &&& c2 == LocalCombatState { player_health: h, reposition_ready: false, ..hit }
            &&& p2 == p
            &&& accepted_with(
                r,
                "The threat answered. Your bounded injury is visible; STRIKE again or RETREAT."@,
            )
            &&& r.note is None && r.practice is None
        }
    } else {
        &&& c2 == LocalCombatState { reposition_ready: false, ..hit }
        &&& p2 == p
        &&& accepted_with(r, quiet_prompt)
        &&& r.note is None && r.practice == practice_quiet
    }
}

/// An action taken inside an engaged encounter, once it is let through.
pub open spec fn engaged_post(
    c: LocalCombatState,
    c2: LocalCombatState,
    p: Combatant,
    p2: Combatant,
    tick: u64,
    cooldown: u64,
    req: LocalCombatRequest,
    r: CombatOutcome,
) -> bool {
    let t = took_turn(c, tick, cooldown);
    match req.action {
        LocalCombatAction::Guard => {
            &&& accepted_with(
                r,
                "Your guard holds. The threat has not advanced; choose STRIKE or RETREAT."@,
            )
            &&& r.note is None && r.practice is None
            &&& c2 == t && p2 == p
        },
        LocalCombatAction::UseItem => if c.player_health >= PLAYER_START_HEALTH {
            turned_down(c, c2, p, p2, r, "A bandage is only needed after an injury."@)
        } else if p.bandages == 0 {
            turned_down(
                c,
                c2,
                p,
                p2,
                r,
                "The bandage pouch is empty; commission or trade for another."@,
            )
        } else {
            &&& accepted_with(
                r,
                "The bandage closes the injury. Choose STRIKE, GUARD, or RETREAT."@,
            )
            &&& r.note is None && r.practice is None
            &&& c2 == LocalCombatState { player_health: (c.player_health + 1) as u8, ..t }
            &&& p2 == Combatant { bandages: (p.bandages - 1) as u32, ..p }
        },
        LocalCombatAction::Reposition => {
            &&& accepted_with(
                r,
                "You step onto firmer ground; the threat's next answer will miss. Choose STRIKE or RETREAT."@,
            )
            &&& r.note is None && r.practice is None
            &&& c2 == LocalCombatState { reposition_ready: true, ..t }
            &&& p2 == p
        },
        LocalCombatAction::CastSpell => if !c.spell_ready {
            turned_down(
                c,
                c2,
                p,
                p2,
                r,
                "The wind spark is spent for this encounter; choose STRIKE, GUARD, or RETREAT."@,
            )
        } else {
            let hit = LocalCombatState {
                spell_ready: false,
                enemy_health: sat_sub_u8(c.enemy_health, spell_damage()),
                ..t
            };
            blow_post(
                hit,
                c2,
                p,
                p2,
                false,
                CombatPractice::WindMagic,
                Some(CombatPractice::WindMagic),
                "The wind spark staggers the threat. Choose STRIKE, GUARD, or RETREAT."@,
                r,
            )
        },
        _ => if req.action == LocalCombatAction::Technique && c.turn > 0 {
            turned_down(
                c,
                c2,
                p,
                p2,
                r,
                "The opening for that weapon technique has passed; choose STRIKE or GUARD."@,
            )
        } else {
            let technique = req.action == LocalCombatAction::Technique;
            let damage = if technique {
                technique_damage_spec(req.weapon)
            } else {
                strike_damage(req.weapon)
            };
            let hit = LocalCombatState {
                weapon: req.weapon,
                enemy_health: sat_sub_u8(c.enemy_health, damage),
                ..t
            };
            blow_post(
                hit,
                c2,
                p,
                p2,
                is_light(req.weapon) || t.turn > 2,
                CombatPractice::WeaponVictory(req.weapon),
                None,
                if technique {
                    "Your "@ + weapon_label(req.weapon)
                        + " technique opens the threat's guard. Choose STRIKE, GUARD, or RETREAT."@
                } else {
                    "Your "@ + weapon_label(req.weapon)
                        + " lands cleanly. The threat is still standing; choose STRIKE or RETREAT."@
                },
                r,
            )
        },
    }
}

/// The outcome of any local combat action.
pub open spec fn combat_post(
    c: LocalCombatState,
    c2: LocalCombatState,
    p: Combatant,
    p2: Combatant,
    zone: Position,
    tick: u64,
    cooldown: u64,
    req: LocalCombatRequest,
    r: CombatOutcome,
) -> bool {
    match req.action {
        LocalCombatAction::Prepare => prepare_post(c, c2, p, p2, zone, tick, cooldown, req.weapon, r),
        LocalCombatAction::Retreat => retreat_post(c, c2, p, p2, r),
        _ => if c.status != LocalCombatStatus::Engaged {
            turned_down(c, c2, p, p2, r, not_engaged_text(req.action))
        } else if !near_encounter(p.position, zone) {
            turned_down(c, c2, p, p2, r, "Stand near Whisperwood Edge to act in the local encounter."@)
        } else if tick < c.action_available_at_tick {
            turned_down(c, c2, p, p2, r, wait_text(c.action_available_at_tick))
        } else {
            engaged_post(c, c2, p, p2, tick, cooldown, req, r)
        },
    }
}

// ---------------------------------------------------------------- helpers

/// An encounter that nobody has prepared for yet.
pub fn default_combat() -> (c: LocalCombatState)
    ensures
        is_fresh_encounter(c),
{
    LocalCombatState {
        encounter_id: String::from_str("whisperwood-local-1"),
        enemy_name: String::from_str("Brambleback scout"),
        enemy_health: ENEMY_START_HEALTH,
        player_health: PLAYER_START_HEALTH,
        turn: 0,
        status: LocalCombatStatus::Ready,
        weapon: WeaponKind::ImprovisedClub,
        injury_limit: INJURY_LIMIT,
        stored_property_safe: true,
        carried_risk: String::from_str(
            "At most one carried seed is risked on knockout; the choice is shown first.",
        ),
        recovery_cost: KNOCKOUT_RECOVERY_COST,
        reposition_ready: false,
        spell_ready: true,
        action_available_at_tick: 0,
    }
}

/// The damage of a weapon's opening technique.
pub fn technique_damage(w: WeaponKind) -> (d: u8)
    ensures
        d == technique_damage_spec(w),
{
    match w {
        WeaponKind::Spear | WeaponKind::Axe => 3,
        WeaponKind::IronSword | WeaponKind::Bow => 2,
        WeaponKind::Shield | WeaponKind::ImprovisedClub => 1,
    }
}

/// The damage a weapon is listed with.
pub fn weapon_damage(w: WeaponKind) -> (d: u8)
    ensures
        d == listed_damage(w),
{
    match w {
        WeaponKind::Spear | WeaponKind::Axe => 3,
        WeaponKind::IronSword | WeaponKind::Bow => 2,
        WeaponKind::Shield | WeaponKind::ImprovisedClub => 1,
    }
}

pub fn label(w: WeaponKind) -> (s: &'static str)
    ensures
        s@ == weapon_label(w),
{
    match w {
        WeaponKind::IronSword => "iron sword",
        WeaponKind::Spear => "spear",
        WeaponKind::Axe => "axe",
        WeaponKind::Bow => "bow",
        WeaponKind::Shield => "shield",
        WeaponKind::ImprovisedClub => "improvised club",
    }
}

/// Whether `p` stands within two steps of `zone`.
pub fn is_near_encounter(p: Position, zone: Position) -> (r: bool)
    ensures
        r == near_encounter(p, zone),
{
    let dx: i64 = if p.x >= zone.x { p.x as i64 - zone.x as i64 } else { zone.x as i64 - p.x as i64 };
    let dy: i64 = if p.y >= zone.y { p.y as i64 - zone.y as i64 } else { zone.y as i64 - p.y as i64 };
    dx + dy <= 2
}

fn turn_down(text: String) -> (r: CombatOutcome)
    ensures
        !r.accepted && r.prompt@ == idle_prompt() && r.note is None && r.practice is None
            && r.reason == Some(text),
{
    CombatOutcome {
        accepted: false,
        prompt: String::from_str("Tap PREPARE before choosing a weapon; stored property is safe."),
        reason: Some(text),
        note: None,
        practice: None,
    }
}

fn accept(prompt: String, note: Option<CombatNote>, practice: Option<CombatPractice>) -> (r:
    CombatOutcome)
    ensures
        r.accepted && r.reason is None && r.prompt == prompt && r.note == note && r.practice
            == practice,
{
    CombatOutcome { accepted: true, prompt, reason: None, note, practice }
}

/// The prompt `head` + the weapon's label + `tail`.
fn labelled(head: &str, w: WeaponKind, tail: &str) -> (s: String)
    ensures
        s@ == head@ + weapon_label(w) + tail@,
{
    String::from_str(head).concat(label(w)).concat(tail)
}

fn wait_reason(at: u64) -> (s: String)
    ensures
        s@ == wait_text(at),
{
    numbered("The encounter answers on server beat ", at).concat(
        "; wait for it before acting again.",
    )
}

fn not_engaged_reason(a: LocalCombatAction) -> (s: String)
    ensures
        s@ == not_engaged_text(a),
{
    match a {
        LocalCombatAction::Guard => String::from_str("Prepare the local encounter before guarding."),
        LocalCombatAction::UseItem => String::from_str(
            "Prepare the local encounter before using a bandage.",
        ),
        LocalCombatAction::Reposition => String::from_str(
            "Prepare the local encounter before repositioning.",
        ),
        LocalCombatAction::CastSpell => String::from_str(
            "Prepare the local encounter before casting.",
        ),
        _ => String::from_str("Prepare the local encounter before striking."),
    }
}

// ---------------------------------------------------------------- actions

fn prepare(
    combat: &mut LocalCombatState,
    player: &Combatant,
    zone: Position,
    tick: u64,
    cooldown: u64,
    w: WeaponKind,
) -> (r: CombatOutcome)
    ensures
        prepare_post(*old(combat), *final(combat), *player, *player, zone, tick, cooldown, w, r),
{
    if player.knocked_out {
        return turn_down(
            String::from_str("Complete a recovery choice before preparing for another encounter."),
        );
    }
    if !is_near_encounter(player.position, zone) {
        return turn_down(
            String::from_str("Stand near Whisperwood Edge before preparing for the local encounter."),
        );
    }
    let finished = combat.status == LocalCombatStatus::Victorious || combat.status
        == LocalCombatStatus::Retreated || combat.status == LocalCombatStatus::KnockedOut;
    let prompt = if finished {
        *combat = default_combat();
        labelled("The encounter is ready with the ", w, ". Tap TECHNIQUE, STRIKE, GUARD, or RETREAT.")
    } else {
        labelled("The local threat is watching your ", w, ". Tap TECHNIQUE, STRIKE, GUARD, or RETREAT.")
    };
    combat.status = LocalCombatStatus::Engaged;
    combat.weapon = w;
    combat.action_available_at_tick = tick.saturating_add(cooldown);
    accept(prompt, None, None)
}

fn retreat(combat: &mut LocalCombatState, player: &Combatant) -> (r: CombatOutcome)
    ensures
        retreat_post(*old(combat), *final(combat), *player, *player, r),
{
    if combat.status != LocalCombatStatus::Engaged {
        return turn_down(String::from_str("There is no active local encounter to retreat from."));
    }
    combat.status = LocalCombatStatus::Retreated;
    accept(
        String::from_str(
            "You retreated; no stored property was touched. Prepare again when ready.",
        ),
        Some(CombatNote::Retreat),
        None,
    )
}

/// Settles a blow that left the threat at `combat.enemy_health`.
fn settle_blow(
    combat: &mut LocalCombatState,
    player: &mut Combatant,
    answered: bool,
    practice_on_win: CombatPractice,
    practice_quiet: Option<CombatPractice>,
    quiet_prompt: String,
) -> (r: CombatOutcome)
    ensures
        blow_post(
            *old(combat),
            *final(combat),
            *old(player),
            *final(player),
            answered,
            practice_on_win,
            practice_quiet,
            quiet_prompt@,
            r,
        ),
{
    if combat.enemy_health == 0 {
        combat.status = LocalCombatStatus::Victorious;
        player.gold = player.gold.saturating_add(3);
        player.skill = player.skill.saturating_add(1);
        return accept(
            String::from_str("Victory. The road is safer; stored property remained safe."),
            Some(CombatNote::Victory),
            Some(practice_on_win),
        );
    }
    if answered && combat.reposition_ready {
        combat.reposition_ready = false;
        return accept(
            String::from_str(
                "Your new footing turns the threat's answer aside. STRIKE again or RETREAT.",
            ),
            None,
            None,
        );
    }
    combat.reposition_ready = false;
    if !answered {
        return accept(quiet_prompt, None, practice_quiet);
    }
    combat.player_health = combat.player_health.saturating_sub(1);
    if combat.player_health == 0 {
        combat.status = LocalCombatStatus::KnockedOut;
        player.knocked_out = true;
        player.injuries = if player.injuries >= INJURY_LIMIT {
            INJURY_LIMIT
        } else {
            player.injuries + 1
        };
        player.recovery_cost = KNOCKOUT_RECOVERY_COST;
        player.position = Position { x: 8, y: 5 };
        if player.seeds > 0 {
            player.seeds = player.seeds - 1;
        }
        return accept(
            String::from_str(
                "Knockout. Choose the visible recovery action; carried risk is one seed at most and stored property is safe.",
            ),
            Some(CombatNote::Knockout),
            None,
        );
    }
    accept(
        String::from_str(
            "The threat answered. Your bounded injury is visible; STRIKE again or RETREAT.",
        ),
        None,
        None,
    )
}

fn engaged_action(
    combat: &mut LocalCombatState,
    player: &mut Combatant,
    tick: u64,
    cooldown: u64,
    request: &LocalCombatRequest,
) -> (r: CombatOutcome)
    ensures
        engaged_post(*old(combat), *final(combat), *old(player), *final(player), tick, cooldown, *request, r),
{
    match request.action {
        LocalCombatAction::UseItem => {
            if combat.player_health >= PLAYER_START_HEALTH {
                return turn_down(String::from_str("A bandage is only needed after an injury."));
            }
            if player.bandages == 0 {
                return turn_down(
                    String::from_str("The bandage pouch is empty; commission or trade for another."),
                );
            }
        },
        LocalCombatAction::CastSpell => {
            if !combat.spell_ready {
                return turn_down(
                    String::from_str(
                        "The wind spark is spent for this encounter; choose STRIKE, GUARD, or RETREAT.",
                    ),
                );
            }
        },
        LocalCombatAction::Technique => {
            if combat.turn > 0 {
                return turn_down(
                    String::from_str(
                        "The opening for that weapon technique has passed; choose STRIKE or GUARD.",
                    ),
                );
            }
        },
        _ => {},
    }
    combat.turn = combat.turn.saturating_add(1);
    combat.action_available_at_tick = tick.saturating_add(cooldown);
    match request.action {
        LocalCombatAction::Guard => accept(
            String::from_str(
                "Your guard holds. The threat has not advanced; choose STRIKE or RETREAT.",
            ),
            None,
            None,
        ),
        LocalCombatAction::UseItem => {
            player.bandages = player.bandages - 1;
            combat.player_health = combat.player_health + 1;
            accept(
                String::from_str(
                    "The bandage closes the injury. Choose STRIKE, GUARD, or RETREAT.",
                ),
                None,
                None,
            )
        },
        LocalCombatAction::Reposition => {
            combat.reposition_ready = true;
            accept(
                String::from_str(
                    "You step onto firmer ground; the threat's next answer will miss. Choose STRIKE or RETREAT.",
                ),
                None,
                None,
            )
        },
        LocalCombatAction::CastSpell => {
            combat.spell_ready = false;
            combat.enemy_health = combat.enemy_health.saturating_sub(2);
            settle_blow(
                combat,
                player,
                false,
                CombatPractice::WindMagic,
                Some(CombatPractice::WindMagic),
                String::from_str(
                    "The wind spark staggers the threat. Choose STRIKE, GUARD, or RETREAT.",
                ),
            )
        },
        _ => {
            let technique = request.action == LocalCombatAction::Technique;
            let w = request.weapon;
            let damage = if technique {
                technique_damage(w)
            } else {
                let d = weapon_damage(w);
                if d < 1 { 1 } else if d > 2 { 2 } else { d }
            };
            combat.weapon = w;
            combat.enemy_health = combat.enemy_health.saturating_sub(damage);
            let answered = w == WeaponKind::ImprovisedClub || w == WeaponKind::Shield
                || combat.turn > 2;
            let quiet = if technique {
                labelled(
                    "Your ",
                    w,
                    " technique opens the threat's guard. Choose STRIKE, GUARD, or RETREAT.",
                )
            } else {
                labelled(
                    "Your ",
                    w,
                    " lands cleanly. The threat is still standing; choose STRIKE or RETREAT.",
                )
            };
            settle_blow(combat, player, answered, CombatPractice::WeaponVictory(w), None, quiet)
        },
    }
}

/// Carries out one local combat action for `player`, with the encounter
/// at `zone`, on server beat `tick`; an accepted action opens the next
/// window `cooldown` beats later.
pub fn local_combat(
    combat: &mut LocalCombatState,
    player: &mut Combatant,
    zone: Position,
    tick: u64,
    cooldown: u64,
    request: &LocalCombatRequest,
) -> (r: CombatOutcome)
    ensures
        combat_post(*old(combat), *final(combat), *old(player), *final(player), zone, tick, cooldown, *request, r),
{
    match request.action {
        LocalCombatAction::Prepare => prepare(combat, player, zone, tick, cooldown, request.weapon),
        LocalCombatAction::Retreat => retreat(combat, player),
        _ => {
            if combat.status != LocalCombatStatus::Engaged {
                return turn_down(not_engaged_reason(request.action));
            }
            if !is_near_encounter(player.position, zone) {
                return turn_down(
                    String::from_str("Stand near Whisperwood Edge to act in the local encounter."),
                );
            }
            if tick < combat.action_available_at_tick {
                return turn_down(wait_reason(combat.action_available_at_tick));
            }
            engaged_action(combat, player, tick, cooldown, request)
        },
    }
}

// ---------------------------------------------------------------- laws

/// Health and injuries stay within their limits whatever a fighter does.
pub proof fn lemma_combat_keeps_bounds(
    c: LocalCombatState,
    c2: LocalCombatState,
    p: Combatant,
    p2: Combatant,
    zone: Position,
    tick: u64,
    cooldown: u64,
    req: LocalCombatRequest,
    r: CombatOutcome,
)
    requires
        combat_post(c, c2, p, p2, zone, tick, cooldown, req, r),
        c.player_health <= PLAYER_START_HEALTH,
        c.enemy_health <= ENEMY_START_HEALTH,
        p.injuries <= INJURY_LIMIT,
    ensures
        c2.player_health <= PLAYER_START_HEALTH,
        c2.enemy_health <= ENEMY_START_HEALTH,
        p2.injuries <= INJURY_LIMIT,
{
}

/// An encounter risks nothing a player has stored and at most one carried
/// seed: gold and skill never fall, and a bandage is the only other thing
/// spent.
pub proof fn lemma_carried_risk_is_bounded(
    c: LocalCombatState,
    c2: LocalCombatState,
    p: Combatant,
    p2: Combatant,
    zone: Position,
    tick: u64,
    cooldown: u64,
    req: LocalCombatRequest,
    r: CombatOutcome,
)
    requires
        combat_post(c, c2, p, p2, zone, tick, cooldown, req, r),
    ensures
        p2.gold >= p.gold,
        p2.skill >= p.skill,
        p2.seeds + 1 >= p.seeds,
        p2.seeds <= p.seeds,
        p2.bandages + 1 >= p.bandages,
        p2.bandages <= p.bandages,
        p2.seeds < p.seeds ==> r.note == Some(CombatNote::Knockout),
{
}

/// An action that is turned down changes neither the encounter nor the
/// fighter.
pub proof fn lemma_refusal_changes_nothing(
    c: LocalCombatState,
    c2: LocalCombatState,
    p: Combatant,
    p2: Combatant,
    zone: Position,
    tick: u64,
    cooldown: u64,
    req: LocalCombatRequest,
    r: CombatOutcome,
)
    requires
        combat_post(c, c2, p, p2, zone, tick, cooldown, req, r),
        !r.accepted,
    ensures
        c2 == c,
        p2 == p,
{
}

/// A knocked-out fighter cannot start another encounter before recovering,
/// wherever they stand: the refusal names the recovery choice.
pub proof fn lemma_knockout_blocks_preparing(
    c: LocalCombatState,
    c2: LocalCombatState,
    p: Combatant,
    p2: Combatant,
    zone: Position,
    tick: u64,
    cooldown: u64,
    req: LocalCombatRequest,
    r: CombatOutcome,
)
    requires
        combat_post(c, c2, p, p2, zone, tick, cooldown, req, r),
        p.knocked_out,
        req.action == LocalCombatAction::Prepare,
    ensures
        !r.accepted,
        c2 == c,
        r.reason matches Some(s) && s@
            == "Complete a recovery choice before preparing for another encounter."@,
{
}

/// No action is taken before the server's window for it opens.
pub proof fn lemma_actions_wait_for_the_window(
    c: LocalCombatState,
    c2: LocalCombatState,
    p: Combatant,
    p2: Combatant,
    zone: Position,
    tick: u64,
    cooldown: u64,
    req: LocalCombatRequest,
    r: CombatOutcome,
)
    requires
        combat_post(c, c2, p, p2, zone, tick, cooldown, req, r),
        tick < c.action_available_at_tick,
        req.action != LocalCombatAction::Prepare,
        req.action != LocalCombatAction::Retreat,
    ensures
        !r.accepted,
        c2.turn == c.turn,
{
}

/// The chronicle entry an accepted encounter step writes; a victory names
/// the weapon and the turns it took.
pub fn combat_entry(note: CombatNote, weapon: WeaponKind, turn: u32) -> (t: crate::chronicle::EntryText)
    ensures
        match note {
            CombatNote::Retreat => crate::chronicle::reads(
                t,
                "combat retreat"@,
                "A traveller chooses a reversible retreat"@,
                "The local encounter ended without deleting property or progression."@,
            ),
            CombatNote::Victory => crate::chronicle::reads(
                t,
                "combat victory"@,
                "A local threat yields to a readable choice"@,
                "The "@ + weapon_label(weapon) + " ended the encounter after "@ + decimal(turn as nat)
                    + " turns."@,
            ),
            CombatNote::Knockout => crate::chronicle::reads(
                t,
                "combat knockout"@,
                "A bounded local defeat sends a traveller home"@,
                "The improvised weapon could not finish the encounter; only the displayed carried risk applies."@,
            ),
        },
{
    match note {
        CombatNote::Retreat => crate::chronicle::entry_text(
            "combat retreat",
            "A traveller chooses a reversible retreat",
            "The local encounter ended without deleting property or progression.",
        ),
        CombatNote::Victory => {
            let turns = numbered("", turn as u64);
            proof {
                reveal_strlit("");
                assert(turns@ =~= decimal(turn as nat));
            }
            crate::chronicle::EntryText {
                kind: String::from_str("combat victory"),
                title: String::from_str("A local threat yields to a readable choice"),
                text: String::from_str("The ").concat(label(weapon)).concat(" ended the encounter after ").concat(
                    turns.as_str(),
                ).concat(" turns."),
            }
        },
        CombatNote::Knockout => crate::chronicle::entry_text(
            "combat knockout",
            "A bounded local defeat sends a traveller home",
            "The improvised weapon could not finish the encounter; only the displayed carried risk applies.",
        ),
    }
}

/// A weapon technique, taken on the opening turn, strikes the threat for its
/// weapon's opening damage: three for the spear and the axe, two for the iron
/// sword and the bow, one for the shield and the improvised club, never below
/// zero health. The fighter then carries that weapon.
pub proof fn lemma_technique_damage_by_weapon(
    c: LocalCombatState,
    c2: LocalCombatState,
    p: Combatant,
    p2: Combatant,
    zone: Position,
    tick: u64,
    cooldown: u64,
    req: LocalCombatRequest,
    r: CombatOutcome,
)
    requires
        combat_post(c, c2, p, p2, zone, tick, cooldown, req, r),
        req.action == LocalCombatAction::Technique,
        r.accepted,
    ensures
        c.turn == 0,
        c2.weapon == req.weapon,
        ({
            let damage: int = match req.weapon {
                WeaponKind::Spear | WeaponKind::Axe => 3,
                WeaponKind::IronSword | WeaponKind::Bow => 2,
                WeaponKind::Shield | WeaponKind::ImprovisedClub => 1,
            };
            c2.enemy_health == (if c.enemy_health >= damage {
                c.enemy_health - damage
            } else {
                0
            })
        }),
{
}

} // verus!
