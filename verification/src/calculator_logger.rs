//! The event log: typed combat events appended in chronological order for
//! one engine instance, and their textual rendering.

use vstd::prelude::*;

use crate::calculator::Combatant;
use crate::decimal::i32_dec_seq;
use crate::decimal::i32_to_string;

verus! {

/// One typed combat event.
#[derive(Debug, Clone)]
pub enum SubterfugeLog {
    CombatStart(CombatStart),
    AttackerRoll(Vec<i32>),
    DefenderRoll(Vec<i32>),
    Damage(Damage),
    AttackerVictory(bool),
}

/// The casualties of one round: how many points each side lost.
#[derive(Debug, Clone)]
pub struct Damage {
    pub attack_damage: i32,
    pub defense_damage: i32,
}

/// The two starting combatants of one battle.
#[derive(Debug, Clone)]
pub struct CombatStart {
    pub attacker: Combatant,
    pub defender: Combatant,
}

/// An append-only log shared by every trial run through one engine
/// instance. Appends may come from several worker threads at once, so the
/// entries sit behind a mutex; the structure is opaque to the verifier and
/// nothing is claimed about the stored entries.
#[verifier::external_body]
#[derive(Debug)]
pub struct SubterfugeLogger {
    log: std::sync::Mutex<Vec<SubterfugeLog>>,
}

impl SubterfugeLogger {
    /// Relies on std::sync::Mutex::new and Vec::new: allocates an empty log.
    #[verifier::external_body]
    pub fn new() -> (r: SubterfugeLogger) {
        SubterfugeLogger { log: std::sync::Mutex::new(Vec::new()) }
    }

    /// Relies on std::sync::Mutex::lock and Vec::push: appends one entry at
    /// the end of the log, under the lock.
    #[verifier::external_body]
    pub fn add_log(&self, log: SubterfugeLog) {
        self.log.lock().unwrap().push(log);
    }

    /// Relies on std::sync::Mutex::lock and Vec::clone: a snapshot of the
    /// entries recorded so far, in their order of appension. Which entries
    /// that is depends on the appends other threads have made, so nothing is
    /// promised of the result.
    #[verifier::external_body]
    pub fn entries(&self) -> Vec<SubterfugeLog> {
        self.log.lock().unwrap().clone()
    }

    /// The accumulated log as text, one entry per line. The snapshot taken
    /// is whatever `entries` returns; the rendering of that snapshot is
    /// exact, see `render_log`.
    pub fn to_log_string(&self) -> String {
        let snapshot = self.entries();
        render_log(&snapshot)
    }
}

/// The description of a combatant: `"<n> units"` for a stack,
/// `"hero with <attack> attack and <health> defense"` for a hero.
pub open spec fn spec_combatant_desc(c: Combatant) -> Seq<char> {
    match c {
        Combatant::Units(u) => i32_dec_seq(u as int) + " units"@,
        Combatant::Hero(h) => "hero with "@ + i32_dec_seq(h.attack as int) + " attack and "@
            + i32_dec_seq(h.health as int) + " defense"@,
    }
}

/// The first `n` dice of `s`, separated by `", "`.
pub open spec fn spec_dice_list(s: Seq<i32>, n: int) -> Seq<char>
    decreases n,
{
    if n <= 0 {
        Seq::empty()
    } else if n == 1 {
        i32_dec_seq(s[0] as int)
    } else {
        spec_dice_list(s, n - 1) + ", "@ + i32_dec_seq(s[n - 1] as int)
    }
}

/// A dice batch rendered as `"[d1, d2, ...]"`.
pub open spec fn spec_dice_seq(s: Seq<i32>) -> Seq<char> {
    "["@ + spec_dice_list(s, s.len() as int) + "]"@
}

/// The fixed textual template of one log entry.
pub open spec fn spec_log_line(e: SubterfugeLog) -> Seq<char> {
    match e {
        SubterfugeLog::CombatStart(cs) => "Attacker: "@ + spec_combatant_desc(cs.attacker)
            + ", Defender: "@ + spec_combatant_desc(cs.defender),
        SubterfugeLog::AttackerRoll(d) => "Attacker rolled: "@ + spec_dice_seq(d@),
        SubterfugeLog::DefenderRoll(d) => "Defender rolled: "@ + spec_dice_seq(d@),
        SubterfugeLog::Damage(dm) => "Attacker dealt: "@ + i32_dec_seq(dm.attack_damage as int)
            + " damage, Defender dealt: "@ + i32_dec_seq(dm.defense_damage as int) + " damage"@,
        SubterfugeLog::AttackerVictory(win) => if win {
            "Attacker wins."@
        } else {
            "Defender wins."@
        },
    }
}

/// The first `n` entries rendered one per line, each line closed by `'\n'`.
pub open spec fn spec_log_text(entries: Seq<SubterfugeLog>, n: int) -> Seq<char>
    decreases n,
{
    if n <= 0 {
        Seq::empty()
    } else {
        spec_log_text(entries, n - 1) + spec_log_line(entries[n - 1]) + "\n"@
    }
}

/// Renders one dice batch as `"[d1, d2, ...]"`.
pub fn render_dice(dice: &Vec<i32>) -> (r: String)
    ensures
        r@ == spec_dice_seq(dice@),
{
    let mut s = String::from_str("[");
    let mut i: usize = 0;
    while i < dice.len()
        invariant
            0 <= i <= dice@.len(),
            s@ == "["@ + spec_dice_list(dice@, i as int),
        decreases dice@.len() - i,
    {
        if i > 0 {
            s.append(", ");
        }
        let piece = i32_to_string(dice[i]);
        s.append(piece.as_str());
        i = i + 1;
    }
    s.append("]");
    proof {
        assert(s@ =~= spec_dice_seq(dice@));
    }
    s
}

/// Renders the description of a combatant, following the fixed templates.
pub fn render_combatant(c: &Combatant) -> (r: String)
    ensures
        r@ == spec_combatant_desc(*c),
{
    match c {
        Combatant::Units(u) => {
            let mut s = i32_to_string(*u);
            s.append(" units");
            s
        },
        Combatant::Hero(h) => {
            let mut s = String::from_str("hero with ");
            let attack = i32_to_string(h.attack);
            s.append(attack.as_str());
            s.append(" attack and ");
            let health = i32_to_string(h.health);
            s.append(health.as_str());
            s.append(" defense");
            s
        },
    }
}

/// Renders one log entry by its fixed template.
pub fn render_log_line(e: &SubterfugeLog) -> (r: String)
    ensures
        r@ == spec_log_line(*e),
{
    match e {
        SubterfugeLog::CombatStart(cs) => {
            let mut s = String::from_str("Attacker: ");
            let attacker = render_combatant(&cs.attacker);
            s.append(attacker.as_str());
            s.append(", Defender: ");
            let defender = render_combatant(&cs.defender);
            s.append(defender.as_str());
            s
        },
        SubterfugeLog::AttackerRoll(d) => {
            let mut s = String::from_str("Attacker rolled: ");
            let dice = render_dice(d);
            s.append(dice.as_str());
            s
        },
        SubterfugeLog::DefenderRoll(d) => {
            let mut s = String::from_str("Defender rolled: ");
            let dice = render_dice(d);
            s.append(dice.as_str());
            s
        },
        SubterfugeLog::Damage(dm) => {
            let mut s = String::from_str("Attacker dealt: ");
            let attack = i32_to_string(dm.attack_damage);
            s.append(attack.as_str());
            s.append(" damage, Defender dealt: ");
            let defense = i32_to_string(dm.defense_damage);
            s.append(defense.as_str());
            s.append(" damage");
            s
        },
        SubterfugeLog::AttackerVictory(win) => {
            if *win {
                String::from_str("Attacker wins.")
            } else {
                String::from_str("Defender wins.")
            }
        },
    }
}

/// Renders a whole log, one entry per line in chronological order.
pub fn render_log(entries: &Vec<SubterfugeLog>) -> (r: String)
    ensures
        r@ == spec_log_text(entries@, entries@.len() as int),
{
    let mut s = String::from_str("");
    proof {
        reveal_strlit("");
        assert(s@ =~= Seq::<char>::empty());
    }
    let mut i: usize = 0;
    while i < entries.len()
        invariant
            0 <= i <= entries@.len(),
            s@ == spec_log_text(entries@, i as int),
        decreases entries@.len() - i,
    {
        let line = render_log_line(&entries[i]);
        s.append(line.as_str());
        s.append("\n");
        i = i + 1;
    }
    s
}

} // verus!
