//! The combat resolution engine: the unit-combat and hero-combat round
//! rules, and the engine instance that carries the rule modifiers and the
//! optional event log.

use vstd::math::min;
use vstd::prelude::*;

use crate::CombatError;
use crate::calculator_logger::CombatStart;
use crate::calculator_logger::Damage;
use crate::calculator_logger::SubterfugeLog;
use crate::calculator_logger::SubterfugeLogger;
use crate::dice;

verus! {

/// An individually-statted fighter: attack and health are independent.
#[derive(Debug, PartialEq, Eq, Structural, Clone, Copy)]
pub struct Hero {
    pub attack: i32,
    pub health: i32,
}

/// A combatant: either a homogeneous stack of units, whose strength and
/// health both equal the unit count, or a hero.
#[derive(Debug, PartialEq, Eq, Structural, Clone, Copy)]
pub enum Combatant {
    Units(i32),
    Hero(Hero),
}

impl Combatant {
    /// The current health of the combatant.
    pub open spec fn spec_health(self) -> int {
        match self {
            Combatant::Units(units) => units as int,
            Combatant::Hero(hero) => hero.health as int,
        }
    }

    /// The attack strength of the combatant.
    pub open spec fn spec_attack(self) -> int {
        match self {
            Combatant::Units(units) => units as int,
            Combatant::Hero(hero) => hero.attack as int,
        }
    }

    /// The combatant after taking one point of damage: a fresh value whose
    /// health is one lower, never an in-place change.
    pub open spec fn spec_damaged(self) -> Combatant
        recommends
            self.spec_health() >= 1,
    {
        match self {
            Combatant::Units(units) => Combatant::Units((units - 1) as i32),
            Combatant::Hero(hero) => Combatant::Hero(
                Hero { attack: hero.attack, health: (hero.health - 1) as i32 },
            ),
        }
    }

    /// The combatant after `k` consecutive one-point losses.
    pub open spec fn spec_after_losses(self, k: nat) -> Combatant
        decreases k,
    {
        if k == 0 {
            self
        } else {
            self.spec_after_losses((k - 1) as nat).spec_damaged()
        }
    }

    pub fn get_health(&self) -> (h: i32)
        ensures
            h as int == self.spec_health(),
    {
        match self {
            Self::Units(units) => *units,
            Self::Hero(hero) => hero.health,
        }
    }

    pub fn get_attack(&self) -> (a: i32)
        ensures
            a as int == self.spec_attack(),
    {
        match self {
            Self::Units(units) => *units,
            Self::Hero(hero) => hero.attack,
        }
    }

    /// Takes exactly one point of damage; the caller must stop once health
    /// has reached zero.
    pub fn do_damage(&self) -> (r: Combatant)
        requires
            self.spec_health() >= 1,
        ensures
            r == self.spec_damaged(),
            r.spec_health() == self.spec_health() - 1,
    {
        match self {
            Combatant::Units(units) => Combatant::Units(units - 1),
            Combatant::Hero(hero) => Combatant::Hero(
                Hero { health: hero.health - 1, attack: hero.attack },
            ),
        }
    }
}

/// Law: after `k` consecutive losses a combatant's health is exactly its
/// starting health minus `k`, and a hero's attack value is untouched.
pub proof fn lemma_consecutive_losses(c: Combatant, k: nat)
    requires
        c.spec_health() >= k,
    ensures
        c.spec_after_losses(k).spec_health() == c.spec_health() - k,
        c is Hero ==> c.spec_after_losses(k) is Hero && c.spec_after_losses(k).spec_attack()
            == c.spec_attack(),
    decreases k,
{
    if k > 0 {
        lemma_consecutive_losses(c, (k - 1) as nat);
    }
}

/// Both combatants are plain unit stacks: the configuration that hero
/// combat rejects.
pub open spec fn both_units(attacker: Combatant, defender: Combatant) -> bool {
    attacker is Units && defender is Units
}

/// The attack strengths leave room to add a d20 roll (and the defender's
/// fortification bonus) without overflowing an `i32`.
pub open spec fn hero_attack_bounds(attacker: Combatant, defender: Combatant) -> bool {
    attacker.spec_attack() <= i32::MAX - 19 && defender.spec_attack() <= i32::MAX - 20
}

/// The dice values as mathematical integers.
pub open spec fn to_ints(s: Seq<i32>) -> Seq<int> {
    Seq::new(s.len(), |i: int| s[i] as int)
}

/// The attacker's dice after the modifiers: with fortification met by
/// counter-fortification, the highest die is raised by one.
pub open spec fn boost_atk(s: Seq<int>, fort: bool, ark: bool) -> Seq<int> {
    if fort && ark {
        s.update(0, s[0] + 1)
    } else {
        s
    }
}

/// The defender's dice after the modifiers: with fortification alone, the
/// highest die is raised by one.
pub open spec fn boost_def(s: Seq<int>, fort: bool, ark: bool) -> Seq<int> {
    if fort && !ark {
        s.update(0, s[0] + 1)
    } else {
        s
    }
}

/// The attacker's casualties over the first `n` pairings: one for each
/// index at which the defender's die is at least the attacker's die, ties
/// favoring the defender.
pub open spec fn attacker_losses_upto(atk: Seq<int>, def: Seq<int>, n: int) -> int
    decreases n,
{
    if n <= 0 {
        0
    } else {
        attacker_losses_upto(atk, def, n - 1) + if def[n - 1] >= atk[n - 1] {
            1int
        } else {
            0int
        }
    }
}

/// The defender's casualties over the first `n` pairings: one for each
/// index at which the attacker's die is strictly higher.
pub open spec fn defender_losses_upto(atk: Seq<int>, def: Seq<int>, n: int) -> int
    decreases n,
{
    if n <= 0 {
        0
    } else {
        defender_losses_upto(atk, def, n - 1) + if def[n - 1] < atk[n - 1] {
            1int
        } else {
            0int
        }
    }
}

/// How many dice pairings one unit-combat round has for the given batch
/// sizes: the shorter batch decides.
pub open spec fn spec_pair_count(atk_len: int, def_len: int) -> int {
    min(atk_len, def_len)
}

/// Law: fortification raises the defender's best die by one, and only
/// counter-fortification on top of it moves the raise to the attacker's
/// best die instead; without fortification neither side is raised. In a
/// pairing of equal best dice the attacker pays the casualty unless both
/// flags are set, in which case the defender pays it.
pub proof fn lemma_fortification_boost(atk: Seq<int>, def: Seq<int>)
    requires
        atk.len() >= 1,
        def.len() >= 1,
    ensures
        boost_atk(atk, true, true)[0] == atk[0] + 1 && boost_def(def, true, true) == def,
        boost_atk(atk, true, false) == atk && boost_def(def, true, false)[0] == def[0] + 1,
        boost_atk(atk, false, false) == atk && boost_def(def, false, false) == def,
        boost_atk(atk, false, true) == atk && boost_def(def, false, true) == def,
        atk[0] == def[0] ==> attacker_losses_upto(boost_atk(atk, true, true), boost_def(def, true, true), 1) == 0
            && defender_losses_upto(boost_atk(atk, true, true), boost_def(def, true, true), 1) == 1,
        atk[0] == def[0] ==> attacker_losses_upto(boost_atk(atk, true, false), boost_def(def, true, false), 1) == 1,
        atk[0] == def[0] ==> attacker_losses_upto(boost_atk(atk, false, false), boost_def(def, false, false), 1) == 1,
{
    assert forall|f: bool, a: bool|
        attacker_losses_upto(boost_atk(atk, f, a), boost_def(def, f, a), 0) == 0
            && defender_losses_upto(boost_atk(atk, f, a), boost_def(def, f, a), 0) == 0 by {
        assert(attacker_losses_upto(boost_atk(atk, f, a), boost_def(def, f, a), 0) == 0);
        assert(defender_losses_upto(boost_atk(atk, f, a), boost_def(def, f, a), 0) == 0);
    }
}

/// One round of unit-combat damage assignment from already-drawn dice
/// batches: applies the modifier raise to the highest dice, then pairs the
/// batches index by index up to the shorter one's length, the defender
/// winning ties. Deterministic in its inputs, so the round rule can be
/// checked against chosen dice.
pub fn unit_combat_damage_from_dice(
    attacker_die: &Vec<i32>,
    defender_die: &Vec<i32>,
    fort: bool,
    ark: bool,
) -> (dmg: Damage)
    requires
        fort && ark ==> attacker_die@.len() >= 1 && attacker_die@[0] < i32::MAX,
        fort && !ark ==> defender_die@.len() >= 1 && defender_die@[0] < i32::MAX,
        attacker_die@.len() <= i32::MAX || defender_die@.len() <= i32::MAX,
    ensures
        ({
            let batk = boost_atk(to_ints(attacker_die@), fort, ark);
            let bdef = boost_def(to_ints(defender_die@), fort, ark);
            let p = spec_pair_count(attacker_die@.len() as int, defender_die@.len() as int);
            &&& dmg.attack_damage as int == attacker_losses_upto(batk, bdef, p)
            &&& dmg.defense_damage as int == defender_losses_upto(batk, bdef, p)
            &&& dmg.attack_damage >= 0
            &&& dmg.defense_damage >= 0
            &&& dmg.attack_damage + dmg.defense_damage == p
        }),
{
    let ghost batk = boost_atk(to_ints(attacker_die@), fort, ark);
    let ghost bdef = boost_def(to_ints(defender_die@), fort, ark);
    let pair_count: usize = if attacker_die.len() < defender_die.len() {
        attacker_die.len()
    } else {
        defender_die.len()
    };
    let mut attack_damage: i32 = 0;
    let mut defense_damage: i32 = 0;
    let mut i: usize = 0;
    while i < pair_count
        invariant
            0 <= i <= pair_count,
            pair_count as int == spec_pair_count(
                attacker_die@.len() as int,
                defender_die@.len() as int,
            ),
            pair_count <= i32::MAX,
            batk == boost_atk(to_ints(attacker_die@), fort, ark),
            bdef == boost_def(to_ints(defender_die@), fort, ark),
            fort && ark ==> attacker_die@.len() >= 1 && attacker_die@[0] < i32::MAX,
            fort && !ark ==> defender_die@.len() >= 1 && defender_die@[0] < i32::MAX,
            attack_damage as int == attacker_losses_upto(batk, bdef, i as int),
            defense_damage as int == defender_losses_upto(batk, bdef, i as int),
            attack_damage >= 0,
            defense_damage >= 0,
            attack_damage + defense_damage == i,
        decreases pair_count - i,
    {
        let attacker_value: i32 = if i == 0 && fort && ark {
            attacker_die[0] + 1
        } else {
            attacker_die[i]
        };
        let defender_value: i32 = if i == 0 && fort && !ark {
            defender_die[0] + 1
        } else {
            defender_die[i]
        };
        proof {
            assert(batk[i as int] == attacker_value as int);
            assert(bdef[i as int] == defender_value as int);
        }
        if defender_value >= attacker_value {
            attack_damage = attack_damage + 1;
        } else {
            defense_damage = defense_damage + 1;
        }
        i = i + 1;
    }
    Damage { attack_damage, defense_damage }
}

/// One round of hero combat from already-drawn d20 rolls: each side's roll
/// plus its attack strength, the defender raised by one under
/// fortification, the defender winning ties; the loser takes one point of
/// damage. Deterministic in its inputs, so the round rule can be checked
/// against chosen rolls. Returns the two combatants after the round and
/// the two final roll values, attacker first.
pub fn hero_round(
    attacker: Combatant,
    defender: Combatant,
    attacker_roll: i32,
    defender_roll: i32,
    fort: bool,
) -> (r: (Combatant, Combatant, i32, i32))
    requires
        attacker.spec_health() >= 1,
        defender.spec_health() >= 1,
        0 <= attacker_roll < 20,
        0 <= defender_roll < 20,
        hero_attack_bounds(attacker, defender),
    ensures
        r.2 as int == attacker_roll + attacker.spec_attack(),
        r.3 as int == defender_roll + defender.spec_attack() + if fort {
            1int
        } else {
            0int
        },
        r.3 >= r.2 ==> r.0 == attacker.spec_damaged() && r.1 == defender,
        r.3 < r.2 ==> r.0 == attacker && r.1 == defender.spec_damaged(),
{
    let attacker_total = attacker_roll + attacker.get_attack();
    let defender_total = defender_roll + defender.get_attack() + if fort {
        1
    } else {
        0
    };
    if defender_total >= attacker_total {
        (attacker.do_damage(), defender, attacker_total, defender_total)
    } else {
        (attacker, defender.do_damage(), attacker_total, defender_total)
    }
}

/// The combat resolution engine: carries the two rule modifiers for its
/// whole lifetime and, when logging is enabled, one shared event log that
/// accumulates entries across every trial run through this instance.
#[derive(Debug)]
pub struct Calculator {
    fort: bool,
    ark: bool,
    log: Option<SubterfugeLogger>,
}

impl Calculator {
    /// Fortification is active.
    pub closed spec fn spec_fort(&self) -> bool {
        self.fort
    }

    /// Counter-fortification is active.
    pub closed spec fn spec_ark(&self) -> bool {
        self.ark
    }

    /// An event log is attached.
    pub closed spec fn logging_enabled(&self) -> bool {
        self.log is Some
    }

    pub fn new(fort: bool, ark: bool, log: bool) -> (r: Calculator)
        ensures
            r.spec_fort() == fort,
            r.spec_ark() == ark,
            r.logging_enabled() == log,
    {
        Calculator {
            fort,
            ark,
            log: match log {
                true => Some(SubterfugeLogger::new()),
                false => None,
            },
        }
    }

    /// Resolves one battle: unit combat when both combatants are unit
    /// stacks, hero combat otherwise.
    pub fn do_combat(&self, attacker: Combatant, defender: Combatant) -> (r: bool)
        requires
            !both_units(attacker, defender) ==> hero_attack_bounds(attacker, defender),
        ensures
            both_units(attacker, defender) && attacker.spec_health() <= 0 ==> r == false,
            both_units(attacker, defender) && attacker.spec_health() >= 1
                && defender.spec_health() <= 0 ==> r == true,
            !both_units(attacker, defender) && attacker.spec_health() == 0 ==> r == false,
            !both_units(attacker, defender) && attacker.spec_health() >= 1
                && defender.spec_health() <= 0 ==> r == true,
    {
        match (attacker, defender) {
            (Combatant::Units(attacker_units), Combatant::Units(defender_units)) => self
                .do_unit_combat(attacker_units, defender_units),
            _ => {
                match self.do_hero_combat(attacker, defender) {
                    Ok(attacker_won) => attacker_won,
                    Err(_) => vstd::pervasive::unreached(),
                }
            },
        }
    }

    /// Appends one event to the log; a no-op when logging is disabled.
    pub fn add_log(&self, log: SubterfugeLog) {
        if let Some(logger) = &self.log {
            logger.add_log(log)
        }
    }

    /// The attached event log, if logging is enabled.
    pub fn get_log(&self) -> (r: Option<&SubterfugeLogger>)
        ensures
            r is Some <==> self.logging_enabled(),
    {
        match &self.log {
            Some(log) => Some(log),
            None => None,
        }
    }

    /// Unit combat: rounds of pooled-dice attrition until one side's
    /// strength is exhausted; the attacker wins exactly when its own
    /// strength is still positive at the end. A battle with a non-positive
    /// side is decided at once, without drawing dice: a non-positive
    /// attacker loses, and otherwise a non-positive defender loses.
    pub fn do_unit_combat(&self, attackers: i32, defenders: i32) -> (r: bool)
        ensures
            attackers <= 0 ==> r == false,
            attackers >= 1 && defenders <= 0 ==> r == true,
    {
        let mut atk = attackers;
        let mut def = defenders;
        while atk > 0 && def > 0
            invariant
                attackers <= 0 ==> atk == attackers,
                attackers >= 1 && defenders <= 0 ==> atk == attackers && def == defenders,
            decreases atk + def,
        {
            let dmg = self.get_unit_combat_damage(atk, def);
            atk = atk - dmg.attack_damage;
            def = def - dmg.defense_damage;
        }
        if atk <= 0 {
            self.add_log(SubterfugeLog::AttackerVictory(false));
            false
        } else {
            self.add_log(SubterfugeLog::AttackerVictory(true));
            true
        }
    }

    /// One round of unit combat: draws up to three attacker dice and up to
    /// two defender dice, logs the raw rolls, and assigns the casualties by
    /// the pairing rule. Every pairing costs exactly one casualty, so the
    /// two damage figures always sum to the number of pairings.
    pub fn get_unit_combat_damage(&self, attackers: i32, defenders: i32) -> (dmg: Damage)
        requires
            attackers >= 1,
            defenders >= 1,
        ensures
            dmg.attack_damage >= 0,
            dmg.defense_damage >= 0,
            dmg.attack_damage + dmg.defense_damage == spec_pair_count(
                min(attackers as int, 3),
                min(defenders as int, 2),
            ),
    {
        let attacker_count: i32 = if attackers < 3 {
            attackers
        } else {
            3
        };
        let defender_count: i32 = if defenders < 2 {
            defenders
        } else {
            2
        };
        let attacker_die = dice::get_dice(attacker_count, 6);
        let defender_die = dice::get_dice(defender_count, 6);
        self.add_log(SubterfugeLog::AttackerRoll(attacker_die.clone()));
        self.add_log(SubterfugeLog::DefenderRoll(defender_die.clone()));
        let dmg = unit_combat_damage_from_dice(&attacker_die, &defender_die, self.fort, self.ark);
        self.add_log(SubterfugeLog::Damage(dmg.clone()));
        dmg
    }

    /// Hero combat: a duel of single opposed d20 rolls, one point of damage
    /// per round, until one side's health reaches zero; the attacker wins
    /// exactly when its own health did not end at zero. Two plain unit
    /// stacks are an invalid configuration and are rejected before any dice
    /// are drawn.
    pub fn do_hero_combat(&self, attacker: Combatant, defender: Combatant) -> (r: Result<
        bool,
        CombatError,
    >)
        requires
            !both_units(attacker, defender) ==> hero_attack_bounds(attacker, defender),
        ensures
            r is Err <==> both_units(attacker, defender),
            r is Err ==> r == Result::<bool, CombatError>::Err(
                CombatError::InvalidCombatConfiguration,
            ),
            !both_units(attacker, defender) && attacker.spec_health() == 0 ==> r == Result::<
                bool,
                CombatError,
            >::Ok(false),
            !both_units(attacker, defender) && attacker.spec_health() >= 1
                && defender.spec_health() <= 0 ==> r == Result::<bool, CombatError>::Ok(true),
    {
        if matches!(attacker, Combatant::Units(_)) && matches!(defender, Combatant::Units(_)) {
            return Err(CombatError::InvalidCombatConfiguration);
        }
        self.add_log(
            SubterfugeLog::CombatStart(CombatStart { attacker: attacker, defender: defender }),
        );
        let mut live_attacker = attacker;
        let mut live_defender = defender;
        while live_attacker.get_health() > 0 && live_defender.get_health() > 0
            invariant
                hero_attack_bounds(live_attacker, live_defender),
                attacker.spec_health() <= 0 || defender.spec_health() <= 0 ==> live_attacker
                    == attacker && live_defender == defender,
            decreases live_attacker.spec_health() + live_defender.spec_health(),
        {
            let attacker_rolls = dice::get_dice(1, 20);
            let defender_rolls = dice::get_dice(1, 20);
            let round = hero_round(
                live_attacker,
                live_defender,
                attacker_rolls[0],
                defender_rolls[0],
                self.fort,
            );
            self.add_log(SubterfugeLog::AttackerRoll(vec![round.2]));
            self.add_log(SubterfugeLog::DefenderRoll(vec![round.3]));
            if round.3 >= round.2 {
                self.add_log(
                    SubterfugeLog::Damage(Damage { attack_damage: 1, defense_damage: 0 }),
                );
            } else {
                self.add_log(
                    SubterfugeLog::Damage(Damage { attack_damage: 0, defense_damage: 1 }),
                );
            }
            live_attacker = round.0;
            live_defender = round.1;
        }
        if live_attacker.get_health() == 0 {
            self.add_log(SubterfugeLog::AttackerVictory(false));
            Ok(false)
        } else {
            self.add_log(SubterfugeLog::AttackerVictory(true));
            Ok(true)
        }
    }
}

} // verus!
