use subterfuge::calculator::Calculator;
use subterfuge::calculator::Combatant;
use subterfuge::calculator::Hero;
use subterfuge::calculator::hero_round;
use subterfuge::calculator::unit_combat_damage_from_dice;
use subterfuge::dice::get_dice;

#[test]
fn test_unit_combat_degenerate() {
    let c = Calculator::new(false, false, false);
    assert!(!c.do_unit_combat(0, 5));
    assert!(!c.do_unit_combat(-2, 5));
    assert!(!c.do_unit_combat(0, 0));
    assert!(c.do_unit_combat(5, 0));
    assert!(c.do_unit_combat(1, -3));
}

#[test]
fn test_pairing_tie_favors_defender() {
    let dmg = unit_combat_damage_from_dice(&vec![3], &vec![3], false, false);
    assert_eq!(dmg.attack_damage, 1);
    assert_eq!(dmg.defense_damage, 0);
}

#[test]
fn test_fort_boosts_defender_best_die() {
    // Without fortification the attacker's 4 beats the defender's 3; the
    // fortification raise turns it into a defender-favored tie.
    let plain = unit_combat_damage_from_dice(&vec![4], &vec![3], false, false);
    assert_eq!(plain.attack_damage, 0);
    assert_eq!(plain.defense_damage, 1);
    let fort = unit_combat_damage_from_dice(&vec![4], &vec![3], true, false);
    assert_eq!(fort.attack_damage, 1);
    assert_eq!(fort.defense_damage, 0);
}

#[test]
fn test_ark_boosts_attacker_best_die() {
    // A tie of best dice costs the attacker a casualty, unless both flags
    // are set and the attacker's raised die wins the pairing.
    let tie = unit_combat_damage_from_dice(&vec![3], &vec![3], true, true);
    assert_eq!(tie.attack_damage, 0);
    assert_eq!(tie.defense_damage, 1);
    // The raise touches only the first (highest) die: the second pairing
    // still goes to the defender.
    let two = unit_combat_damage_from_dice(&vec![5, 2], &vec![5, 2], true, true);
    assert_eq!(two.attack_damage, 1);
    assert_eq!(two.defense_damage, 1);
    // Counter-fortification alone has no effect.
    let ark_only = unit_combat_damage_from_dice(&vec![3], &vec![3], false, true);
    assert_eq!(ark_only.attack_damage, 1);
    assert_eq!(ark_only.defense_damage, 0);
}

#[test]
fn test_pairing_counts_shorter_batch() {
    let dmg = unit_combat_damage_from_dice(&vec![5, 4, 0], &vec![5, 1], false, false);
    // 5 vs 5 goes to the defender, 1 vs 4 goes to the attacker; the third
    // attacker die is unpaired.
    assert_eq!(dmg.attack_damage, 1);
    assert_eq!(dmg.defense_damage, 1);
}

#[test]
fn test_hero_round_damage_and_totals() {
    let attacker = Combatant::Hero(Hero {
        attack: 5,
        health: 3,
    });
    let defender = Combatant::Hero(Hero {
        attack: 2,
        health: 3,
    });
    let (a, d, at, dt) = hero_round(attacker, defender, 10, 10, false);
    assert_eq!(at, 15);
    assert_eq!(dt, 12);
    assert_eq!(a, attacker);
    assert_eq!(
        d,
        Combatant::Hero(Hero {
            attack: 2,
            health: 2
        })
    );
}

#[test]
fn test_hero_round_fort_bonus_flips_tie() {
    let attacker = Combatant::Hero(Hero {
        attack: 1,
        health: 2,
    });
    let defender = Combatant::Hero(Hero {
        attack: 0,
        health: 2,
    });
    // 4 + 1 against 4 + 0: the defender loses without fortification.
    let (_, d, _, _) = hero_round(attacker, defender, 4, 4, false);
    assert_eq!(d.get_health(), 1);
    // With fortification the defender reaches a tie, and ties damage the
    // attacker.
    let (a, d, at, dt) = hero_round(attacker, defender, 4, 4, true);
    assert_eq!((at, dt), (5, 5));
    assert_eq!(d, defender);
    assert_eq!(a.get_health(), 1);
}

#[test]
fn test_consecutive_losses_reach_zero() {
    // Three consecutive losses take a 3-health hero to exactly 0, one
    // point per round.
    let mut hero = Combatant::Hero(Hero {
        attack: 7,
        health: 3,
    });
    for expected in [2, 1, 0] {
        hero = hero.do_damage();
        assert_eq!(hero.get_health(), expected);
        assert_eq!(hero.get_attack(), 7);
    }
}

#[test]
fn test_get_dice_batch() {
    let v = get_dice(5, 6);
    assert_eq!(v.len(), 5);
    for &d in v.iter() {
        assert!((0..6).contains(&d));
    }
    for w in v.windows(2) {
        assert!(w[0] >= w[1]);
    }
    assert!(get_dice(0, 6).is_empty());
    assert!(get_dice(-3, 6).is_empty());
    let single = get_dice(1, 1);
    assert_eq!(single, vec![0]);
}
