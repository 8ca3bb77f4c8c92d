use std::str::FromStr;

use subterfuge::CombatError;
use subterfuge::calculator::Calculator;
use subterfuge::calculator::Combatant;
use subterfuge::calculator::Hero;

#[test]
fn test_test() {
    let c = Calculator::new(false, false, false);
    println!("{:#?}", c.do_unit_combat(10, 8));
}

#[test]
fn calculator_test_test_test() {
    let c = Calculator::new(false, false, false);
    println!("{:#?}", c.do_unit_combat(10, 8));
}

#[test]
#[should_panic]
fn test_hero_combat_invalid() {
    let c = Calculator::new(false, false, false);
    c.do_hero_combat(Combatant::Units(0), Combatant::Units(0)).unwrap();
}

#[test]
fn test_hero_damage() {
    let mut hc = Combatant::Units(10);
    hc = hc.do_damage().do_damage();
    assert!(hc.get_health() == 8);
}

#[test]
fn calculator_test_test_hero_damage() {
    let mut hc = Combatant::Units(10);
    hc = hc.do_damage().do_damage();
    assert!(hc.get_health() == 8);
}

#[test]
fn test_deser_combatant() {
    let unit_input = "123";
    let hero_input = "12, 10";
    let hero = Combatant::from_str(hero_input).unwrap();
    let units = Combatant::from_str(unit_input).unwrap();
    assert_eq!(units, Combatant::Units(123));
    assert_eq!(
        hero,
        Combatant::Hero(Hero {
            attack: 12,
            health: 10
        })
    );
}

#[test]
fn test_hero_combat_invalid_config() {
    let c = Calculator::new(false, false, false);
    let res = c.do_hero_combat(Combatant::Units(3), Combatant::Units(4));
    assert_eq!(res, Err(CombatError::InvalidCombatConfiguration));
}

#[test]
fn test_hero_combat_sure_winner() {
    // The attacker's total is at least 100 while the defender's total can
    // reach at most 20, so every round damages the defender.
    let c = Calculator::new(false, false, false);
    let attacker = Combatant::Hero(Hero {
        attack: 100,
        health: 5,
    });
    let defender = Combatant::Units(1);
    assert_eq!(c.do_hero_combat(attacker, defender), Ok(true));
    assert!(c.do_combat(attacker, defender));
}

#[test]
fn test_hero_combat_sure_loser() {
    let c = Calculator::new(false, false, false);
    let attacker = Combatant::Hero(Hero {
        attack: 0,
        health: 3,
    });
    let defender = Combatant::Hero(Hero {
        attack: 100,
        health: 4,
    });
    assert_eq!(c.do_hero_combat(attacker, defender), Ok(false));
}
