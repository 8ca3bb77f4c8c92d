use subterfuge::CombatError;
use subterfuge::calculator::Combatant;
use subterfuge::calculator::Hero;
use subterfuge::parse::parse_combatant;

#[test]
fn test_parse_units() {
    assert_eq!(parse_combatant("123"), Ok(Combatant::Units(123)));
    assert_eq!(parse_combatant("0"), Ok(Combatant::Units(0)));
    assert_eq!(parse_combatant("007"), Ok(Combatant::Units(7)));
    assert_eq!(parse_combatant("2147483647"), Ok(Combatant::Units(2147483647)));
}

#[test]
fn test_parse_hero() {
    let hero = Combatant::Hero(Hero {
        attack: 12,
        health: 10,
    });
    assert_eq!(parse_combatant("12, 10"), Ok(hero));
    assert_eq!(parse_combatant("12,10"), Ok(hero));
    assert_eq!(
        parse_combatant("0,0"),
        Ok(Combatant::Hero(Hero {
            attack: 0,
            health: 0,
        }))
    );
}

#[test]
fn test_parse_rejects_malformed_text() {
    for input in [
        "", "abc", "12x", "-3", "12,", ",5", "12,  10", "12 ,10", "1,2,3", "12, 10x",
    ] {
        assert_eq!(
            parse_combatant(input),
            Err(CombatError::InvalidArgument),
            "{input:?} should be rejected"
        );
    }
}

#[test]
fn test_parse_rejects_overflow() {
    assert_eq!(
        parse_combatant("2147483648"),
        Err(CombatError::InvalidArgument)
    );
    assert_eq!(
        parse_combatant("1, 99999999999"),
        Err(CombatError::InvalidArgument)
    );
}
