use subterfuge::CombatError;
use subterfuge::calculator::Calculator;
use subterfuge::calculator::Combatant;
use subterfuge::calculator::Hero;
use subterfuge::simulator::CombatSimulator;
use subterfuge::simulator::SimulationResults;
use subterfuge::simulator::count_wins;

#[test]
fn test_simulation_win_band() {
    // 10 units against 8 with no modifiers over many trials: the tally
    // stays within its bounds, and the win rate lands in a wide band
    // rather than at either extreme.
    let cs = CombatSimulator::new(100_000);
    let calculator = Calculator::new(false, false, false);
    let res = cs
        .simulate_combat(&calculator, Combatant::Units(10), Combatant::Units(8))
        .unwrap();
    assert_eq!(res.total_iterations, 100_000);
    assert!(res.attacker_wins >= 0 && res.attacker_wins <= res.total_iterations);
    assert!(res.attacker_wins > 1_000);
    assert!(res.attacker_wins < 99_000);
}

#[test]
fn test_parallel_simulation_band() {
    let cs = CombatSimulator::new(10_000);
    let calculator = Calculator::new(true, true, false);
    let res = cs
        .simulate_combat_multi(&calculator, Combatant::Units(10), Combatant::Units(8))
        .unwrap();
    assert_eq!(res.total_iterations, 10_000);
    assert!(res.attacker_wins >= 0 && res.attacker_wins <= res.total_iterations);
}

#[test]
fn test_drivers_agree_on_deterministic_combat() {
    // The attacker's total always exceeds what the defender can reach, so
    // every trial is a win whatever the dice say: the sequential and the
    // parallel driver must then report exactly the same tally.
    let cs = CombatSimulator::new(1_000);
    let calculator = Calculator::new(false, false, false);
    let attacker = Combatant::Hero(Hero {
        attack: 100,
        health: 1,
    });
    let defender = Combatant::Units(2);
    let seq = cs.simulate_combat(&calculator, attacker, defender).unwrap();
    let par = cs
        .simulate_combat_multi(&calculator, attacker, defender)
        .unwrap();
    assert_eq!(seq.attacker_wins, 1_000);
    assert_eq!(par.attacker_wins, 1_000);
    assert_eq!(seq, par);
}

#[test]
fn test_zero_trials_invalid() {
    let cs = CombatSimulator::new(0);
    let calculator = Calculator::new(false, false, false);
    let seq = cs.simulate_combat(&calculator, Combatant::Units(3), Combatant::Units(3));
    assert_eq!(seq, Err(CombatError::InvalidArgument));
    let par = cs.simulate_combat_multi(&calculator, Combatant::Units(3), Combatant::Units(3));
    assert_eq!(par, Err(CombatError::InvalidArgument));
    let negative = CombatSimulator::new(-5);
    let res = negative.simulate_combat(&calculator, Combatant::Units(3), Combatant::Units(3));
    assert_eq!(res, Err(CombatError::InvalidArgument));
}

#[test]
fn test_count_wins_partition_independent() {
    // The reduction both drivers share is a plain sum: cutting the
    // outcome sequence anywhere and adding the parts changes nothing.
    let outcomes = vec![true, false, true, true, false, false, true, false, true, true];
    let total = count_wins(&outcomes);
    assert_eq!(total, 6);
    for cut in 0..=outcomes.len() {
        let head = outcomes[..cut].to_vec();
        let tail = outcomes[cut..].to_vec();
        assert_eq!(count_wins(&head) + count_wins(&tail), total);
    }
}

#[test]
fn test_to_percent_values() {
    let zero = SimulationResults {
        attacker_wins: 0,
        total_iterations: 100,
    };
    assert_eq!(zero.to_percent(), "0.00");
    let half = SimulationResults {
        attacker_wins: 50,
        total_iterations: 100,
    };
    assert_eq!(half.to_percent(), "50.00");
    let all = SimulationResults {
        attacker_wins: 100,
        total_iterations: 100,
    };
    assert_eq!(all.to_percent(), "100.00");
}

#[test]
fn test_to_percent_rounding() {
    let third = SimulationResults {
        attacker_wins: 1,
        total_iterations: 3,
    };
    assert_eq!(third.to_percent(), "33.33");
    let two_thirds = SimulationResults {
        attacker_wins: 2,
        total_iterations: 3,
    };
    assert_eq!(two_thirds.to_percent(), "66.67");
    let eighth = SimulationResults {
        attacker_wins: 1,
        total_iterations: 8,
    };
    assert_eq!(eighth.to_percent(), "12.50");
}
