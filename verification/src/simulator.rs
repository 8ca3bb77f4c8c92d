//! The Monte Carlo driver: repeats independent battles for a fixed
//! attacker/defender pair, sequentially or across a parallel worker pool,
//! and aggregates the attacker's win tally.

use rayon::iter::IntoParallelIterator;
use rayon::iter::ParallelIterator;
use vstd::prelude::*;

use crate::CombatError;
use crate::calculator::Calculator;
use crate::calculator::Combatant;
use crate::calculator::both_units;
use crate::calculator::hero_attack_bounds;
use crate::decimal::dec_seq;
use crate::decimal::digit_char;
use crate::decimal::two_digit_string;
use crate::decimal::u64_to_string;

verus! {

/// How many entries of `s` are true.
pub open spec fn count_true(s: Seq<bool>) -> int
    decreases s.len(),
{
    if s.len() == 0 {
        0
    } else {
        count_true(s.drop_last()) + if s.last() {
            1int
        } else {
            0int
        }
    }
}

/// Law: the tally never leaves `[0, len]`.
pub proof fn lemma_count_true_bounds(s: Seq<bool>)
    ensures
        0 <= count_true(s) <= s.len(),
    decreases s.len(),
{
    if s.len() > 0 {
        lemma_count_true_bounds(s.drop_last());
    }
}

/// Law: the win tally is a plain sum, so cutting the outcome sequence
/// anywhere and adding the two parts' tallies gives the whole tally.
/// Partition boundaries and worker count therefore cannot change the
/// aggregated count: parallel and sequential aggregation of the same
/// outcomes agree.
pub proof fn lemma_count_true_concat(s: Seq<bool>, t: Seq<bool>)
    ensures
        count_true(s + t) == count_true(s) + count_true(t),
    decreases t.len(),
{
    if t.len() == 0 {
        assert(s + t =~= s);
    } else {
        lemma_count_true_concat(s, t.drop_last());
        assert((s + t).drop_last() =~= s + t.drop_last());
        assert((s + t).last() == t.last());
    }
}

/// Counts the attacker wins in a sequence of trial outcomes: the one
/// reduction both execution paths share.
pub fn count_wins(outcomes: &Vec<bool>) -> (n: usize)
    ensures
        n as int == count_true(outcomes@),
        n <= outcomes@.len(),
{
    let mut n: usize = 0;
    let mut i: usize = 0;
    while i < outcomes.len()
        invariant
            0 <= i <= outcomes@.len(),
            n as int == count_true(outcomes@.take(i as int)),
            n <= i,
        decreases outcomes@.len() - i,
    {
        proof {
            assert(outcomes@.take(i + 1).drop_last() =~= outcomes@.take(i as int));
            assert(outcomes@.take(i + 1).last() == outcomes@[i as int]);
        }
        if outcomes[i] {
            n = n + 1;
        }
        i = i + 1;
    }
    proof {
        assert(outcomes@.take(outcomes@.len() as int) =~= outcomes@);
    }
    n
}

/// Relies on rayon: `into_par_iter` over `0..trials` fans the range out
/// across the worker pool, the closure resolves one battle per index
/// through the verified `do_combat`, and `collect` gathers exactly one
/// outcome per trial.
#[verifier::external_body]
fn run_parallel_trials(
    calculator: &Calculator,
    attacker: Combatant,
    defender: Combatant,
    trials: i32,
) -> (r: Vec<bool>)
    requires
        trials >= 0,
        !both_units(attacker, defender) ==> hero_attack_bounds(attacker, defender),
    ensures
        r@.len() == trials as int,
{
    (0..trials).into_par_iter().map(|_| calculator.do_combat(attacker, defender)).collect()
}

/// The Monte Carlo driver for a fixed trial count.
pub struct CombatSimulator {
    iterations: i32,
}

/// The aggregate of one simulation run: attacker wins out of the total
/// trials.
#[derive(Debug, PartialEq, Eq, Structural)]
pub struct SimulationResults {
    pub attacker_wins: i32,
    pub total_iterations: i32,
}

impl CombatSimulator {
    /// The configured trial count.
    pub closed spec fn spec_iterations(&self) -> int {
        self.iterations as int
    }

    pub fn new(iterations: i32) -> (r: CombatSimulator)
        ensures
            r.spec_iterations() == iterations,
    {
        Self { iterations }
    }

    /// Runs the configured number of independent trials strictly in
    /// sequence, every trial starting from the same combatants, and tallies
    /// the attacker's wins. A non-positive trial count is invalid, as no
    /// ratio could be formed from it.
    pub fn simulate_combat(
        &self,
        calculator: &Calculator,
        attacker: Combatant,
        defender: Combatant,
    ) -> (r: Result<SimulationResults, CombatError>)
        requires
            !both_units(attacker, defender) ==> hero_attack_bounds(attacker, defender),
        ensures
            r is Err <==> self.spec_iterations() <= 0,
            r is Err ==> r == Result::<SimulationResults, CombatError>::Err(
                CombatError::InvalidArgument,
            ),
            r matches Ok(res) ==> res.total_iterations as int == self.spec_iterations() && 0
                <= res.attacker_wins <= res.total_iterations,
    {
        if self.iterations <= 0 {
            return Err(CombatError::InvalidArgument);
        }
        let mut attacker_wins: i32 = 0;
        let mut i: i32 = 0;
        while i < self.iterations
            invariant
                0 <= attacker_wins <= i <= self.spec_iterations(),
                !both_units(attacker, defender) ==> hero_attack_bounds(attacker, defender),
            decreases self.spec_iterations() - i,
        {
            if calculator.do_combat(attacker, defender) {
                attacker_wins = attacker_wins + 1;
            }
            i = i + 1;
        }
        Ok(SimulationResults { attacker_wins, total_iterations: self.iterations })
    }

    /// Runs the configured number of independent trials across the
    /// parallel worker pool and tallies the attacker's wins with the same
    /// reduction as the sequential path; the tally is a plain sum, so the
    /// partitioning cannot affect it. A non-positive trial count is
    /// invalid.
    pub fn simulate_combat_multi(
        &self,
        calculator: &Calculator,
        attacker: Combatant,
        defender: Combatant,
    ) -> (r: Result<SimulationResults, CombatError>)
        requires
            !both_units(attacker, defender) ==> hero_attack_bounds(attacker, defender),
        ensures
            r is Err <==> self.spec_iterations() <= 0,
            r is Err ==> r == Result::<SimulationResults, CombatError>::Err(
                CombatError::InvalidArgument,
            ),
            r matches Ok(res) ==> res.total_iterations as int == self.spec_iterations() && 0
                <= res.attacker_wins <= res.total_iterations,
    {
        if self.iterations <= 0 {
            return Err(CombatError::InvalidArgument);
        }
        let outcomes = run_parallel_trials(calculator, attacker, defender, self.iterations);
        let wins = count_wins(&outcomes);
        proof {
            lemma_count_true_bounds(outcomes@);
        }
        Ok(SimulationResults { attacker_wins: wins as i32, total_iterations: self.iterations })
    }
}

/// The win ratio in hundredths of a percent, rounded half-up: the value
/// the two-decimal percentage string shows.
pub open spec fn percent_hundredths(wins: int, total: int) -> int
    recommends
        total >= 1,
{
    (wins * 20000 + total) / (2 * total)
}

/// The percentage string: the whole percent digits, a dot, then exactly
/// two fractional digits.
pub open spec fn spec_percent_string(wins: int, total: int) -> Seq<char> {
    let h = percent_hundredths(wins, total);
    dec_seq(h / 100) + seq!['.'] + seq![digit_char(h % 100 / 10), digit_char(h % 100 % 10)]
}

impl SimulationResults {
    /// The attacker's win ratio as a percentage with two fractional
    /// digits.
    pub fn to_percent(self) -> (r: String)
        requires
            self.total_iterations >= 1,
            0 <= self.attacker_wins <= self.total_iterations,
        ensures
            r@ == spec_percent_string(self.attacker_wins as int, self.total_iterations as int),
    {
        let wins = self.attacker_wins as u64;
        let total = self.total_iterations as u64;
        let hundredths = (wins * 20000 + total) / (2 * total);
        let mut s = u64_to_string(hundredths / 100);
        s.append(".");
        let frac = two_digit_string(hundredths % 100);
        s.append(frac.as_str());
        proof {
            reveal_strlit(".");
            assert(s@ =~= spec_percent_string(
                self.attacker_wins as int,
                self.total_iterations as int,
            ));
        }
        s
    }
}

} // verus!
