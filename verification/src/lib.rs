//! A dice-combat win-probability estimator: two combat models (pooled-dice
//! unit attrition and opposed-roll hero duels), a typed event log of each
//! battle, and a Monte Carlo driver that repeats battles sequentially or
//! across a worker pool and aggregates the attacker's win rate.

pub mod calculator;
pub mod calculator_logger;
pub mod decimal;
pub mod dice;
pub mod parse;
pub mod simulator;

use vstd::prelude::*;

verus! {

/// The distinguishable failure conditions of the combat engine.
#[derive(Debug, Clone, Copy, PartialEq, Eq, Structural)]
pub enum CombatError {
    /// Hero combat was requested for two plain unit stacks.
    InvalidCombatConfiguration,
    /// A simulation was requested with a non-positive trial count.
    InvalidArgument,
}

} // verus!
