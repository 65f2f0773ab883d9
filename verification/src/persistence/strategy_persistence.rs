//! Kinds of saved trading strategies, told apart by the strategy's name.
use vstd::prelude::*;
use crate::text::{append_str, contains_str, has_substring, to_string};

verus! {

/// Kind of a saved strategy.
#[derive(Debug, Clone, Copy, PartialEq, Eq, Structural)]
pub enum StrategyType {
    RSI,
    MovingAverageCrossover,
}

/// The kind of a strategy named `name`: RSI when the name mentions "RSI", a moving
/// average crossover when it mentions "MA Crossover" or "Moving Average"; any other
/// name is refused with "Type de stratégie inconnu: " and the name.
pub open spec fn strategy_type_for(name: Seq<char>) -> Result<StrategyType, Seq<char>> {
    if has_substring(name, "RSI"@) {
        Ok(StrategyType::RSI)
    } else if has_substring(name, "MA Crossover"@) || has_substring(name, "Moving Average"@) {
        Ok(StrategyType::MovingAverageCrossover)
    } else {
        Err("Type de stratégie inconnu: "@ + name)
    }
}

/// Tells the kind of the strategy named `name` (see `strategy_type_for`).
pub fn strategy_type_of(name: &str) -> (r: Result<StrategyType, String>)
    ensures
        match (r, strategy_type_for(name@)) {
            (Ok(t), Ok(u)) => t == u,
            (Err(e), Err(m)) => e@ == m,
            _ => false,
        },
{
    if contains_str(name, "RSI") {
        Ok(StrategyType::RSI)
    } else if contains_str(name, "MA Crossover") || contains_str(name, "Moving Average") {
        Ok(StrategyType::MovingAverageCrossover)
    } else {
        let mut e = to_string("Type de stratégie inconnu: ");
        append_str(&mut e, name);
        Err(e)
    }
}

} // verus!
