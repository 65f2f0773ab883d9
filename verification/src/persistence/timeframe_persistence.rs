//! The selected interval, saved between runs.
use vstd::prelude::*;
use crate::text::to_string;

verus! {

/// The selected interval and, optionally, the symbol it was chosen for.
#[derive(Debug, Clone)]
pub struct TimeframePersistenceState {
    /// Interval such as "1h", "15m" or "1d".
    pub interval: String,
    /// Symbol whose series should be preferred, if any.
    pub symbol: Option<String>,
}

impl TimeframePersistenceState {
    /// One hour, no symbol.
    pub fn new() -> (s: Self)
        ensures
            s.interval@ == "1h"@,
            s.symbol is None,
    {
        TimeframePersistenceState { interval: to_string("1h"), symbol: None }
    }
}

impl Default for TimeframePersistenceState {
    /// One hour, no symbol.
    fn default() -> (s: Self)
        ensures
            s.interval@ == "1h"@,
            s.symbol is None,
    {
        TimeframePersistenceState::new()
    }
}

} // verus!
