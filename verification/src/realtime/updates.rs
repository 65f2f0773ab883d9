//! Which shown series are refreshed in real time.
use vstd::prelude::*;
use crate::realtime::realtime_utils::{binance_format, is_binance_format};

verus! {

/// Positions, in order, of the names among the first `n` that are in exchange form.
pub open spec fn exchange_positions(names: Seq<Seq<char>>, n: int) -> Seq<usize>
    decreases n,
{
    if n <= 0 {
        Seq::empty()
    } else if binance_format(names[n - 1]) {
        exchange_positions(names, n - 1).push((n - 1) as usize)
    } else {
        exchange_positions(names, n - 1)
    }
}

/// The shown series to refresh: none when real-time updates are off; otherwise those
/// whose name is in exchange form (`SYMBOL_INTERVAL`), by position, in order.
pub fn realtime_series(enabled: bool, series_names: &Vec<String>) -> (r: Vec<usize>)
    ensures
        !enabled ==> r@.len() == 0,
        enabled ==> r@ == exchange_positions(series_names@.map_values(|s: String| s@), series_names@.len() as int),
{
    let mut r: Vec<usize> = Vec::new();
    if !enabled {
        return r;
    }
    let ghost names = series_names@.map_values(|s: String| s@);
    let mut i: usize = 0;
    while i < series_names.len()
        invariant
            i <= series_names@.len(),
            names == series_names@.map_values(|s: String| s@),
            r@ == exchange_positions(names, i as int),
        decreases series_names@.len() - i,
    {
        assert(names[i as int] == series_names@[i as int]@);
        if is_binance_format(series_names[i].as_str()) {
            r.push(i);
        }
        i = i + 1;
    }
    r
}

} // verus!
