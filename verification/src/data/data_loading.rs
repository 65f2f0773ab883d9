//! What the start-up load does: fill an empty data folder, or check that each loaded
//! symbol has its monthly series.
use vstd::prelude::*;
use crate::handlers::series::{list_holds, text_list};
use crate::text::to_string;

verus! {

/// The start-up load's plan.
#[derive(Debug)]
pub enum StartupPlan {
    /// The data folder is empty: download every series of `symbol`.
    DownloadAll { symbol: String },
    /// Check that each of `symbols` (each once) has its monthly series, and download
    /// it where it lacks.
    CheckMonthly { symbols: Vec<String> },
}

/// Texts pairwise distinct.
pub open spec fn all_distinct(v: Seq<Seq<char>>) -> bool {
    forall|i: int, j: int| 0 <= i < v.len() && 0 <= j < v.len() && i != j ==> v[i] != v[j]
}

/// The symbols of the loaded series, each once, in the order they first appear.
pub fn distinct_symbols(symbols: &Vec<String>) -> (r: Vec<String>)
    ensures
        all_distinct(text_list(r@)),
        text_list(r@).to_set() == text_list(symbols@).to_set(),
{
    let mut r: Vec<String> = Vec::new();
    let mut i: usize = 0;
    while i < symbols.len()
        invariant
            i <= symbols@.len(),
            all_distinct(text_list(r@)),
            text_list(r@).to_set() == text_list(symbols@.take(i as int)).to_set(),
        decreases symbols@.len() - i,
    {
        let ghost before = text_list(r@);
        let ghost seen = text_list(symbols@.take(i as int));
        let s = &symbols[i];
        proof {
            assert(text_list(symbols@.take(i + 1)) =~= seen.push(s@));
        }
        if !list_holds(&r, s) {
            proof {
                assert forall|k: int| 0 <= k < before.len() implies before[k] != s@ by {
                    assert(before.contains(before[k]));
                }
            }
            r.push(s.clone());
            proof {
                assert(text_list(r@) =~= before.push(s@));
                before.lemma_push_to_set_commute(s@);
                seen.lemma_push_to_set_commute(s@);
            }
        } else {
            proof {
                assert(before.to_set().contains(s@));
                seen.lemma_push_to_set_commute(s@);
                assert(before.to_set().insert(s@) =~= before.to_set());
            }
        }
        i = i + 1;
    }
    assert(symbols@.take(symbols@.len() as int) =~= symbols@);
    r
}

/// Plans the start-up load: an empty data folder gets every series of "BTCUSDT";
/// otherwise each symbol among the loaded series is checked once for its monthly series.
pub fn plan_startup_load(data_dir_empty: bool, loaded_symbols: &Vec<String>) -> (p: StartupPlan)
    ensures
        data_dir_empty ==> (p matches StartupPlan::DownloadAll { symbol } && symbol@ == "BTCUSDT"@),
        !data_dir_empty ==> (p matches StartupPlan::CheckMonthly { symbols }
            && all_distinct(text_list(symbols@))
            && text_list(symbols@).to_set() == text_list(loaded_symbols@).to_set()),
{
    if data_dir_empty {
        StartupPlan::DownloadAll { symbol: to_string("BTCUSDT") }
    } else {
        StartupPlan::CheckMonthly { symbols: distinct_symbols(loaded_symbols) }
    }
}

} // verus!
