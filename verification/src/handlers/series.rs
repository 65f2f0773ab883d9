//! Which loaded series to show: for an asset picked in the header, and when the saved
//! timeframe is restored at start-up.
use vstd::prelude::*;
use crate::text::str_equal;

verus! {

/// A loaded series as the selection rules see it.
#[derive(Debug, Clone)]
pub struct SeriesKey {
    pub symbol: String,
    pub interval: String,
}

/// The texts of an optional string.
pub open spec fn opt_text(o: Option<&String>) -> Option<Seq<char>> {
    match o {
        Some(s) => Some(s@),
        None => None,
    }
}

/// Series `j` of `keys` has the interval `interval` (when one is given) and a symbol
/// among `symbols` (when they are given).
pub open spec fn series_pred(keys: Seq<SeriesKey>, interval: Option<Seq<char>>, symbols: Option<Seq<Seq<char>>>) -> spec_fn(int) -> bool {
    |j: int| (interval matches Some(iv) ==> keys[j].interval@ == iv)
        && (symbols matches Some(ss) ==> ss.contains(keys[j].symbol@))
}

/// `i` is the first of the `n` positions where `p` holds.
pub open spec fn is_first(n: int, p: spec_fn(int) -> bool, i: int) -> bool {
    &&& 0 <= i < n
    &&& p(i)
    &&& forall|j: int| 0 <= j < i ==> !#[trigger] p(j)
}

/// The first of the `n` positions where `p` holds, if any.
pub open spec fn first_index(n: int, p: spec_fn(int) -> bool) -> Option<int> {
    if exists|i: int| is_first(n, p, i) {
        Some(choose|i: int| is_first(n, p, i))
    } else {
        None
    }
}

/// The first position is unique, and absent when `p` holds nowhere.
pub proof fn lemma_first_index(n: int, p: spec_fn(int) -> bool, i: int)
    ensures
        is_first(n, p, i) ==> first_index(n, p) == Some(i),
        (forall|j: int| 0 <= j < n ==> !#[trigger] p(j)) ==> first_index(n, p) is None,
{
    if is_first(n, p, i) {
        let k = choose|k: int| is_first(n, p, k);
        if k < i {
            assert(!p(k));
        }
        if k > i {
            assert(!p(i));
        }
    }
}

/// The texts of a list of strings.
pub open spec fn text_list(v: Seq<String>) -> Seq<Seq<char>> {
    v.map_values(|s: String| s@)
}

/// Whether some string of `v` has the text of `s`.
pub fn list_holds(v: &Vec<String>, s: &String) -> (b: bool)
    ensures
        b == text_list(v@).contains(s@),
{
    let mut i: usize = 0;
    while i < v.len()
        invariant
            i <= v@.len(),
            forall|j: int| 0 <= j < i ==> v@[j]@ != s@,
        decreases v@.len() - i,
    {
        if str_equal(v[i].as_str(), s.as_str()) {
            assert(text_list(v@)[i as int] == s@);
            return true;
        }
        i = i + 1;
    }
    proof {
        if text_list(v@).contains(s@) {
            let j = choose|j: int| 0 <= j < text_list(v@).len() && text_list(v@)[j] == s@;
            assert(v@[j]@ == s@);
        }
    }
    false
}

/// The first series with the given interval (when one is given) whose symbol is among
/// `symbols` (when they are given).
pub fn find_series(keys: &Vec<SeriesKey>, interval: Option<&String>, symbols: Option<&Vec<String>>) -> (r: Option<usize>)
    ensures
        ({
            let p = series_pred(keys@, opt_text(interval), match symbols { Some(v) => Some(text_list(v@)), None => None });
            match r {
                Some(i) => first_index(keys@.len() as int, p) == Some(i as int),
                None => first_index(keys@.len() as int, p) is None,
            }
        }),
{
    let ghost p = series_pred(keys@, opt_text(interval), match symbols { Some(v) => Some(text_list(v@)), None => None });
    let mut i: usize = 0;
    while i < keys.len()
        invariant
            i <= keys@.len(),
            p == series_pred(keys@, opt_text(interval), match symbols { Some(v) => Some(text_list(v@)), None => None }),
            forall|j: int| 0 <= j < i ==> !#[trigger] p(j),
        decreases keys@.len() - i,
    {
        let interval_ok = match interval {
            Some(iv) => str_equal(keys[i].interval.as_str(), iv.as_str()),
            None => true,
        };
        let symbol_ok = match symbols {
            Some(v) => list_holds(v, &keys[i].symbol),
            None => true,
        };
        if interval_ok && symbol_ok {
            proof {
                assert(p(i as int));
                lemma_first_index(keys@.len() as int, p, i as int);
            }
            return Some(i);
        }
        i = i + 1;
    }
    proof {
        lemma_first_index(keys@.len() as int, p, 0);
    }
    None
}

/// The first of two choices that is made.
pub open spec fn or_else(a: Option<int>, b: Option<int>) -> Option<int> {
    if a is Some { a } else { b }
}

/// The position as an integer.
pub open spec fn as_int(r: Option<usize>) -> Option<int> {
    match r {
        Some(i) => Some(i as int),
        None => None,
    }
}

/// The series shown for an asset picked in the header: the first with its symbol and
/// the active interval, else the first with its symbol.
pub open spec fn asset_series(keys: Seq<SeriesKey>, symbol: Seq<char>, active_interval: Seq<char>) -> Option<int> {
    or_else(
        first_index(keys.len() as int, series_pred(keys, Some(active_interval), Some(seq![symbol]))),
        first_index(keys.len() as int, series_pred(keys, None, Some(seq![symbol]))),
    )
}

/// Picks the series to show for the asset `symbol` chosen in the header, preferring the
/// interval shown now; `None` when no series of the asset is loaded (it is then
/// downloaded).
pub fn series_for_asset(keys: &Vec<SeriesKey>, symbol: &String, active_interval: &String) -> (r: Option<usize>)
    ensures
        as_int(r) == asset_series(keys@, symbol@, active_interval@),
{
    let one = vec![symbol.clone()];
    assert(text_list(one@) =~= seq![symbol@]);
    match find_series(keys, Some(active_interval), Some(&one)) {
        Some(i) => Some(i),
        None => find_series(keys, None, Some(&one)),
    }
}

/// The series whose interval is restored at start-up: among the series with the saved
/// interval, the first whose symbol is selected, else the first with the saved symbol,
/// else the first of them.
pub open spec fn restored_series(
    keys: Seq<SeriesKey>,
    saved_interval: Seq<char>,
    selected: Seq<Seq<char>>,
    saved_symbol: Option<Seq<char>>,
) -> Option<int> {
    let n = keys.len() as int;
    let by_saved = match saved_symbol {
        Some(s) => first_index(n, series_pred(keys, Some(saved_interval), Some(seq![s]))),
        None => None,
    };
    or_else(
        first_index(n, series_pred(keys, Some(saved_interval), Some(selected))),
        or_else(by_saved, first_index(n, series_pred(keys, Some(saved_interval), None))),
    )
}

/// Picks the series to show when the saved timeframe is restored (see
/// `restored_series`); `selected` holds the symbols of the selected assets.
pub fn series_to_restore(
    keys: &Vec<SeriesKey>,
    saved_interval: &String,
    selected: &Vec<String>,
    saved_symbol: Option<&String>,
) -> (r: Option<usize>)
    ensures
        as_int(r) == restored_series(keys@, saved_interval@, text_list(selected@), opt_text(saved_symbol)),
{
    let ghost n = keys@.len() as int;
    if selected.len() > 0 {
        match find_series(keys, Some(saved_interval), Some(selected)) {
            Some(i) => {
                return Some(i);
            },
            None => {},
        }
    } else {
        proof {
            let p = series_pred(keys@, Some(saved_interval@), Some(text_list(selected@)));
            assert forall|j: int| 0 <= j < n implies !#[trigger] p(j) by {
                assert(text_list(selected@).len() == 0);
            }
            lemma_first_index(n, p, 0);
        }
    }
    match saved_symbol {
        Some(s) => {
            let one = vec![s.clone()];
            assert(text_list(one@) =~= seq![s@]);
            match find_series(keys, Some(saved_interval), Some(&one)) {
                Some(i) => {
                    return Some(i);
                },
                None => {},
            }
        },
        None => {},
    }
    find_series(keys, Some(saved_interval), None)
}

/// The asset symbol remembered after the timeframe is restored: the saved symbol when
/// it is selected; with no saved symbol, the restored series' symbol when none was
/// remembered and that symbol is selected; otherwise the remembered one.
pub open spec fn restored_symbol(
    current: Option<Seq<char>>,
    saved: Option<Seq<char>>,
    selected: Seq<Seq<char>>,
    series_symbol: Seq<char>,
) -> Option<Seq<char>> {
    match saved {
        Some(s) => if selected.contains(s) { Some(s) } else { current },
        None => if current is None && selected.contains(series_symbol) { Some(series_symbol) } else { current },
    }
}

/// The texts of an optional owned string.
pub open spec fn opt_string_text(o: Option<String>) -> Option<Seq<char>> {
    match o {
        Some(s) => Some(s@),
        None => None,
    }
}

/// Decides the asset symbol remembered after the timeframe is restored (see
/// `restored_symbol`).
pub fn restore_asset_symbol(
    current: Option<String>,
    saved: Option<String>,
    selected: &Vec<String>,
    series_symbol: String,
) -> (r: Option<String>)
    ensures
        opt_string_text(r) == restored_symbol(opt_string_text(current), opt_string_text(saved), text_list(selected@), series_symbol@),
{
    match saved {
        Some(s) => if list_holds(selected, &s) { Some(s) } else { current },
        None => if current.is_none() && selected.len() > 0 && list_holds(selected, &series_symbol) {
            Some(series_symbol)
        } else {
            current
        },
    }
}

} // verus!
