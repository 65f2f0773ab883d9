//! Gap detection decisions and the list of ranges to download for a series.
use vstd::prelude::*;
use crate::realtime::realtime_utils::{
    binance_format, calculate_recent_gap_threshold, compute_fetch_since, extract_interval,
    fetch_since, interval_part, interval_seconds, interval_to_seconds, is_binance_format,
    recent_gap_threshold, threshold_fits,
};

verus! {

/// Gaps sorted from the newest start to the oldest.
pub open spec fn newest_first(s: Seq<(i64, i64)>) -> bool {
    forall|a: int, b: int| 0 <= a < b < s.len() ==> (#[trigger] s[a]).0 >= (#[trigger] s[b]).0
}

/// Sorts gaps from the newest start to the oldest.
pub fn sort_gaps_newest_first(gaps: Vec<(i64, i64)>) -> (r: Vec<(i64, i64)>)
    ensures
        r@.to_multiset() == gaps@.to_multiset(),
        newest_first(r@),
        r@.len() == gaps@.len(),
{
    broadcast use vstd::seq_lib::group_to_multiset_ensures;
    let mut r: Vec<(i64, i64)> = Vec::new();
    let mut i: usize = 0;
    while i < gaps.len()
        invariant
            i <= gaps@.len(),
            r@.to_multiset() == gaps@.take(i as int).to_multiset(),
            newest_first(r@),
            r@.len() == i,
        decreases gaps@.len() - i,
    {
        let g = gaps[i];
        let mut j: usize = 0;
        while j < r.len() && r[j].0 >= g.0
            invariant
                j <= r@.len(),
                forall|k: int| 0 <= k < j ==> r@[k].0 >= g.0,
            decreases r@.len() - j,
        {
            j = j + 1;
        }
        let ghost old_r = r@;
        r.insert(j, g);
        proof {
            vstd::seq_lib::to_multiset_insert(old_r, j as int, g);
            assert(gaps@.take(i + 1) =~= gaps@.take(i as int).push(g));
            vstd::seq_lib::to_multiset_build(gaps@.take(i as int), g);
            assert forall|a: int, b: int| 0 <= a < b < r@.len() implies (#[trigger] r@[a]).0 >= (#[trigger] r@[b]).0 by {
                if j < old_r.len() {
                    assert(old_r[j as int].0 < g.0);
                }
                if a < j && b == j {
                    assert(r@[a] == old_r[a]);
                } else if a == j && b > j {
                    assert(r@[b] == old_r[b - 1]);
                    if b - 1 > j {
                        assert(old_r[j as int].0 >= old_r[b - 1].0);
                    }
                } else if a < j && b > j {
                    assert(r@[a] == old_r[a]);
                    assert(r@[b] == old_r[b - 1]);
                } else if b < j {
                    assert(r@[a] == old_r[a]);
                    assert(r@[b] == old_r[b]);
                } else {
                    assert(r@[a] == old_r[a - 1]);
                    assert(r@[b] == old_r[b - 1]);
                }
            }
        }
        i = i + 1;
    }
    assert(gaps@.take(gaps@.len() as int) =~= gaps@);
    r
}

/// Whether the newest candle is older than the recent-gap threshold.
pub open spec fn has_recent_gap(newest: int, now: int, interval_seconds: int) -> bool {
    newest > 0 && newest < now - recent_gap_threshold(interval_seconds)
}

/// The ranges to download to complete a series, newest first: the recent gap up to
/// `now` (if the newest candle is too old), then the internal gaps from the newest
/// to the oldest, then the history the exchange holds before the oldest candle (all
/// of it up to `now` when the series is empty).
pub open spec fn gap_plan_prefix(current_newest: int, now: int, interval_seconds: int) -> Seq<(i64, i64)> {
    if has_recent_gap(current_newest, now, interval_seconds) {
        seq![(current_newest as i64, now as i64)]
    } else {
        Seq::empty()
    }
}

/// The historical range: everything up to now when the series is empty, else what
/// the exchange holds before the oldest candle.
pub open spec fn gap_plan_suffix(current_oldest: int, api_oldest: int, now: int) -> Seq<(i64, i64)> {
    if current_oldest == 0 {
        seq![(api_oldest as i64, now as i64)]
    } else if api_oldest < current_oldest {
        seq![(api_oldest as i64, current_oldest as i64)]
    } else {
        Seq::empty()
    }
}

/// Plans the ranges to download to complete a series (see `gap_plan_prefix` and
/// `gap_plan_suffix`); `internal_gaps` come out sorted from the newest start to the
/// oldest. Timestamps of 0 mean "no candle".
pub fn plan_gaps(
    current_oldest: i64,
    current_newest: i64,
    api_oldest: i64,
    now: i64,
    interval_seconds: i64,
    internal_gaps: Vec<(i64, i64)>,
) -> (r: Vec<(i64, i64)>)
    requires
        threshold_fits(interval_seconds as int),
        current_newest > 0 ==> i64::MIN <= now - recent_gap_threshold(interval_seconds as int),
    ensures
        ({
            let n = gap_plan_prefix(current_newest as int, now as int, interval_seconds as int);
            let m = r@.len() - gap_plan_suffix(current_oldest as int, api_oldest as int, now as int).len();
            &&& r@.subrange(0, n.len() as int) == n
            &&& r@.subrange(n.len() as int, m) .to_multiset() == internal_gaps@.to_multiset()
            &&& newest_first(r@.subrange(n.len() as int, m))
            &&& r@.subrange(m, r@.len() as int) == gap_plan_suffix(current_oldest as int, api_oldest as int, now as int)
            &&& r@.len() == n.len() + internal_gaps@.len() + gap_plan_suffix(current_oldest as int, api_oldest as int, now as int).len()
        }),
{
    let mut all: Vec<(i64, i64)> = Vec::new();
    let threshold = calculate_recent_gap_threshold(interval_seconds);
    if current_newest > 0 && current_newest < now - threshold {
        all.push((current_newest, now));
    }
    let ghost n = all@;
    assert(n == gap_plan_prefix(current_newest as int, now as int, interval_seconds as int));
    let sorted = sort_gaps_newest_first(internal_gaps);
    let ghost mid = sorted@;
    let mut sorted = sorted;
    all.append(&mut sorted);
    let ghost before_suffix = all@;
    if current_oldest == 0 {
        all.push((api_oldest, now));
    } else if api_oldest < current_oldest {
        all.push((api_oldest, current_oldest));
    }
    proof {
        let sfx = gap_plan_suffix(current_oldest as int, api_oldest as int, now as int);
        assert(all@ =~= n + mid + sfx);
        assert(all@.subrange(0, n.len() as int) =~= n);
        assert(all@.subrange(n.len() as int, all@.len() - sfx.len()) =~= mid);
        assert(all@.subrange(all@.len() - sfx.len(), all@.len() as int) =~= sfx);
    }
    all
}

/// Expected number of candles of the given interval in `duration` seconds (none for
/// a duration that is not positive; capped at `usize::MAX`).
pub fn calculate_expected_candles(interval: &str, duration: i64) -> (n: usize)
    ensures
        duration <= 0 ==> n == 0,
        duration > 0 ==> n == (if duration / interval_seconds(interval@) <= usize::MAX {
            duration / interval_seconds(interval@)
        } else {
            usize::MAX as int
        }),
{
    let step = interval_to_seconds(interval);
    if duration <= 0 {
        0
    } else {
        let q = duration / step;
        assert(q <= duration) by (nonlinear_arith) requires step >= 1, duration > 0, q == duration / step;
        if q as u64 <= usize::MAX as u64 { q as usize } else { usize::MAX }
    }
}

/// The number of candles `calculate_expected_candles` expects in `duration` seconds.
pub open spec fn expected_candles(interval: Seq<char>, duration: int) -> int {
    if duration <= 0 {
        0
    } else if duration / (interval_seconds(interval) as int) <= usize::MAX {
        duration / (interval_seconds(interval) as int)
    } else {
        usize::MAX as int
    }
}

/// Expected candles over the first `n` gaps.
pub open spec fn expected_total(interval: Seq<char>, gaps: Seq<(i64, i64)>, n: int) -> int
    decreases n,
{
    if n <= 0 {
        0
    } else {
        expected_total(interval, gaps, n - 1) + expected_candles(interval, gaps[n - 1].1 - gaps[n - 1].0)
    }
}

/// The estimated number of candles a download of `gaps` brings: the sum, over the
/// gaps, of the candles expected between their start and end.
pub fn estimate_total_candles(interval: &str, gaps: &Vec<(i64, i64)>) -> (n: usize)
    requires
        forall|k: int| 0 <= k < gaps@.len() ==> i64::MIN <= #[trigger] gaps@[k].1 - gaps@[k].0 <= i64::MAX,
        expected_total(interval@, gaps@, gaps@.len() as int) <= usize::MAX,
    ensures
        n == expected_total(interval@, gaps@, gaps@.len() as int),
{
    let mut total: usize = 0;
    let mut i: usize = 0;
    while i < gaps.len()
        invariant
            i <= gaps@.len(),
            forall|k: int| 0 <= k < gaps@.len() ==> i64::MIN <= #[trigger] gaps@[k].1 - gaps@[k].0 <= i64::MAX,
            expected_total(interval@, gaps@, gaps@.len() as int) <= usize::MAX,
            total == expected_total(interval@, gaps@, i as int),
        decreases gaps@.len() - i,
    {
        let (start, end) = gaps[i];
        assert(i64::MIN <= gaps@[i as int].1 - gaps@[i as int].0 <= i64::MAX);
        let c = calculate_expected_candles(interval, end - start);
        proof {
            lemma_expected_total_monotone(interval@, gaps@, i + 1, gaps@.len() as int);
        }
        total = total + c;
        i = i + 1;
    }
    total
}

/// The expected total only grows with the number of gaps counted.
proof fn lemma_expected_total_monotone(interval: Seq<char>, gaps: Seq<(i64, i64)>, m: int, n: int)
    requires
        m <= n,
    ensures
        expected_total(interval, gaps, m) <= expected_total(interval, gaps, n),
    decreases n - m,
{
    if m < n {
        lemma_expected_total_monotone(interval, gaps, m, n - 1);
        assert(expected_candles(interval, gaps[n - 1].1 - gaps[n - 1].0) >= 0);
    }
}

/// Whether a series may have gaps to fill, judged without asking the exchange: its
/// name must be in exchange form; then it has gaps when it is empty, when its
/// newest candle is older than the recent-gap threshold, or when it has internal
/// gaps. `newest` is the timestamp of its newest candle, if any.
pub fn has_gaps_to_fill(series_name: &str, candle_count: usize, newest: Option<i64>, now: i64, internal_gap_count: usize) -> (b: bool)
    requires
        binance_format(series_name@) && candle_count > 0 && (newest matches Some(t) && t > 0) ==> i64::MIN
            <= now - recent_gap_threshold(interval_seconds(interval_part(series_name@)) as int),
    ensures
        b == (binance_format(series_name@) && (candle_count == 0
            || has_recent_gap(
                match newest { Some(t) => t as int, None => 0 },
                now as int,
                interval_seconds(interval_part(series_name@)) as int,
            ) || internal_gap_count > 0)),
{
    if !is_binance_format(series_name) {
        return false;
    }
    if candle_count == 0 {
        return true;
    }
    let interval = extract_interval(series_name);
    let secs = interval_to_seconds(interval);
    let threshold = calculate_recent_gap_threshold(secs);
    let newest_ts = match newest {
        Some(t) => t,
        None => 0,
    };
    if newest_ts > 0 && newest_ts < now - threshold {
        return true;
    }
    internal_gap_count > 0
}

/// How to fetch the missing recent data of one series.
#[derive(Debug, Clone, Copy, PartialEq, Eq, Structural)]
pub enum FetchPlan {
    /// Fetch the candles since `since`; `stale` tells that only the last hundred are fetched.
    Since { since: i64, stale: bool },
    /// The series is empty: fetch all of it.
    Full,
}

/// Plan for a series whose newest candle is at `last` (none when empty).
pub open spec fn fetch_plan(name: Seq<char>, last: Option<i64>, now: i64) -> FetchPlan {
    match last {
        Some(t) => {
            let r = fetch_since(t as int, now as int, interval_part(name));
            FetchPlan::Since { since: r.0 as i64, stale: r.1 }
        },
        None => FetchPlan::Full,
    }
}

/// The plans for the series in exchange form among the first `n`, in order, each with
/// the series' position.
pub open spec fn missing_data_plans(names: Seq<Seq<char>>, lasts: Seq<Option<i64>>, now: i64, n: int) -> Seq<(usize, FetchPlan)>
    decreases n,
{
    if n <= 0 {
        Seq::empty()
    } else {
        let rest = missing_data_plans(names, lasts, now, n - 1);
        if binance_format(names[n - 1]) {
            rest.push(((n - 1) as usize, fetch_plan(names[n - 1], lasts[n - 1], now)))
        } else {
            rest
        }
    }
}

/// The fetch window of a series in exchange form whose newest candle is at `last` can
/// be computed in `i64`: the age of the data, and the start of the last hundred
/// candles when the data is stale.
pub open spec fn fetch_fits(name: Seq<char>, last: Option<i64>, now: i64) -> bool {
    binance_format(name) ==> (last matches Some(t) ==> {
        let secs = interval_seconds(interval_part(name));
        &&& i64::MIN <= now - t <= i64::MAX
        &&& now - t >= secs * 2 ==> i64::MIN <= now - secs * 100
    })
}

/// Plans how to complete the recent data of every series whose name is in exchange
/// form (`SYMBOL_INTERVAL`): from the newest candle, or the last hundred candles when
/// the data is stale, or the whole series when it is empty. `last_timestamps[i]` is
/// the newest candle of series `i`, if any.
pub fn complete_missing_data(series_names: &Vec<String>, last_timestamps: &Vec<Option<i64>>, now: i64) -> (plans: Vec<(usize, FetchPlan)>)
    requires
        last_timestamps@.len() == series_names@.len(),
        forall|i: int| 0 <= i < last_timestamps@.len() ==> fetch_fits(
            #[trigger] series_names@[i]@,
            last_timestamps@[i],
            now,
        ),
    ensures
        plans@ == missing_data_plans(series_names@.map_values(|s: String| s@), last_timestamps@, now, series_names@.len() as int),
{
    let ghost names = series_names@.map_values(|s: String| s@);
    let mut plans: Vec<(usize, FetchPlan)> = Vec::new();
    let mut i: usize = 0;
    while i < series_names.len()
        invariant
            i <= series_names@.len(),
            last_timestamps@.len() == series_names@.len(),
            names == series_names@.map_values(|s: String| s@),
            forall|k: int| 0 <= k < last_timestamps@.len() ==> fetch_fits(
                #[trigger] series_names@[k]@,
                last_timestamps@[k],
                now,
            ),
            plans@ == missing_data_plans(names, last_timestamps@, now, i as int),
        decreases series_names@.len() - i,
    {
        let name = series_names[i].as_str();
        assert(names[i as int] == name@);
        if is_binance_format(name) {
            let plan = match last_timestamps[i] {
                Some(t) => {
                    assert(last_timestamps@[i as int] matches Some(t2) && t2 == t);
                    assert(fetch_fits(series_names@[i as int]@, last_timestamps@[i as int], now));
                    let interval = extract_interval(name);
                    let (since, stale) = compute_fetch_since(t, now, interval);
                    FetchPlan::Since { since, stale }
                },
                None => FetchPlan::Full,
            };
            plans.push((i, plan));
        }
        i = i + 1;
    }
    plans
}

} // verus!
