//! Pure helpers on series names, intervals and fetch windows.
use vstd::prelude::*;
use vstd::string::StrSliceExecFns;
use crate::text::{append_str, str_equal, to_string};
use crate::state::notifications::nanos_of;

verus! {

/// A series name in exchange form `SYMBOL_INTERVAL`: exactly one underscore,
/// neither the first nor the last character.
pub open spec fn binance_format(s: Seq<char>) -> bool {
    exists|i: int|
        0 < i < s.len() - 1 && #[trigger] s[i] == '_' && (forall|j: int|
            0 <= j < s.len() && j != i ==> s[j] != '_')
}

/// The interval part of a series name: what follows its last underscore, or the
/// whole name when it holds none.
pub open spec fn interval_part(s: Seq<char>) -> Seq<char> {
    if exists|k: int| 0 <= k < s.len() && s[k] == '_' {
        let k = choose|k: int|
            0 <= k < s.len() && s[k] == '_' && (forall|j: int| k < j < s.len() ==> s[j] != '_');
        s.subrange(k + 1, s.len() as int)
    } else {
        s
    }
}

/// Length in seconds of the exchange intervals; any other text counts as one hour.
pub open spec fn interval_seconds(s: Seq<char>) -> i64 {
    if s == "1s"@ { 1 }
    else if s == "1m"@ { 60 }
    else if s == "3m"@ { 180 }
    else if s == "5m"@ { 300 }
    else if s == "15m"@ { 900 }
    else if s == "30m"@ { 1800 }
    else if s == "1h"@ { 3600 }
    else if s == "2h"@ { 7200 }
    else if s == "4h"@ { 14400 }
    else if s == "6h"@ { 21600 }
    else if s == "8h"@ { 28800 }
    else if s == "12h"@ { 43200 }
    else if s == "1d"@ { 86400 }
    else if s == "3d"@ { 259200 }
    else if s == "1w"@ { 604800 }
    else if s == "1M"@ { 2592000 }
    else { 3600 }
}

/// The exchange's interval names.
pub open spec fn exchange_interval_names() -> Seq<Seq<char>> {
    seq!["1s"@, "1m"@, "3m"@, "5m"@, "15m"@, "30m"@, "1h"@, "2h"@, "4h"@, "6h"@, "8h"@, "12h"@, "1d"@, "3d"@, "1w"@, "1M"@]
}

/// The number a run of decimal digits writes.
pub open spec fn count_written(s: Seq<char>) -> int
    decreases s.len(),
{
    if s.len() == 0 {
        0
    } else {
        count_written(s.drop_last()) * 10 + ((s.last() as int) - ('0' as int))
    }
}

/// Seconds in one unit of an interval name: s(econd), m(inute), h(our), d(ay),
/// w(eek), M(onth of thirty days).
pub open spec fn unit_seconds(c: char) -> int {
    if c == 's' { 1 }
    else if c == 'm' { 60 }
    else if c == 'h' { 3600 }
    else if c == 'd' { 86400 }
    else if c == 'w' { 604800 }
    else if c == 'M' { 2592000 }
    else { 0 }
}

/// Every exchange interval lasts what its name says: the number written before the
/// unit times the unit's length in seconds (so "30m" is 30 minutes, "12h" twelve hours,
/// "3d" three days); none of them falls back on the one-hour default kept for unknown
/// names unless its name says one hour.
pub proof fn law_interval_lengths(i: int)
    requires
        0 <= i < exchange_interval_names().len(),
    ensures
        interval_seconds(exchange_interval_names()[i]) == count_written(exchange_interval_names()[i].drop_last())
            * unit_seconds(exchange_interval_names()[i].last()),
{
    reveal_strlit("1s");
    reveal_strlit("1m");
    reveal_strlit("3m");
    reveal_strlit("5m");
    reveal_strlit("15m");
    reveal_strlit("30m");
    reveal_strlit("1h");
    reveal_strlit("2h");
    reveal_strlit("4h");
    reveal_strlit("6h");
    reveal_strlit("8h");
    reveal_strlit("12h");
    reveal_strlit("1d");
    reveal_strlit("3d");
    reveal_strlit("1w");
    reveal_strlit("1M");
    let s = exchange_interval_names()[i];
    assert(count_written(s.drop_last()) == count_written(s.drop_last().drop_last()) * 10
        + ((s.drop_last().last() as int) - ('0' as int)));
    if s.len() == 3 {
        assert(s.drop_last().drop_last().drop_last().len() == 0);
        assert(count_written(s.drop_last().drop_last()) == count_written(s.drop_last().drop_last().drop_last()) * 10
            + ((s.drop_last().drop_last().last() as int) - ('0' as int)));
    } else {
        assert(s.drop_last().drop_last().len() == 0);
    }
}

/// Whether `series_name` has the form `SYMBOL_INTERVAL` (e.g. "BTCUSDT_1h").
pub fn is_binance_format(series_name: &str) -> (b: bool)
    ensures
        b == binance_format(series_name@),
{
    let n = series_name.unicode_len();
    let ghost s = series_name@;
    let mut first: usize = n;
    let mut count: usize = 0;
    let mut i: usize = 0;
    while i < n
        invariant
            n == s.len(),
            s == series_name@,
            i <= n,
            count <= i,
            count == 0 ==> first == n && forall|j: int| 0 <= j < i ==> s[j] != '_',
            count >= 1 ==> first < i && s[first as int] == '_' && forall|j: int| 0 <= j < first ==> s[j] != '_',
            count == 1 ==> forall|j: int| 0 <= j < i && j != first ==> s[j] != '_',
            count >= 2 ==> exists|j: int| 0 <= j < i && j != first && s[j] == '_',
        decreases n - i,
    {
        if series_name.get_char(i) == '_' {
            if count == 0 {
                first = i;
            }
            count = count + 1;
        }
        i = i + 1;
    }
    let b = count == 1 && first > 0 && first + 1 < n;
    proof {
        if b {
            assert(s[first as int] == '_');
        }
        if binance_format(s) {
            let k = choose|k: int|
                0 < k < s.len() - 1 && #[trigger] s[k] == '_' && (forall|j: int|
                    0 <= j < s.len() && j != k ==> s[j] != '_');
            if count == 0 {
                assert(s[k] != '_');
            } else if count >= 2 {
                let j = choose|j: int| 0 <= j < n && j != first && s[j] == '_';
                assert(j == k);
                assert(first == k);
            } else {
                assert(first == k);
            }
        }
    }
    b
}

/// The interval of a series name: the text after its last underscore, or the
/// whole name when it holds none.
pub fn extract_interval(series_name: &str) -> (r: &str)
    ensures
        r@ == interval_part(series_name@),
{
    let n = series_name.unicode_len();
    let ghost s = series_name@;
    let mut i: usize = n;
    while i > 0
        invariant
            n == s.len(),
            s == series_name@,
            i <= n,
            forall|j: int| i <= j < n ==> s[j] != '_',
        decreases i,
    {
        if series_name.get_char(i - 1) == '_' {
            let k = i - 1;
            let r = series_name.substring_char(i, n);
            proof {
                assert(s[k as int] == '_');
                let c = choose|c: int|
                    0 <= c < s.len() && s[c] == '_' && (forall|j: int| c < j < s.len() ==> s[j] != '_');
                if c < k {
                    assert(s[k as int] != '_');
                }
                if c > k {
                    assert(s[c] != '_');
                }
                assert(c == k);
            }
            return r;
        }
        i = i - 1;
    }
    series_name
}

/// The name of the exchange series of `symbol` at `interval`: `SYMBOL_INTERVAL`.
pub fn series_name(symbol: &str, interval: &str) -> (r: String)
    ensures
        r@ == symbol@ + "_"@ + interval@,
{
    let mut r = to_string(symbol);
    append_str(&mut r, "_");
    append_str(&mut r, interval);
    r
}

/// A name built from a symbol and an interval, both non-empty and without underscore,
/// is in exchange form, and its interval part is that interval.
pub proof fn law_series_name_round_trip(symbol: Seq<char>, interval: Seq<char>)
    requires
        symbol.len() > 0,
        interval.len() > 0,
        forall|j: int| 0 <= j < symbol.len() ==> symbol[j] != '_',
        forall|j: int| 0 <= j < interval.len() ==> interval[j] != '_',
    ensures
        binance_format(symbol + "_"@ + interval),
        interval_part(symbol + "_"@ + interval) == interval,
{
    reveal_strlit("_");
    let s = symbol + "_"@ + interval;
    let u = symbol.len() as int;
    assert(s[u] == '_');
    assert forall|j: int| 0 <= j < s.len() && j != u implies s[j] != '_' by {
        if j < u {
            assert(s[j] == symbol[j]);
        } else {
            assert(s[j] == interval[j - u - 1]);
        }
    }
    assert(exists|k: int| 0 <= k < s.len() && s[k] == '_');
    let k = choose|k: int| 0 <= k < s.len() && s[k] == '_' && (forall|j: int| k < j < s.len() ==> s[j] != '_');
    assert(0 <= u < s.len() && s[u] == '_' && (forall|j: int| u < j < s.len() ==> s[j] != '_'));
    assert(k == u);
    assert(s.subrange(k + 1, s.len() as int) =~= interval);
}

/// Length in seconds of an exchange interval ("1m", "15m", "1h", "1d", ...); any
/// other text counts as one hour.
pub fn interval_to_seconds(interval: &str) -> (secs: i64)
    ensures
        secs == interval_seconds(interval@),
        1 <= secs <= 2592000,
{
    if str_equal(interval, "1s") { 1 }
    else if str_equal(interval, "1m") { 60 }
    else if str_equal(interval, "3m") { 180 }
    else if str_equal(interval, "5m") { 300 }
    else if str_equal(interval, "15m") { 900 }
    else if str_equal(interval, "30m") { 1800 }
    else if str_equal(interval, "1h") { 3600 }
    else if str_equal(interval, "2h") { 7200 }
    else if str_equal(interval, "4h") { 14400 }
    else if str_equal(interval, "6h") { 21600 }
    else if str_equal(interval, "8h") { 28800 }
    else if str_equal(interval, "12h") { 43200 }
    else if str_equal(interval, "1d") { 86400 }
    else if str_equal(interval, "3d") { 259200 }
    else if str_equal(interval, "1w") { 604800 }
    else if str_equal(interval, "1M") { 2592000 }
    else { 3600 }
}

/// Every interval lasts between one second and thirty days.
pub proof fn lemma_interval_seconds_bounds(s: Seq<char>)
    ensures
        1 <= interval_seconds(s) <= 2592000,
{
}

/// Seconds spanned by `count` candles of the given interval.
pub fn calculate_candles_back_timestamp(interval: &str, count: i64) -> (secs: i64)
    requires
        i64::MIN <= interval_seconds(interval@) * count <= i64::MAX,
    ensures
        secs == interval_seconds(interval@) * count,
{
    let step = interval_to_seconds(interval);
    step * count
}

/// Where to fetch from, and whether the data is stale: data younger than two
/// intervals is completed from the last timestamp; otherwise the last hundred
/// candles are fetched.
pub open spec fn fetch_since(last_timestamp: int, current_time: int, interval: Seq<char>) -> (int, bool) {
    if current_time - last_timestamp < interval_seconds(interval) * 2 {
        (last_timestamp, false)
    } else {
        (current_time - interval_seconds(interval) * 100, true)
    }
}

/// Chooses the timestamp to fetch from: `(last_timestamp, false)` when the data
/// is less than two intervals old, else the start of the last hundred candles
/// and `true` (stale).
pub fn compute_fetch_since(last_timestamp: i64, current_time: i64, interval: &str) -> (r: (i64, bool))
    requires
        i64::MIN <= current_time - last_timestamp <= i64::MAX,
        current_time - last_timestamp >= interval_seconds(interval@) * 2 ==> i64::MIN <= current_time
            - interval_seconds(interval@) * 100,
    ensures
        (r.0 as int, r.1) == fetch_since(last_timestamp as int, current_time as int, interval@),
{
    proof { lemma_interval_seconds_bounds(interval@); }
    let threshold_seconds = calculate_candles_back_timestamp(interval, 2);
    if current_time - last_timestamp < threshold_seconds {
        (last_timestamp, false)
    } else {
        let since = current_time - calculate_candles_back_timestamp(interval, 100);
        (since, true)
    }
}

/// Threshold for a recent gap: the interval plus a tenth of it (rounded toward
/// zero), at least five minutes.
pub open spec fn recent_gap_threshold(interval_seconds: int) -> int {
    let tenth = if interval_seconds >= 0 { interval_seconds / 10 } else { -((-interval_seconds) / 10) };
    if interval_seconds + tenth >= 300 { interval_seconds + tenth } else { 300 }
}

/// The interval plus its tenth (rounded toward zero) fits in an `i64`.
pub open spec fn threshold_fits(interval_seconds: int) -> bool {
    let tenth = if interval_seconds >= 0 { interval_seconds / 10 } else { -((-interval_seconds) / 10) };
    i64::MIN <= interval_seconds + tenth <= i64::MAX
}

/// Threshold in seconds past which the newest candle counts as a gap: the
/// interval plus 10%, and at least five minutes.
pub fn calculate_recent_gap_threshold(interval_seconds: i64) -> (t: i64)
    requires
        threshold_fits(interval_seconds as int),
    ensures
        t == recent_gap_threshold(interval_seconds as int),
{
    let tenth = interval_seconds / 10;
    let sum = interval_seconds + tenth;
    if sum >= 300 { sum } else { 300 }
}

/// Declares `std::time::SystemTime`, a reading of the system clock, as an opaque type.
#[verifier::external_type_specification]
#[verifier::external_body]
pub struct ExSystemTime(std::time::SystemTime);

/// Wraps `SystemTime::now`: the system clock's reading. It depends on the clock, so
/// nothing is stated of it.
#[verifier::external_body]
fn system_time_now() -> std::time::SystemTime {
    std::time::SystemTime::now()
}

/// Wraps `SystemTime::duration_since(UNIX_EPOCH)`: the time from 1970 to `t`, or `None`
/// when `t` lies before 1970 (the call's error). The clock reading is opaque here, so
/// nothing more is stated.
#[verifier::external_body]
fn since_unix_epoch(t: &std::time::SystemTime) -> Option<std::time::Duration> {
    t.duration_since(std::time::UNIX_EPOCH).ok()
}

/// Wraps `Duration::as_secs`: the whole seconds of `d`, its length in nanoseconds
/// divided by a billion, rounded down.
#[verifier::external_body]
fn duration_whole_secs(d: &std::time::Duration) -> (s: u64)
    ensures
        s == nanos_of(*d) / 1_000_000_000,
{
    d.as_secs()
}

/// The whole seconds of a time since 1970, as an `i64` (cast as `as i64` does, which
/// wraps only past the year 292 billion).
pub fn unix_seconds(d: &std::time::Duration) -> (s: i64)
    ensures
        s == (nanos_of(*d) / 1_000_000_000) as i64,
{
    let secs = duration_whole_secs(d);
    #[verifier::truncate] (secs as i64)
}

/// The current Unix time in whole seconds (see `unix_seconds`), or `None` when the
/// clock reads before 1970. Which time it is depends on the clock.
pub fn current_timestamp() -> (r: Option<i64>)
    ensures
        r matches Some(s) ==> exists|d: std::time::Duration| s == (nanos_of(d) / 1_000_000_000) as i64,
{
    let now = system_time_now();
    match since_unix_epoch(&now) {
        Some(d) => {
            let s = unix_seconds(&d);
            assert(s == (nanos_of(d) / 1_000_000_000) as i64);
            Some(s)
        },
        None => None,
    }
}

} // verus!
