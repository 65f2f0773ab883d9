//! Backtest playback decisions: starting or resuming, and what each tick plays.
use vstd::prelude::*;
use crate::realtime::realtime_utils::{interval_seconds, interval_to_seconds};
use crate::state::backtest::BacktestState;
use crate::handlers::series::{list_holds, text_list};

verus! {

/// Candle `i` is the first of `ts` at or after `t`.
pub open spec fn is_first_at_or_after(ts: Seq<i64>, t: int, i: int) -> bool {
    &&& 0 <= i < ts.len()
    &&& ts[i] >= t
    &&& forall|j: int| 0 <= j < i ==> ts[j] < t
}

/// No candle of `ts` is at or after `t`.
pub open spec fn none_at_or_after(ts: Seq<i64>, t: int) -> bool {
    forall|j: int| 0 <= j < ts.len() ==> ts[j] < t
}

/// Finds the first candle, in the order given, whose timestamp is `t` or later.
pub fn find_candle_at_or_after(timestamps: &Vec<i64>, t: i64) -> (r: Option<usize>)
    ensures
        match r {
            Some(i) => is_first_at_or_after(timestamps@, t as int, i as int),
            None => none_at_or_after(timestamps@, t as int),
        },
{
    let mut i: usize = 0;
    while i < timestamps.len()
        invariant
            i <= timestamps@.len(),
            forall|j: int| 0 <= j < i ==> timestamps@[j] < t,
        decreases timestamps@.len() - i,
    {
        if timestamps[i] >= t {
            return Some(i);
        }
        i = i + 1;
    }
    None
}

/// The start of the candle that follows the one starting at `t`.
pub fn next_timestamp(t: i64, interval: &str) -> (n: i64)
    requires
        t + interval_seconds(interval@) <= i64::MAX,
    ensures
        n == t + interval_seconds(interval@),
{
    t + interval_to_seconds(interval)
}

/// What one tick of backtest playback does.
#[derive(Debug, Clone, Copy, PartialEq, Eq, Structural)]
pub enum BacktestTick {
    /// Nothing: backtest mode is off or playback is paused.
    Idle,
    /// Playback cannot go on (no playhead, no candles): stop and rewind.
    Stop,
    /// Stop where playback is; `save` tells whether the backtest's trades are saved
    /// first (they are when the end of the data is reached).
    StopAtEnd { save: bool },
    /// Play the candle at `index`; then move the playhead to `advance_to`, or, when it
    /// is `None`, save the trades and stop at the end.
    Play { index: usize, advance_to: Option<i64> },
}

/// Where the playhead goes after the candle at `current`: the first candle at or after
/// the next interval's start, unless there is none or it lies past the last candle.
pub open spec fn advance_ok(ts: Seq<i64>, next: int, advance_to: Option<i64>) -> bool {
    &&& none_at_or_after(ts, next) ==> advance_to is None
    &&& forall|k: int| #[trigger] is_first_at_or_after(ts, next, k) ==>
        advance_to == (if ts[k] > ts.last() { None } else { Some(ts[k]) })
}

/// Decides one tick of playback over candles whose timestamps are `timestamps`, with
/// the playhead at `current` and candles of the given interval. The candle played is
/// the first at or after the playhead; reaching the last candle stops playback there.
pub fn plan_backtest_tick(
    enabled: bool,
    is_playing: bool,
    current: Option<i64>,
    timestamps: &Vec<i64>,
    interval: &str,
) -> (tick: BacktestTick)
    requires
        enabled && is_playing ==> (current matches Some(c) ==> (forall|i: int|
            #[trigger] is_first_at_or_after(timestamps@, c as int, i) && timestamps@[i] < timestamps@.last()
                ==> c + interval_seconds(interval@) <= i64::MAX)),
    ensures
        !enabled || !is_playing ==> tick == BacktestTick::Idle,
        enabled && is_playing && (current is None || timestamps@.len() == 0) ==> tick == BacktestTick::Stop,
        enabled && is_playing && timestamps@.len() > 0 ==> (current matches Some(c) ==> {
            let ts = timestamps@;
            &&& none_at_or_after(ts, c as int) ==> tick == BacktestTick::StopAtEnd { save: false }
            &&& forall|i: int| #[trigger] is_first_at_or_after(ts, c as int, i) ==> if ts[i] >= ts.last() {
                tick == BacktestTick::StopAtEnd { save: true }
            } else {
                &&& tick matches BacktestTick::Play { index, advance_to }
                &&& index == i
                &&& advance_ok(ts, c + interval_seconds(interval@), advance_to)
            }
        }),
        tick matches BacktestTick::Play { index, advance_to } ==> {
            &&& index < timestamps@.len()
            &&& current matches Some(c) && (advance_to matches Some(t) ==> t > c)
        },
{
    if !enabled || !is_playing {
        return BacktestTick::Idle;
    }
    let c = match current {
        Some(c) => c,
        None => {
            return BacktestTick::Stop;
        },
    };
    if timestamps.len() == 0 {
        return BacktestTick::Stop;
    }
    let ghost ts = timestamps@;
    let index = match find_candle_at_or_after(timestamps, c) {
        Some(i) => i,
        None => {
            return BacktestTick::StopAtEnd { save: false };
        },
    };
    let last = timestamps[timestamps.len() - 1];
    proof {
        assert forall|i: int| #[trigger] is_first_at_or_after(ts, c as int, i) implies i == index by {
            if i < index {
                assert(ts[i] < c);
            }
            if i > index {
                assert(ts[index as int] < c);
            }
        }
    }
    if timestamps[index] >= last {
        return BacktestTick::StopAtEnd { save: true };
    }
    assert(is_first_at_or_after(ts, c as int, index as int));
    let next = next_timestamp(c, interval);
    let found = find_candle_at_or_after(timestamps, next);
    let advance_to = match found {
        Some(k) => if timestamps[k] > last { None } else { Some(timestamps[k]) },
        None => None,
    };
    proof {
        assert forall|k: int| #[trigger] is_first_at_or_after(ts, next as int, k) implies
            advance_to == (if ts[k] > ts.last() { None } else { Some(ts[k]) }) by {
            if let Some(k2) = found {
                if k < k2 {
                    assert(ts[k] < next);
                }
                if k > k2 {
                    assert(ts[k2 as int] < next);
                }
            } else {
                assert(ts[k] < next);
            }
        }
    }
    BacktestTick::Play { index, advance_to }
}

/// What pressing play does.
#[derive(Debug, Clone, Copy, PartialEq, Eq, Structural)]
pub enum BacktestStart {
    /// Nothing: backtest mode is off, no start time is chosen, or no series is shown.
    Ignore,
    /// Playback resumes from the playhead.
    Resume,
    /// No candle lies at or after the chosen start time: playback does not start.
    StartNotFound,
    /// Playback starts afresh from `at`: the backtest's trades are reset and its
    /// capital is taken from the account.
    Start { at: i64 },
}

/// Decides what pressing play does, given the chosen start time, the playhead, and
/// the timestamps of the shown series' candles (`None` when no series is shown).
/// Playback resumes when it is paused on a playhead that has a candle at or after it;
/// otherwise it starts from the start time, provided a candle lies at or after it.
pub fn plan_backtest_start(
    enabled: bool,
    is_playing: bool,
    start: Option<i64>,
    current: Option<i64>,
    timestamps: Option<&Vec<i64>>,
) -> (r: BacktestStart)
    ensures
        !enabled || start is None || timestamps is None ==> r == BacktestStart::Ignore,
        enabled ==> (start matches Some(s) ==> (timestamps matches Some(ts) ==> {
            let resuming = current matches Some(c) && !is_playing && !none_at_or_after(ts@, c as int);
            r == if resuming {
                BacktestStart::Resume
            } else if none_at_or_after(ts@, s as int) {
                BacktestStart::StartNotFound
            } else {
                BacktestStart::Start { at: s }
            }
        })),
{
    if !enabled {
        return BacktestStart::Ignore;
    }
    let s = match start {
        Some(s) => s,
        None => {
            return BacktestStart::Ignore;
        },
    };
    let ts = match timestamps {
        Some(ts) => ts,
        None => {
            return BacktestStart::Ignore;
        },
    };
    let resuming = match current {
        Some(c) => !is_playing && find_candle_at_or_after(ts, c).is_some(),
        None => false,
    };
    if resuming {
        BacktestStart::Resume
    } else if find_candle_at_or_after(ts, s).is_none() {
        BacktestStart::StartNotFound
    } else {
        BacktestStart::Start { at: s }
    }
}

/// Pause button: with backtest mode on, pauses a running playback and resumes a paused
/// one; with it off, nothing changes.
pub fn toggle_backtest_pause(state: &mut BacktestState)
    ensures
        *final(state) == if old(state).enabled {
            BacktestState { is_playing: !old(state).is_playing, ..*old(state) }
        } else {
            *old(state)
        },
{
    if !state.enabled {
        return;
    }
    if state.is_playing {
        state.pause();
    } else {
        state.resume();
    }
}

/// Stop button: with backtest mode on, stops and rewinds playback and tells whether
/// the backtest's trades are to be saved first (they are when a strategy is
/// selected); with it off, nothing changes and nothing is saved.
pub fn stop_backtest(state: &mut BacktestState) -> (save: bool)
    ensures
        save == (old(state).enabled && old(state).selected_strategy_id is Some),
        *final(state) == if old(state).enabled {
            BacktestState { is_playing: false, current_index: 0, start_index: None, ..*old(state) }
        } else {
            *old(state)
        },
{
    if !state.enabled {
        return false;
    }
    let save = state.selected_strategy_id.is_some();
    state.stop();
    save
}

/// Selects the strategy run by the backtest: `None` clears the choice; an identifier
/// is taken only when it is among `known_ids`, and otherwise refused (false, nothing
/// changes).
pub fn select_backtest_strategy(state: &mut BacktestState, strategy_id: Option<String>, known_ids: &Vec<String>) -> (ok: bool)
    ensures
        ok == (match strategy_id {
            Some(id) => text_list(known_ids@).contains(id@),
            None => true,
        }),
        ok ==> *final(state) == (BacktestState { selected_strategy_id: strategy_id, ..*old(state) }),
        !ok ==> *final(state) == *old(state),
{
    let known = match &strategy_id {
        Some(id) => list_holds(known_ids, id),
        None => true,
    };
    if !known {
        return false;
    }
    state.selected_strategy_id = strategy_id;
    true
}

} // verus!
