//! Playback of a backtest: whether it is on, where it starts, how far it has run.
use vstd::prelude::*;
use vstd::string::StrSliceExecFns;

verus! {

/// Playback state of a backtest (the simulated trades and the starting capital are
/// kept beside it by the application).
#[derive(Debug, Clone)]
pub struct BacktestState {
    /// Whether backtest mode is on.
    pub enabled: bool,
    /// Chosen start time, if any.
    pub start_timestamp: Option<i64>,
    /// Whether playback is running.
    pub is_playing: bool,
    /// Candles played since the start.
    pub current_index: usize,
    /// Index of the start candle, computed when playback starts.
    pub start_index: Option<usize>,
    /// Milliseconds between two candles.
    pub playback_speed_ms: u64,
    /// Strategy run by the backtest, if any.
    pub selected_strategy_id: Option<String>,
    /// Whether the playhead is being dragged.
    pub dragging_playhead: bool,
}

/// Timestamp of the candle being played, given the timestamps of all candles: the
/// candle `start_index + current_index` (the last one past the end) once playback
/// has a start index; else the chosen start time; `None` without candles or start.
pub open spec fn candle_timestamp(s: BacktestState, timestamps: Seq<i64>) -> Option<i64> {
    if timestamps.len() == 0 {
        None
    } else {
        match (s.start_index, s.start_timestamp) {
            (Some(si), Some(_)) => if si + s.current_index < timestamps.len() {
                Some(timestamps[si + s.current_index])
            } else {
                Some(timestamps.last())
            },
            (_, Some(ts)) => Some(ts),
            _ => None,
        }
    }
}

impl BacktestState {
    /// Off, no start chosen, stopped at index 0, ten candles a second.
    pub fn new() -> (s: Self)
        ensures
            !s.enabled,
            s.start_timestamp is None,
            !s.is_playing,
            s.current_index == 0,
            s.start_index is None,
            s.playback_speed_ms == 100,
            s.selected_strategy_id is None,
            !s.dragging_playhead,
    {
        BacktestState {
            enabled: false,
            start_timestamp: None,
            is_playing: false,
            current_index: 0,
            start_index: None,
            playback_speed_ms: 100,
            selected_strategy_id: None,
            dragging_playhead: false,
        }
    }

    /// Starts playback from `start_timestamp`, at index 0.
    pub fn start(&mut self, start_timestamp: i64)
        ensures
            *final(self) == (BacktestState {
                start_timestamp: Some(start_timestamp),
                is_playing: true,
                current_index: 0,
                ..*old(self)
            }),
    {
        self.start_timestamp = Some(start_timestamp);
        self.is_playing = true;
        self.current_index = 0;
    }

    /// Rewinds playback: index 0, start index to be computed again.
    pub fn reset_playback(&mut self)
        ensures
            *final(self) == (BacktestState { current_index: 0, start_index: None, ..*old(self) }),
    {
        self.current_index = 0;
        self.start_index = None;
    }

    /// Records the index of the start candle.
    pub fn set_start_index(&mut self, start_index: usize)
        ensures
            *final(self) == (BacktestState { start_index: Some(start_index), ..*old(self) }),
    {
        self.start_index = Some(start_index);
    }

    /// Pauses playback.
    pub fn pause(&mut self)
        ensures
            *final(self) == (BacktestState { is_playing: false, ..*old(self) }),
    {
        self.is_playing = false;
    }

    /// Resumes playback.
    pub fn resume(&mut self)
        ensures
            *final(self) == (BacktestState { is_playing: true, ..*old(self) }),
    {
        self.is_playing = true;
    }

    /// Stops playback and rewinds it.
    pub fn stop(&mut self)
        ensures
            *final(self) == (BacktestState {
                is_playing: false,
                current_index: 0,
                start_index: None,
                ..*old(self)
            }),
    {
        self.is_playing = false;
        self.current_index = 0;
        self.start_index = None;
    }

    /// Stops playback where it is (at the end of the data).
    pub fn stop_at_end(&mut self)
        ensures
            *final(self) == (BacktestState { is_playing: false, ..*old(self) }),
    {
        self.is_playing = false;
    }

    /// Records how many candles have been played.
    pub fn update_index(&mut self, index: usize)
        ensures
            *final(self) == (BacktestState { current_index: index, ..*old(self) }),
    {
        self.current_index = index;
    }

    /// Turns backtest mode on or off; turning it off stops playback.
    pub fn set_enabled(&mut self, enabled: bool)
        ensures
            *final(self) == (BacktestState {
                enabled,
                is_playing: if enabled { old(self).is_playing } else { false },
                ..*old(self)
            }),
    {
        self.enabled = enabled;
        if !enabled {
            self.is_playing = false;
        }
    }

    /// Timestamp of the candle being played (see `candle_timestamp`), given the
    /// timestamps of all candles in order.
    pub fn current_candle_timestamp(&self, timestamps: &Vec<i64>) -> (r: Option<i64>)
        requires
            self.start_index matches Some(si) ==> si + self.current_index <= usize::MAX,
        ensures
            r == candle_timestamp(*self, timestamps@),
    {
        if timestamps.len() == 0 {
            return None;
        }
        match (self.start_index, self.start_timestamp) {
            (Some(start_idx), Some(_)) => {
                let current_idx = start_idx + self.current_index;
                if current_idx < timestamps.len() {
                    Some(timestamps[current_idx])
                } else {
                    Some(timestamps[timestamps.len() - 1])
                }
            },
            (_, Some(ts)) => Some(ts),
            _ => None,
        }
    }
}

/// Names what `char::is_alphanumeric` returns for a character (alphabetic or numeric
/// in the Unicode sense).
pub uninterp spec fn alphanumeric(c: char) -> bool;

/// An ASCII letter or digit.
pub open spec fn ascii_alphanumeric(c: char) -> bool {
    ('a' <= c && c <= 'z') || ('A' <= c && c <= 'Z') || ('0' <= c && c <= '9')
}

/// Wraps `char::is_alphanumeric`: whether the character is alphabetic or numeric in
/// the Unicode sense. Among ASCII characters these are exactly the letters and digits.
#[verifier::external_body]
fn is_alphanumeric(c: char) -> (b: bool)
    ensures
        b == alphanumeric(c),
        ascii_alphanumeric(c) ==> b,
        (c as u32) < 128 && !ascii_alphanumeric(c) ==> !b,
{
    c.is_alphanumeric()
}

/// Character kept in a file name: alphanumerics, '-' and '_' stay, anything else
/// becomes '_'.
pub open spec fn file_name_char(c: char) -> char {
    if alphanumeric(c) || c == '-' || c == '_' { c } else { '_' }
}

/// Pausing a running playback and resuming it gives the state back as it was.
pub proof fn law_pause_then_resume(s: BacktestState)
    requires
        s.is_playing,
    ensures
        (BacktestState { is_playing: true, ..(BacktestState { is_playing: false, ..s }) }) == s,
{
}

/// Name of the file that keeps a backtest's trades: the strategy's name with every
/// character other than an alphanumeric, '-' or '_' replaced by '_', then
/// "-trades.json".
pub fn backtest_trades_filename(strategy_name: &str) -> (f: String)
    ensures
        f@ == strategy_name@.map_values(|c: char| file_name_char(c)) + "-trades.json"@,
{
    let n = strategy_name.unicode_len();
    let mut f = String::new();
    let mut i: usize = 0;
    while i < n
        invariant
            n == strategy_name@.len(),
            i <= n,
            f@ == strategy_name@.take(i as int).map_values(|c: char| file_name_char(c)),
        decreases n - i,
    {
        let c = strategy_name.get_char(i);
        let kept = if is_alphanumeric(c) || c == '-' || c == '_' { c } else { '_' };
        crate::text::push_char(&mut f, kept);
        proof {
            assert(strategy_name@.take(i + 1).map_values(|c: char| file_name_char(c)) =~= strategy_name@.take(
                i as int,
            ).map_values(|c: char| file_name_char(c)).push(file_name_char(c)));
        }
        i = i + 1;
    }
    assert(strategy_name@.take(n as int) =~= strategy_name@);
    crate::text::append_str(&mut f, "-trades.json");
    f
}

impl Default for BacktestState {
    /// See `new`.
    fn default() -> (s: Self)
        ensures
            !s.enabled,
            s.start_timestamp is None,
            !s.is_playing,
            s.current_index == 0,
            s.start_index is None,
            s.playback_speed_ms == 100,
            s.selected_strategy_id is None,
            !s.dragging_playhead,
    {
        BacktestState::new()
    }
}

} // verus!
