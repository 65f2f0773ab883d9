//! Editing state of a trading strategy's settings, and its trading mode.
use vstd::prelude::*;
use std::collections::HashMap;
use crate::text::{append_str, decimal, to_string, u64_to_decimal};

verus! {

/// Which signals of a strategy are traded.
#[derive(Debug, Clone, Copy, PartialEq, Eq, Structural)]
pub enum TradingMode {
    BuyOnly,
    SellOnly,
    Both,
}

/// Label of a trading mode.
pub open spec fn mode_label(m: TradingMode) -> Seq<char> {
    match m {
        TradingMode::BuyOnly => "Achats uniquement"@,
        TradingMode::SellOnly => "Ventes uniquement"@,
        TradingMode::Both => "Achats et ventes"@,
    }
}

impl TradingMode {
    /// The label shown for the mode.
    pub fn label(&self) -> (s: &'static str)
        ensures
            s@ == mode_label(*self),
    {
        match self {
            TradingMode::BuyOnly => "Achats uniquement",
            TradingMode::SellOnly => "Ventes uniquement",
            TradingMode::Both => "Achats et ventes",
        }
    }

    /// Whether a buy signal (`is_buy`) or a sell signal is traded in this mode: buys
    /// are dropped in sell-only mode and sells in buy-only mode.
    pub fn allows_signal(&self, is_buy: bool) -> (b: bool)
        ensures
            b == !((is_buy && *self == TradingMode::SellOnly) || (!is_buy && *self == TradingMode::BuyOnly)),
    {
        match self {
            TradingMode::BuyOnly => is_buy,
            TradingMode::SellOnly => !is_buy,
            TradingMode::Both => true,
        }
    }
}

/// Settings of a strategy while the user edits them.
#[derive(Debug)]
pub struct StrategyEditingState {
    /// Whether the settings panel is open.
    pub expanded: bool,
    /// Parameter inputs, by parameter name, as typed.
    pub param_values: HashMap<String, String>,
    /// Intervals selected so far.
    pub selected_timeframes: Vec<String>,
    /// Trading mode selected so far.
    pub trading_mode: TradingMode,
}

/// The texts of a list of strings.
pub open spec fn texts_of(v: Seq<String>) -> Seq<Seq<char>> {
    v.map_values(|s: String| s@)
}

impl StrategyEditingState {
    /// An editing state with no parameter input yet.
    pub fn new(expanded: bool, selected_timeframes: Vec<String>, trading_mode: TradingMode) -> (s: Self)
        ensures
            s.expanded == expanded,
            s.selected_timeframes@ == selected_timeframes@,
            s.trading_mode == trading_mode,
            s.param_values@ == Map::<String, String>::empty(),
    {
        StrategyEditingState { expanded, param_values: HashMap::new(), selected_timeframes, trading_mode }
    }

    /// Selects `timeframe`, or deselects it when it is selected (its first occurrence).
    pub fn toggle_timeframe(&mut self, timeframe: String)
        ensures
            final(self).expanded == old(self).expanded,
            final(self).trading_mode == old(self).trading_mode,
            final(self).param_values == old(self).param_values,
            !texts_of(old(self).selected_timeframes@).contains(timeframe@) ==> final(self).selected_timeframes@
                == old(self).selected_timeframes@.push(timeframe),
            texts_of(old(self).selected_timeframes@).contains(timeframe@) ==> exists|i: int|
                0 <= i < old(self).selected_timeframes@.len()
                && old(self).selected_timeframes@[i]@ == timeframe@
                && (forall|j: int| 0 <= j < i ==> old(self).selected_timeframes@[j]@ != timeframe@)
                && final(self).selected_timeframes@ == old(self).selected_timeframes@.remove(i),
    {
        let mut i: usize = 0;
        while i < self.selected_timeframes.len()
            invariant
                i <= self.selected_timeframes@.len(),
                self.selected_timeframes@ == old(self).selected_timeframes@,
                self.expanded == old(self).expanded,
                self.trading_mode == old(self).trading_mode,
                self.param_values == old(self).param_values,
                forall|j: int| 0 <= j < i ==> self.selected_timeframes@[j]@ != timeframe@,
            decreases self.selected_timeframes@.len() - i,
        {
            if self.selected_timeframes[i] == timeframe {
                assert(texts_of(old(self).selected_timeframes@)[i as int] == timeframe@);
                let _ = self.selected_timeframes.remove(i);
                return;
            }
            i = i + 1;
        }
        proof {
            if texts_of(old(self).selected_timeframes@).contains(timeframe@) {
                let k = choose|k: int| 0 <= k < texts_of(old(self).selected_timeframes@).len() && texts_of(old(self).selected_timeframes@)[k] == timeframe@;
                assert(old(self).selected_timeframes@[k]@ == timeframe@);
            }
        }
        self.selected_timeframes.push(timeframe);
    }

    /// The intervals to apply: none selected means every interval is allowed (`None`).
    pub fn timeframes_to_apply(&self) -> (r: Option<Vec<String>>)
        ensures
            self.selected_timeframes@.len() == 0 ==> r is None,
            self.selected_timeframes@.len() > 0 ==> (r matches Some(v) && texts_of(v@) == texts_of(self.selected_timeframes@)),
    {
        if self.selected_timeframes.len() == 0 {
            None
        } else {
            let mut v: Vec<String> = Vec::new();
            let mut i: usize = 0;
            while i < self.selected_timeframes.len()
                invariant
                    i <= self.selected_timeframes@.len(),
                    v@.len() == i,
                    forall|j: int| 0 <= j < i ==> v@[j]@ == self.selected_timeframes@[j]@,
                decreases self.selected_timeframes@.len() - i,
            {
                v.push(self.selected_timeframes[i].clone());
                i = i + 1;
            }
            assert(texts_of(v@) =~= texts_of(self.selected_timeframes@));
            Some(v)
        }
    }
}

/// The windows of the application.
#[derive(Debug, Clone, Copy, PartialEq, Eq, Structural)]
pub enum WindowType {
    Main,
    Settings,
    ProviderConfig,
    Downloads,
    Assets,
}

/// A label followed by a count in brackets, or the bare label when the count is zero.
pub open spec fn counted_label(label: Seq<char>, n: nat) -> Seq<char> {
    if n > 0 { label + " ("@ + decimal(n) + ")"@ } else { label }
}

/// The title of a window: fixed for the settings windows, with the number of downloads
/// or of assets for those windows, and the shown series' symbol (or "CandleChart") for
/// the main window or an unknown one.
pub open spec fn title_text(kind: Option<WindowType>, downloads: nat, assets: nat, symbol: Option<Seq<char>>) -> Seq<char> {
    match kind {
        Some(WindowType::Settings) => "Settings - Style Chart"@,
        Some(WindowType::ProviderConfig) => "Provider Configuration"@,
        Some(WindowType::Downloads) => counted_label("Téléchargements"@, downloads),
        Some(WindowType::Assets) => counted_label("Actifs disponibles"@, assets),
        _ => match symbol {
            Some(s) => s,
            None => "CandleChart"@,
        },
    }
}

/// `label`, then ` (n)` when `n` is not zero.
fn counted(label: &str, n: usize) -> (r: String)
    ensures
        r@ == counted_label(label@, n as nat),
{
    let mut r = to_string(label);
    if n > 0 {
        append_str(&mut r, " (");
        let d = u64_to_decimal(n as u64);
        append_str(&mut r, d.as_str());
        append_str(&mut r, ")");
    }
    r
}

/// The title of a window of the given kind (see `title_text`), given the number of
/// downloads, the number of known assets and the symbol of the shown series.
pub fn window_title(kind: Option<WindowType>, download_count: usize, asset_count: usize, active_symbol: Option<&str>) -> (t: String)
    ensures
        t@ == title_text(kind, download_count as nat, asset_count as nat, match active_symbol {
            Some(s) => Some(s@),
            None => None,
        }),
{
    match kind {
        Some(WindowType::Settings) => to_string("Settings - Style Chart"),
        Some(WindowType::ProviderConfig) => to_string("Provider Configuration"),
        Some(WindowType::Downloads) => counted("Téléchargements", download_count),
        Some(WindowType::Assets) => counted("Actifs disponibles", asset_count),
        _ => match active_symbol {
            Some(s) => to_string(s),
            None => to_string("CandleChart"),
        },
    }
}

} // verus!
