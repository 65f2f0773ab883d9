//! Restoring saved state (the application reads the files and hands over their content).
use vstd::prelude::*;
use crate::state::bottom_panel_sections::{BottomPanelSection, BottomPanelSectionsState, SectionsView, initial_sections};
use crate::text::{contains_str, has_substring};

verus! {

/// The panel sections as saved.
#[derive(Debug, Clone)]
pub struct SavedPanelSections {
    pub active_bottom_section: BottomPanelSection,
    pub active_right_section: Option<BottomPanelSection>,
    pub right_panel_sections: Vec<BottomPanelSection>,
}

/// `right` with `s` appended unless it already holds it.
pub open spec fn ensure_present(right: Seq<BottomPanelSection>, s: BottomPanelSection) -> Seq<BottomPanelSection> {
    if right.contains(s) { right } else { right.push(s) }
}

/// Sections restored from a saved state: Orders and then TradeHistory are put back in
/// the right panel if missing, and Orders becomes the active right section when none is.
pub open spec fn restored_sections(saved: SectionsView) -> SectionsView {
    SectionsView {
        active_bottom: saved.active_bottom,
        active_right: match saved.active_right {
            Some(r) => Some(r),
            None => Some(BottomPanelSection::Orders),
        },
        right: ensure_present(ensure_present(saved.right, BottomPanelSection::Orders), BottomPanelSection::TradeHistory),
    }
}

/// Whether `v` holds `s`.
fn holds(v: &Vec<BottomPanelSection>, s: BottomPanelSection) -> (b: bool)
    ensures
        b == v@.contains(s),
{
    let mut i: usize = 0;
    while i < v.len()
        invariant
            i <= v@.len(),
            forall|j: int| 0 <= j < i ==> v@[j] != s,
        decreases v@.len() - i,
    {
        if v[i] == s {
            assert(v@[i as int] == s);
            return true;
        }
        i = i + 1;
    }
    false
}

/// The panel sections to start with: the initial ones when nothing could be read
/// (`None`), else the saved ones restored as `restored_sections` says.
pub fn load_bottom_panel_sections(saved: Option<SavedPanelSections>) -> (st: BottomPanelSectionsState)
    ensures
        saved is None ==> st@ == initial_sections(),
        saved matches Some(s) ==> st@ == restored_sections(SectionsView {
            active_bottom: s.active_bottom_section,
            active_right: s.active_right_section,
            right: s.right_panel_sections@,
        }),
{
    match saved {
        None => BottomPanelSectionsState::new(),
        Some(s) => {
            let mut right = s.right_panel_sections;
            if !holds(&right, BottomPanelSection::Orders) {
                right.push(BottomPanelSection::Orders);
            }
            if !holds(&right, BottomPanelSection::TradeHistory) {
                right.push(BottomPanelSection::TradeHistory);
            }
            let active_right = match s.active_right_section {
                Some(r) => Some(r),
                None => Some(BottomPanelSection::Orders),
            };
            BottomPanelSectionsState {
                active_bottom_section: s.active_bottom_section,
                active_right_section: active_right,
                right_panel_sections: right,
            }
        },
    }
}

/// A restored state always has Orders and TradeHistory in the right panel and an
/// active right section, and keeps every section the saved right panel held.
pub proof fn law_restored_sections_complete(saved: SectionsView)
    ensures
        restored_sections(saved).right.contains(BottomPanelSection::Orders),
        restored_sections(saved).right.contains(BottomPanelSection::TradeHistory),
        restored_sections(saved).active_right is Some,
        forall|s: BottomPanelSection| saved.right.contains(s) ==> restored_sections(saved).right.contains(s),
{
    let r1 = ensure_present(saved.right, BottomPanelSection::Orders);
    let r2 = ensure_present(r1, BottomPanelSection::TradeHistory);
    if !saved.right.contains(BottomPanelSection::Orders) {
        assert(r1[r1.len() - 1] == BottomPanelSection::Orders);
    }
    if !r1.contains(BottomPanelSection::TradeHistory) {
        assert(r2[r2.len() - 1] == BottomPanelSection::TradeHistory);
    }
    assert(r1.contains(BottomPanelSection::Orders));
    if r2 != r1 {
        let k = choose|k: int| 0 <= k < r1.len() && r1[k] == BottomPanelSection::Orders;
        assert(r2[k] == BottomPanelSection::Orders);
    }
    assert forall|s: BottomPanelSection| saved.right.contains(s) implies r2.contains(s) by {
        let k = choose|k: int| 0 <= k < saved.right.len() && saved.right[k] == s;
        assert(r1[k] == s);
        assert(r2[k] == s);
    }
}

/// A load error whose text says the file does not exist: it mentions "No such file",
/// "cannot find" or "not found". Such an error is silent; any other is reported.
pub open spec fn missing_file_message(msg: Seq<char>) -> bool {
    has_substring(msg, "No such file"@) || has_substring(msg, "cannot find"@) || has_substring(msg, "not found"@)
}

/// Whether the text of a load error says that the file does not exist (see
/// `missing_file_message`).
pub fn is_missing_file_error(msg: &str) -> (b: bool)
    ensures
        b == missing_file_message(msg@),
{
    contains_str(msg, "No such file") || contains_str(msg, "cannot find") || contains_str(msg, "not found")
}

/// Whether the saved panel file holds the MACD panel (it mentions the key `"macd"`);
/// when it does not, the MACD panel starts hidden.
pub fn macd_panel_saved(panel_json: &str) -> (b: bool)
    ensures
        b == has_substring(panel_json@, "\"macd\""@),
{
    contains_str(panel_json, "\"macd\"")
}

} // verus!
