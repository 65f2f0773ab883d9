//! The first form of the bottom panel: five sections, one of them active.
use vstd::prelude::*;

verus! {

/// Sections of the bottom panel.
#[derive(Debug, Clone, Copy, PartialEq, Eq, Hash, Structural)]
pub enum BottomPanelSection {
    Overview,
    Logs,
    Indicators,
    Orders,
    Account,
}

/// Every section, in display order.
pub open spec fn all_sections() -> Seq<BottomPanelSection> {
    seq![
        BottomPanelSection::Overview,
        BottomPanelSection::Logs,
        BottomPanelSection::Indicators,
        BottomPanelSection::Orders,
        BottomPanelSection::Account,
    ]
}

/// The label shown for a section.
pub open spec fn section_label(s: BottomPanelSection) -> Seq<char> {
    match s {
        BottomPanelSection::Overview => "Vue d'ensemble"@,
        BottomPanelSection::Logs => "Logs"@,
        BottomPanelSection::Indicators => "Indicateurs"@,
        BottomPanelSection::Orders => "Ordres"@,
        BottomPanelSection::Account => "Compte"@,
    }
}

impl BottomPanelSection {
    /// All sections, in display order.
    pub fn all() -> (v: Vec<Self>)
        ensures
            v@ == all_sections(),
    {
        let mut v: Vec<Self> = Vec::new();
        v.push(BottomPanelSection::Overview);
        v.push(BottomPanelSection::Logs);
        v.push(BottomPanelSection::Indicators);
        v.push(BottomPanelSection::Orders);
        v.push(BottomPanelSection::Account);
        assert(v@ =~= all_sections());
        v
    }

    /// The label shown for the section.
    pub fn display_name(&self) -> (name: &'static str)
        ensures
            name@ == section_label(*self),
    {
        match self {
            BottomPanelSection::Overview => "Vue d'ensemble",
            BottomPanelSection::Logs => "Logs",
            BottomPanelSection::Indicators => "Indicateurs",
            BottomPanelSection::Orders => "Ordres",
            BottomPanelSection::Account => "Compte",
        }
    }
}

/// The active section of the bottom panel.
#[derive(Debug, Clone)]
pub struct BottomPanelSectionsState {
    pub active_section: BottomPanelSection,
}

impl BottomPanelSectionsState {
    /// Starts on the overview.
    pub fn new() -> (s: Self)
        ensures
            s.active_section == BottomPanelSection::Overview,
    {
        BottomPanelSectionsState { active_section: BottomPanelSection::Overview }
    }

    /// Activates `section`.
    pub fn set_active_section(&mut self, section: BottomPanelSection)
        ensures
            final(self).active_section == section,
    {
        self.active_section = section;
    }
}

impl Default for BottomPanelSectionsState {
    /// Starts on the overview.
    fn default() -> (s: Self)
        ensures
            s.active_section == BottomPanelSection::Overview,
    {
        BottomPanelSectionsState::new()
    }
}

} // verus!
