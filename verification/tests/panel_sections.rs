use candlechart::state::bottom_panel_sections::{BottomPanelSection, BottomPanelSectionsState};
use candlechart::bottom_panel_sections as legacy;
use candlechart::state::loaders::{is_missing_file_error, load_bottom_panel_sections, macd_panel_saved, SavedPanelSections};

#[test]
fn new_state_has_orders_and_history_on_the_right() {
    let st = BottomPanelSectionsState::new();
    assert_eq!(st.active_bottom_section, BottomPanelSection::Overview);
    assert_eq!(st.active_right_section, Some(BottomPanelSection::Orders));
    assert_eq!(st.right_panel_sections, vec![BottomPanelSection::Orders, BottomPanelSection::TradeHistory]);
    assert!(st.has_right_panel_sections());
}

#[test]
fn bottom_sections_are_all_sections_not_on_the_right() {
    let st = BottomPanelSectionsState::new();
    assert_eq!(
        st.bottom_panel_sections(),
        vec![
            BottomPanelSection::Overview,
            BottomPanelSection::Logs,
            BottomPanelSection::Indicators,
            BottomPanelSection::Account,
            BottomPanelSection::Strategies,
        ]
    );
    assert_eq!(BottomPanelSection::all().len(), 7);
}

#[test]
fn set_active_section_ignores_right_panel_sections() {
    let mut st = BottomPanelSectionsState::new();
    st.set_active_section(BottomPanelSection::Orders);
    assert_eq!(st.active_bottom_section, BottomPanelSection::Overview);
    st.set_active_section(BottomPanelSection::Logs);
    assert_eq!(st.active_bottom_section, BottomPanelSection::Logs);
    st.set_active_right_section(BottomPanelSection::Logs);
    assert_eq!(st.active_right_section, Some(BottomPanelSection::Orders));
    st.set_active_right_section(BottomPanelSection::TradeHistory);
    assert_eq!(st.active_right_section, Some(BottomPanelSection::TradeHistory));
}

#[test]
fn moving_the_active_bottom_section_right_activates_the_first_bottom_one() {
    let mut st = BottomPanelSectionsState::new();
    st.move_to_right_panel(BottomPanelSection::Overview);
    assert_eq!(
        st.right_panel_sections,
        vec![BottomPanelSection::Orders, BottomPanelSection::TradeHistory, BottomPanelSection::Overview]
    );
    assert_eq!(st.active_bottom_section, BottomPanelSection::Logs);
    assert_eq!(st.active_right_section, Some(BottomPanelSection::Overview));
    assert!(st.is_section_in_right_panel(BottomPanelSection::Overview));
}

#[test]
fn moving_a_right_section_again_puts_it_last() {
    let mut st = BottomPanelSectionsState::new();
    st.move_to_right_panel(BottomPanelSection::Orders);
    assert_eq!(st.right_panel_sections, vec![BottomPanelSection::TradeHistory, BottomPanelSection::Orders]);
    let once = st.right_panel_sections.clone();
    st.move_to_right_panel(BottomPanelSection::Orders);
    assert_eq!(st.right_panel_sections, once);
}

#[test]
fn moving_the_active_right_section_down_activates_the_first_right_one() {
    let mut st = BottomPanelSectionsState::new();
    st.move_to_bottom_panel(BottomPanelSection::Orders);
    assert_eq!(st.right_panel_sections, vec![BottomPanelSection::TradeHistory]);
    assert_eq!(st.active_right_section, Some(BottomPanelSection::TradeHistory));
    assert_eq!(st.active_bottom_section, BottomPanelSection::Orders);
    st.move_to_bottom_panel(BottomPanelSection::TradeHistory);
    assert!(st.right_panel_sections.is_empty());
    assert_eq!(st.active_right_section, None);
    assert!(!st.has_right_panel_sections());
}

#[test]
fn move_right_then_back_restores_the_right_panel() {
    let mut st = BottomPanelSectionsState::new();
    st.move_to_right_panel(BottomPanelSection::Logs);
    st.move_to_bottom_panel(BottomPanelSection::Logs);
    assert_eq!(st.right_panel_sections, vec![BottomPanelSection::Orders, BottomPanelSection::TradeHistory]);
    assert_eq!(st.active_bottom_section, BottomPanelSection::Logs);
}

#[test]
fn every_section_right_leaves_bottom_active_unchanged() {
    let mut st = BottomPanelSectionsState::new();
    for s in BottomPanelSection::all() {
        st.move_to_right_panel(s);
    }
    assert!(st.bottom_panel_sections().is_empty());
    assert_eq!(st.active_bottom_section, BottomPanelSection::Strategies);
}

#[test]
fn display_names() {
    assert_eq!(BottomPanelSection::Overview.display_name(), "Vue d'ensemble");
    assert_eq!(BottomPanelSection::TradeHistory.display_name(), "Historique");
    assert_eq!(BottomPanelSection::Strategies.display_name(), "Stratégies");
}

#[test]
fn legacy_bottom_panel() {
    let mut st = legacy::BottomPanelSectionsState::new();
    assert_eq!(st.active_section, legacy::BottomPanelSection::Overview);
    st.set_active_section(legacy::BottomPanelSection::Orders);
    assert_eq!(st.active_section, legacy::BottomPanelSection::Orders);
    assert_eq!(legacy::BottomPanelSection::all().len(), 5);
    assert_eq!(legacy::BottomPanelSection::Account.display_name(), "Compte");
    let d = legacy::BottomPanelSectionsState::default();
    assert_eq!(d.active_section, legacy::BottomPanelSection::Overview);
}

#[test]
fn loading_sections_restores_orders_and_history() {
    let st = load_bottom_panel_sections(None);
    assert_eq!(st.right_panel_sections, vec![BottomPanelSection::Orders, BottomPanelSection::TradeHistory]);
    let saved = SavedPanelSections {
        active_bottom_section: BottomPanelSection::Logs,
        active_right_section: None,
        right_panel_sections: vec![BottomPanelSection::Account, BottomPanelSection::TradeHistory],
    };
    let st = load_bottom_panel_sections(Some(saved));
    assert_eq!(
        st.right_panel_sections,
        vec![BottomPanelSection::Account, BottomPanelSection::TradeHistory, BottomPanelSection::Orders]
    );
    assert_eq!(st.active_right_section, Some(BottomPanelSection::Orders));
    assert_eq!(st.active_bottom_section, BottomPanelSection::Logs);
    let saved = SavedPanelSections {
        active_bottom_section: BottomPanelSection::Overview,
        active_right_section: Some(BottomPanelSection::Account),
        right_panel_sections: vec![],
    };
    let st = load_bottom_panel_sections(Some(saved));
    assert_eq!(st.right_panel_sections, vec![BottomPanelSection::Orders, BottomPanelSection::TradeHistory]);
    assert_eq!(st.active_right_section, Some(BottomPanelSection::Account));
}

#[test]
fn missing_file_errors_are_recognised() {
    assert!(is_missing_file_error("No such file or directory (os error 2)"));
    assert!(is_missing_file_error("The system cannot find the file specified."));
    assert!(is_missing_file_error("entity not found"));
    assert!(!is_missing_file_error("expected value at line 1 column 1"));
    assert!(!is_missing_file_error(""));
}

#[test]
fn macd_panel_presence_in_saved_file() {
    assert!(macd_panel_saved("{\"panels\":{\"macd\":{\"size\":100.0}}}"));
    assert!(!macd_panel_saved("{\"panels\":{\"rsi\":{\"size\":100.0}}}"));
    assert!(!macd_panel_saved("macd"));
}
