//! Interface state kept by the library: panel sections, backtest playback, recent
//! errors and notifications (panel sizes and context-menu positions stay with the
//! application).
use vstd::prelude::*;
use crate::error_handling::{AppError, same_error};
use crate::state::backtest::BacktestState;
use crate::state::bottom_panel_sections::{BottomPanelSectionsState, initial_sections};
use crate::state::notifications::{
    after_add, due_flags, expired_ids, kept_after, notification_type_of, Notification, NotificationManager,
};

verus! {

/// How many recent errors are kept.
pub const MAX_ERROR_MESSAGES: usize = 5;

/// Interface state.
#[derive(Debug, Clone)]
pub struct UiState {
    /// Sections of the bottom and right panels.
    pub bottom_panel_sections: BottomPanelSectionsState,
    /// Whether the indicators panel is open.
    pub indicators_panel_open: bool,
    /// Backtest playback.
    pub backtest_state: BacktestState,
    /// Recent errors, oldest first (at most five).
    pub error_messages: Vec<AppError>,
    /// Notifications on screen.
    pub notifications: NotificationManager,
}

/// The recent errors after `e` arrives: the oldest leaves when five are kept.
pub open spec fn errors_after(list: Seq<AppError>, e: AppError) -> Seq<AppError> {
    if list.len() >= MAX_ERROR_MESSAGES { list.drop_first().push(e) } else { list.push(e) }
}

/// At most five recent errors are kept: adding one to at most five leaves at most five,
/// the newest last.
pub proof fn law_error_log_bounded(list: Seq<AppError>, e: AppError)
    requires
        list.len() <= MAX_ERROR_MESSAGES,
    ensures
        errors_after(list, e).len() <= MAX_ERROR_MESSAGES,
        errors_after(list, e).last() == e,
{
}

impl Default for UiState {
    /// Initial sections, indicators panel closed, backtest off, no error, no notification.
    fn default() -> (s: Self)
        ensures
            s.bottom_panel_sections@ == initial_sections(),
            !s.indicators_panel_open,
            !s.backtest_state.enabled,
            !s.backtest_state.is_playing,
            s.backtest_state.start_timestamp is None,
            s.backtest_state.current_index == 0,
            s.backtest_state.start_index is None,
            s.backtest_state.playback_speed_ms == 100,
            s.backtest_state.selected_strategy_id is None,
            !s.backtest_state.dragging_playhead,
            s.error_messages@.len() == 0,
            s.notifications@.list.len() == 0,
            s.notifications@.next_id == 0,
            s.notifications@.max == 5,
    {
        UiState {
            bottom_panel_sections: BottomPanelSectionsState::new(),
            indicators_panel_open: false,
            backtest_state: BacktestState::new(),
            error_messages: Vec::new(),
            notifications: NotificationManager::new(),
        }
    }
}

impl UiState {
    /// Records an error among the recent ones (dropping the oldest when five are kept)
    /// and shows it as a notification.
    pub fn add_error(&mut self, error: AppError)
        requires
            old(self).notifications@.max > 0,
            old(self).notifications@.next_id < usize::MAX,
        ensures
            final(self).error_messages@.len() == errors_after(old(self).error_messages@, error).len(),
            forall|i: int| 0 <= i < final(self).error_messages@.len() ==> same_error(
                #[trigger] final(self).error_messages@[i],
                errors_after(old(self).error_messages@, error)[i],
            ),
            exists|n: Notification|
                {
                    &&& n.id == 0
                    &&& n.message@ == error.user_message@
                    &&& error.technical_message@ != error.user_message@ ==> (n.details matches Some(d)
                        && d@ == error.technical_message@)
                    &&& error.technical_message@ == error.user_message@ ==> n.details is None
                    &&& n.notification_type == notification_type_of(error.error_type)
                    &&& n.created_at == error.timestamp
                    &&& n.auto_dismiss_duration is None
                    &&& n.source == error.source
                    &&& final(self).notifications@ == after_add(old(self).notifications@, n)
                },
            final(self).notifications@.list.last().id == old(self).notifications@.next_id,
            final(self).notifications@.next_id == old(self).notifications@.next_id + 1,
            final(self).notifications@.list.len() <= final(self).notifications@.max,
            final(self).bottom_panel_sections == old(self).bottom_panel_sections,
            final(self).indicators_panel_open == old(self).indicators_panel_open,
            final(self).backtest_state == old(self).backtest_state,
    {
        if self.error_messages.len() >= MAX_ERROR_MESSAGES {
            self.error_messages.remove(0);
        }
        let ghost kept = self.error_messages@;
        let copy = error.clone();
        self.error_messages.push(copy);
        proof {
            let want = errors_after(old(self).error_messages@, error);
            assert(kept.push(copy).len() == want.len());
            assert forall|i: int| 0 <= i < want.len() implies same_error(
                #[trigger] self.error_messages@[i],
                want[i],
            ) by {
                if i < kept.len() {
                    assert(self.error_messages@[i] == want[i]);
                }
            }
        }
        self.notifications.add_error(error);
    }

    /// Removes the recent error at `index`, if there is one.
    pub fn remove_error(&mut self, index: usize)
        ensures
            index < old(self).error_messages@.len() ==> final(self).error_messages@
                == old(self).error_messages@.remove(index as int),
            index >= old(self).error_messages@.len() ==> final(self).error_messages@
                == old(self).error_messages@,
            final(self).notifications@ == old(self).notifications@,
            final(self).bottom_panel_sections == old(self).bottom_panel_sections,
            final(self).indicators_panel_open == old(self).indicators_panel_open,
            final(self).backtest_state == old(self).backtest_state,
    {
        if index < self.error_messages.len() {
            self.error_messages.remove(index);
        }
    }

    /// Forgets every recent error.
    pub fn clear_errors(&mut self)
        ensures
            final(self).error_messages@.len() == 0,
            final(self).notifications@ == old(self).notifications@,
            final(self).bottom_panel_sections == old(self).bottom_panel_sections,
            final(self).indicators_panel_open == old(self).indicators_panel_open,
            final(self).backtest_state == old(self).backtest_state,
    {
        self.error_messages.clear();
    }

    /// Removes the notifications whose delay has passed, reading the clock, and returns
    /// their identifiers (see `NotificationManager::update`).
    pub fn update_notifications(&mut self) -> (ids: Vec<usize>)
        ensures
            exists|elapsed: Seq<std::time::Duration>|
                {
                    &&& elapsed.len() == old(self).notifications@.list.len()
                    &&& final(self).notifications@.list == kept_after(
                        old(self).notifications@.list,
                        due_flags(old(self).notifications@.list, elapsed),
                    )
                    &&& ids@ == expired_ids(old(self).notifications@.list, due_flags(old(self).notifications@.list, elapsed))
                },
            final(self).notifications@.next_id == old(self).notifications@.next_id,
            final(self).notifications@.max == old(self).notifications@.max,
            final(self).error_messages@ == old(self).error_messages@,
            final(self).bottom_panel_sections == old(self).bottom_panel_sections,
            final(self).indicators_panel_open == old(self).indicators_panel_open,
            final(self).backtest_state == old(self).backtest_state,
    {
        self.notifications.update()
    }
}

} // verus!
