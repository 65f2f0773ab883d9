use std::time::Duration;
use candlechart::error_handling::{AppError, ErrorType};
use candlechart::state::notifications::{Notification, NotificationManager, NotificationType};
use candlechart::state::ui_state::UiState;

fn info(id: usize, msg: &str) -> Notification {
    Notification::new(id, msg.to_string(), NotificationType::Info)
}

#[test]
fn add_assigns_counter_to_id_zero_only() {
    let mut m = NotificationManager::new();
    m.add(info(0, "a"));
    m.add(info(0, "b"));
    m.add(info(7, "c"));
    let ids: Vec<usize> = m.notifications().iter().map(|n| n.id).collect();
    assert_eq!(ids, vec![0, 1, 7]);
}

#[test]
fn add_keeps_at_most_the_limit_dropping_the_oldest() {
    let mut m = NotificationManager::with_max_notifications(2);
    m.add(info(1, "a"));
    m.add(info(2, "b"));
    m.add(info(3, "c"));
    let msgs: Vec<&str> = m.notifications().iter().map(|n| n.message.as_str()).collect();
    assert_eq!(msgs, vec!["b", "c"]);
}

#[test]
fn default_limit_is_five() {
    let mut m = NotificationManager::default();
    for i in 1..=7 {
        m.add(info(i, "x"));
    }
    assert_eq!(m.notifications().len(), 5);
    assert_eq!(m.notifications()[0].id, 3);
}

#[test]
fn helpers_take_distinct_ids_from_the_counter() {
    let mut m = NotificationManager::new();
    m.add_success("ok".to_string());
    m.add_warning("careful".to_string());
    m.add_info("fyi".to_string());
    let ids: Vec<usize> = m.notifications().iter().map(|n| n.id).collect();
    assert_eq!(ids, vec![0, 1, 2]);
    let n = &m.notifications()[0];
    assert_eq!(n.notification_type, NotificationType::Success);
    assert_eq!(n.auto_dismiss_duration, Some(std::time::Duration::from_secs(3)));
    assert_eq!(m.notifications()[1].auto_dismiss_duration, Some(std::time::Duration::from_secs(5)));
    assert_eq!(m.notifications()[2].auto_dismiss_duration, Some(std::time::Duration::from_secs(4)));
}

#[test]
fn remove_by_id_removes_every_match() {
    let mut m = NotificationManager::new();
    m.add(info(4, "a"));
    m.add(info(5, "b"));
    m.add(info(4, "c"));
    m.remove(4);
    assert_eq!(m.notifications().len(), 1);
    assert_eq!(m.notifications()[0].message, "b");
}

#[test]
fn remove_by_index_ignores_out_of_range() {
    let mut m = NotificationManager::new();
    m.add(info(1, "a"));
    m.add(info(2, "b"));
    m.remove_by_index(5);
    assert_eq!(m.notifications().len(), 2);
    m.remove_by_index(0);
    assert_eq!(m.notifications()[0].message, "b");
    m.clear();
    assert!(m.notifications().is_empty());
}

#[test]
fn clear_by_type_keeps_other_kinds() {
    let mut m = NotificationManager::new();
    m.add(Notification::new(1, "e".to_string(), NotificationType::Error));
    m.add(info(2, "i"));
    m.add(Notification::new(3, "e2".to_string(), NotificationType::Error));
    m.clear_by_type(NotificationType::Error);
    assert_eq!(m.notifications().len(), 1);
    assert_eq!(m.notifications()[0].id, 2);
}

#[test]
fn update_keeps_persistent_and_removes_expired() {
    let mut m = NotificationManager::new();
    m.add(info(1, "persistent"));
    m.add(info(2, "expired").with_auto_dismiss(std::time::Duration::from_secs(0)));
    m.add(info(3, "later").with_auto_dismiss(std::time::Duration::from_secs(3600)));
    let expired = m.update();
    assert_eq!(expired, vec![2]);
    let ids: Vec<usize> = m.notifications().iter().map(|n| n.id).collect();
    assert_eq!(ids, vec![1, 3]);
}

#[test]
fn remove_expired_follows_flags() {
    let mut m = NotificationManager::new();
    m.add(info(1, "a"));
    m.add(info(2, "b"));
    m.add(info(3, "c"));
    let ids = m.remove_expired(&vec![true, false, true]);
    assert_eq!(ids, vec![1, 3]);
    assert_eq!(m.notifications().len(), 1);
    assert_eq!(m.notifications()[0].id, 2);
}

#[test]
fn builders_and_expiry() {
    let n = info(1, "m").with_details("d".to_string()).with_source("s".to_string());
    assert_eq!(n.details.as_deref(), Some("d"));
    assert_eq!(n.source.as_deref(), Some("s"));
    assert!(!n.should_auto_dismiss());
    let n = n.with_auto_dismiss(std::time::Duration::from_secs(0));
    assert!(n.should_auto_dismiss());
}

#[test]
fn from_error_maps_kinds_and_details() {
    let e = AppError::new("user".to_string(), "tech".to_string(), ErrorType::Network).with_source("src".to_string());
    let n = Notification::from_error(9, e);
    assert_eq!(n.id, 9);
    assert_eq!(n.message, "user");
    assert_eq!(n.details.as_deref(), Some("tech"));
    assert_eq!(n.notification_type, NotificationType::Error);
    assert_eq!(n.source.as_deref(), Some("src"));
    assert_eq!(n.auto_dismiss_duration, None);
    let same = AppError::from_message("same");
    let n = Notification::from_error(1, same);
    assert_eq!(n.details, None);
    assert_eq!(n.notification_type, NotificationType::Warning);
    let n = Notification::from_error(1, AppError::new("a".into(), "b".into(), ErrorType::Configuration));
    assert_eq!(n.notification_type, NotificationType::Error);
    let n = Notification::from_error(1, AppError::new("a".into(), "b".into(), ErrorType::Parse));
    assert_eq!(n.notification_type, NotificationType::Warning);
}

#[test]
fn add_error_uses_counter() {
    let mut m = NotificationManager::new();
    m.add_error(AppError::new("u".into(), "t".into(), ErrorType::Api));
    assert_eq!(m.notifications()[0].id, 0);
    assert_eq!(m.notifications()[0].notification_type, NotificationType::Error);
    let c = m.clone();
    assert_eq!(c.notifications().len(), 1);
}

#[test]
fn ui_state_keeps_five_recent_errors() {
    let mut ui = UiState::default();
    assert!(!ui.indicators_panel_open);
    assert!(ui.error_messages.is_empty());
    for k in 0..7 {
        ui.add_error(AppError::new(format!("e{}", k), "t".to_string(), ErrorType::Network));
    }
    assert_eq!(ui.error_messages.len(), 5);
    assert_eq!(ui.error_messages[0].user_message, "e2");
    assert_eq!(ui.error_messages[4].user_message, "e6");
    // the notification manager keeps at most five as well, newest last
    assert_eq!(ui.notifications.notifications().len(), 5);
    assert_eq!(ui.notifications.notifications()[4].message, "e6");
    ui.remove_error(0);
    assert_eq!(ui.error_messages.len(), 4);
    assert_eq!(ui.error_messages[0].user_message, "e3");
    ui.remove_error(10);
    assert_eq!(ui.error_messages.len(), 4);
    ui.clear_errors();
    assert!(ui.error_messages.is_empty());
    assert_eq!(ui.notifications.notifications().len(), 5);
    let expired = ui.update_notifications();
    assert!(expired.is_empty());
}

#[test]
fn app_error_clone_keeps_everything() {
    let e = AppError::new("u".to_string(), "t".to_string(), ErrorType::Api).with_source("S".to_string());
    let c = e.clone();
    assert_eq!(c.user_message, "u");
    assert_eq!(c.technical_message, "t");
    assert_eq!(c.error_type, ErrorType::Api);
    assert_eq!(c.source, Some("S".to_string()));
    assert_eq!(c.timestamp, e.timestamp);
}

#[test]
fn three_successes_get_distinct_ids() {
    let mut m = NotificationManager::new();
    m.add_success("a".to_string());
    m.add_success("b".to_string());
    m.add_success("c".to_string());
    let ids: Vec<usize> = m.notifications().iter().map(|n| n.id).collect();
    assert_eq!(ids, vec![0, 1, 2]);
    m.add_error(AppError::new("u".into(), "t".into(), ErrorType::Api));
    assert_eq!(m.notifications()[3].id, 3);
}

#[test]
fn expiry_given_elapsed_time() {
    let persistent = info(1, "p");
    assert!(!persistent.expired_after(Duration::from_secs(1000)));
    let timed = info(2, "t").with_auto_dismiss(Duration::from_secs(3));
    assert!(!timed.expired_after(Duration::from_millis(2999)));
    assert!(timed.expired_after(Duration::from_secs(3)));
    assert!(timed.expired_after(Duration::from_secs(4)));

    let mut m = NotificationManager::new();
    m.add(info(1, "p"));
    m.add(info(2, "t").with_auto_dismiss(Duration::from_secs(3)));
    m.add(info(3, "u").with_auto_dismiss(Duration::from_secs(10)));
    let ids = m.update_with_elapsed(&vec![Duration::from_secs(100), Duration::from_secs(5), Duration::from_secs(5)]);
    assert_eq!(ids, vec![2]);
    let left: Vec<usize> = m.notifications().iter().map(|n| n.id).collect();
    assert_eq!(left, vec![1, 3]);
    let ids = m.update();
    assert!(ids.is_empty());
}

#[test]
fn app_error_shown_as_user_message() {
    let e = AppError::new("Erreur réseau".to_string(), "tech".to_string(), ErrorType::Network);
    assert_eq!(e.to_string(), "Erreur réseau");
}
