use candlechart::data::data_loading::{distinct_symbols, plan_startup_load, StartupPlan};
use candlechart::data::download_manager::{DownloadManager, DownloadProgress, SeriesId};
use candlechart::realtime::download::{
    handle_batch_download_result, plan_batch, resume_batch_download, start_batch_download, BatchAction,
};

fn sid(name: &str) -> SeriesId {
    SeriesId { name: name.to_string() }
}

fn progress(name: &str, gaps: Vec<(i64, i64)>) -> DownloadProgress {
    DownloadProgress {
        series_id: sid(name),
        current_count: 0,
        estimated_total: 10,
        current_start: 100,
        target_end: 200,
        gaps_remaining: gaps,
        paused: false,
    }
}

#[test]
fn manager_start_pause_resume_finish() {
    let mut m = DownloadManager::new();
    assert_eq!(m.count(), 0);
    m.start_download(progress("A_1h", vec![]));
    m.start_download(progress("B_1h", vec![]));
    assert_eq!(m.count(), 2);
    assert!(m.is_downloading(&sid("A_1h")));
    assert!(!m.is_paused(&sid("A_1h")));
    assert!(m.pause_download(&sid("A_1h")));
    assert!(m.is_paused(&sid("A_1h")));
    assert!(m.resume_download(&sid("A_1h")));
    assert!(!m.is_paused(&sid("A_1h")));
    assert!(!m.pause_download(&sid("C_1h")));
    assert!(!m.is_paused(&sid("C_1h")));
    assert!(m.finish_download(&sid("A_1h")));
    assert!(!m.finish_download(&sid("A_1h")));
    assert!(!m.is_downloading(&sid("A_1h")));
    assert!(m.stop_download(&sid("B_1h")));
    assert_eq!(m.count(), 0);
}

#[test]
fn restarting_a_download_replaces_it() {
    let mut m = DownloadManager::default();
    m.start_download(progress("A_1h", vec![]));
    let mut p = progress("A_1h", vec![]);
    p.current_count = 42;
    m.start_download(p);
    assert_eq!(m.count(), 1);
    assert_eq!(m.get_progress(&sid("A_1h")).unwrap().current_count, 42);
    assert_eq!(m.all_downloads().len(), 1);
}

#[test]
fn update_progress_and_next_gap() {
    let mut m = DownloadManager::new();
    assert!(!m.update_progress(&sid("A_1h"), 5, 7));
    m.start_download(progress("A_1h", vec![(10, 20), (1, 5)]));
    assert!(m.update_progress(&sid("A_1h"), 5, 150));
    let p = m.get_progress(&sid("A_1h")).unwrap();
    assert_eq!((p.current_count, p.target_end), (5, 150));
    assert_eq!(m.next_gap(&sid("A_1h")), Some((10, 20)));
    let p = m.get_progress(&sid("A_1h")).unwrap();
    assert_eq!((p.current_start, p.target_end), (10, 20));
    assert_eq!(p.gaps_remaining, vec![(1, 5)]);
    assert_eq!(m.next_gap(&sid("A_1h")), Some((1, 5)));
    assert_eq!(m.next_gap(&sid("A_1h")), None);
    assert_eq!(m.next_gap(&sid("Z_1h")), None);
}

#[test]
fn plan_batch_keeps_candles_inside_the_gap() {
    let ts = vec![90, 100, 150, 200, 210];
    let p = plan_batch(&ts, 100, 200, 7);
    assert_eq!(p.keep, vec![false, true, true, true, false]);
    assert_eq!(p.count, 10);
    assert_eq!(p.next_end, 100);
}

#[test]
fn plan_batch_full_batch_continues_before_oldest() {
    let ts: Vec<i64> = (0..1000).map(|i| 5000 + i).collect();
    let p = plan_batch(&ts, 1000, 6000, 0);
    assert_eq!(p.count, 1000);
    assert_eq!(p.next_end, 4999);
    let empty: Vec<i64> = vec![];
    let p = plan_batch(&empty, 1000, 6000, 3);
    assert_eq!((p.count, p.next_end), (3, 1000));
}

#[test]
fn start_batch_download_needs_a_gap() {
    let mut m = DownloadManager::new();
    assert!(!start_batch_download(&mut m, sid("A_1h"), vec![], 0));
    assert_eq!(m.count(), 0);
    assert!(start_batch_download(&mut m, sid("A_1h"), vec![(300, 400), (100, 200)], 50));
    let p = m.get_progress(&sid("A_1h")).unwrap();
    assert_eq!((p.current_start, p.target_end, p.estimated_total), (300, 400, 50));
    assert_eq!(p.gaps_remaining, vec![(100, 200)]);
}

#[test]
fn batch_results_walk_through_the_gaps() {
    let mut m = DownloadManager::new();
    start_batch_download(&mut m, sid("A_1h"), vec![(300, 400), (100, 200)], 50);
    let out = handle_batch_download_result(&mut m, &sid("A_1h"), 10, 350, true);
    assert_eq!(out.action, BatchAction::Continue);
    assert!(!out.save);
    let out = handle_batch_download_result(&mut m, &sid("A_1h"), 20, 300, true);
    assert_eq!(out.action, BatchAction::Continue);
    let p = m.get_progress(&sid("A_1h")).unwrap();
    assert_eq!((p.current_start, p.target_end), (100, 200));
    assert!(p.gaps_remaining.is_empty());
    let out = handle_batch_download_result(&mut m, &sid("A_1h"), 30, 100, true);
    assert_eq!(out.action, BatchAction::Complete);
    assert!(out.save);
    let out = handle_batch_download_result(&mut m, &sid("Z_1h"), 30, 100, true);
    assert_eq!(out.action, BatchAction::Ignore);
}

#[test]
fn batch_result_saves_every_tenth_batch_and_respects_pause() {
    let mut m = DownloadManager::new();
    start_batch_download(&mut m, sid("A_1h"), vec![(0, 100_000), (0, 10)], 0);
    m.update_progress(&sid("A_1h"), 9000, 90_000);
    let out = handle_batch_download_result(&mut m, &sid("A_1h"), 10_000, 80_000, true);
    assert!(out.save);
    let out = handle_batch_download_result(&mut m, &sid("A_1h"), 11_000, 70_000, false);
    assert!(!out.save);
    m.pause_download(&sid("A_1h"));
    let out = handle_batch_download_result(&mut m, &sid("A_1h"), 12_000, 60_000, true);
    assert_eq!(out.action, BatchAction::Paused);
    assert!(resume_batch_download(&mut m, &sid("A_1h")));
    assert!(!resume_batch_download(&mut m, &sid("Q_1h")));
}

#[test]
fn cloned_progress_matches() {
    let p = progress("A_1h", vec![(1, 2)]);
    let c = p.clone();
    assert_eq!(c.series_id.name, "A_1h");
    assert_eq!(c.gaps_remaining, vec![(1, 2)]);
    let mut m = DownloadManager::new();
    m.start_download(p);
    assert_eq!(m.clone().count(), 1);
}

#[test]
fn startup_load_plan() {
    match plan_startup_load(true, &vec!["ETHUSDT".to_string()]) {
        StartupPlan::DownloadAll { symbol } => assert_eq!(symbol, "BTCUSDT"),
        _ => panic!("an empty folder downloads everything"),
    }
    let loaded = vec!["ETHUSDT".to_string(), "BTCUSDT".to_string(), "ETHUSDT".to_string()];
    match plan_startup_load(false, &loaded) {
        StartupPlan::CheckMonthly { symbols } => {
            assert_eq!(symbols, vec!["ETHUSDT".to_string(), "BTCUSDT".to_string()])
        }
        _ => panic!("a loaded folder checks its symbols"),
    }
    assert!(distinct_symbols(&vec![]).is_empty());
}
