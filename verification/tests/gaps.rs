use candlechart::realtime::gaps::estimate_total_candles;
use candlechart::realtime::updates::realtime_series;
use candlechart::realtime::gaps::{
    calculate_expected_candles, complete_missing_data, has_gaps_to_fill, plan_gaps, sort_gaps_newest_first,
    FetchPlan,
};

#[test]
fn sort_gaps_from_newest() {
    let s = sort_gaps_newest_first(vec![(10, 20), (50, 60), (30, 40), (50, 55)]);
    assert_eq!(s, vec![(50, 60), (50, 55), (30, 40), (10, 20)]);
}

#[test]
fn plan_gaps_orders_recent_internal_history() {
    let now = 1_000_000;
    let plan = plan_gaps(500_000, 900_000, 100_000, now, 3600, vec![(600_000, 610_000), (700_000, 720_000)]);
    assert_eq!(
        plan,
        vec![(900_000, now), (700_000, 720_000), (600_000, 610_000), (100_000, 500_000)]
    );
}

#[test]
fn plan_gaps_for_empty_series_downloads_everything() {
    let plan = plan_gaps(0, 0, 42, 1_000, 60, vec![]);
    assert_eq!(plan, vec![(42, 1_000)]);
}

#[test]
fn plan_gaps_complete_series_is_empty() {
    let plan = plan_gaps(500, 999_000, 500, 1_000_000, 3600, vec![]);
    assert!(plan.is_empty());
}

#[test]
fn has_gaps_rules() {
    let now = 1_000_000;
    assert!(!has_gaps_to_fill("invalid", 0, None, now, 0));
    assert!(has_gaps_to_fill("BTCUSDT_1h", 0, None, now, 0));
    assert!(has_gaps_to_fill("BTCUSDT_1h", 5, Some(now - 4000), now, 0));
    assert!(!has_gaps_to_fill("BTCUSDT_1h", 5, Some(now - 3000), now, 0));
    assert!(has_gaps_to_fill("BTCUSDT_1h", 5, Some(now - 3000), now, 2));
}

#[test]
fn missing_data_plans() {
    let names = vec!["BTCUSDT_1h".to_string(), "bad".to_string(), "ETH_15m".to_string(), "X_1d".to_string()];
    let lasts = vec![Some(1_000_000 - 1800), Some(5), Some(0), None];
    let plans = complete_missing_data(&names, &lasts, 1_000_000);
    assert_eq!(
        plans,
        vec![
            (0, FetchPlan::Since { since: 1_000_000 - 1800, stale: false }),
            (2, FetchPlan::Since { since: 1_000_000 - 90_000, stale: true }),
            (3, FetchPlan::Full),
        ]
    );
}

#[test]
fn expected_candles() {
    assert_eq!(calculate_expected_candles("1h", 7200), 2);
    assert_eq!(calculate_expected_candles("1h", 7199), 1);
    assert_eq!(calculate_expected_candles("1m", -5), 0);
}

#[test]
fn realtime_refreshes_exchange_series_only() {
    let names = vec!["BTCUSDT_1h".to_string(), "custom".to_string(), "ETHUSDT_15m".to_string(), "A_B_C".to_string()];
    assert_eq!(realtime_series(true, &names), vec![0, 2]);
    assert_eq!(realtime_series(false, &names), Vec::<usize>::new());
    assert_eq!(realtime_series(true, &vec![]), Vec::<usize>::new());
}

#[test]
fn estimated_candles_over_gaps() {
    let gaps = vec![(0, 18000), (100, 1000), (500, 400)];
    assert_eq!(estimate_total_candles("1h", &gaps), 5);
    assert_eq!(estimate_total_candles("15m", &gaps), 21);
    assert_eq!(estimate_total_candles("1h", &vec![]), 0);
}
