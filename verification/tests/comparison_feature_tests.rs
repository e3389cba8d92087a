//! Comparison feature tests: period bounds, resolutions, metric expressions
//! and the comparison formulas.

use chrono::{Datelike, TimeZone, Utc};

use evcc_dashboard::db::query::resolve_table_and_grouping;
use evcc_dashboard::web::routes::compare::{
    ts_to_date, CompareMetric, CompareWindow, PeriodBounds, SummaryPlan,
};

#[test]
fn test_period_bounds_day_window() {
    let now = chrono::Utc::now();
    let today_midnight = now.date_naive().and_hms_opt(0, 0, 0).unwrap().and_utc().timestamp();

    let current_start = today_midnight;
    let current_end = now.timestamp();
    let previous_start = today_midnight - 86400;
    let elapsed = current_end - current_start;
    let previous_end = previous_start + elapsed;

    assert!(current_start <= current_end);
    assert!(previous_start < current_start);
    assert_eq!(current_end - current_start, previous_end - previous_start);

    let b = CompareWindow::Day.compute_periods_at(now.timestamp()).unwrap();
    assert_eq!(
        b,
        PeriodBounds { current_start, current_end, previous_start, previous_end }
    );
}

#[test]
fn test_period_bounds_week_window() {
    let now = chrono::Utc::now();
    let today = now.date_naive();
    let days_since_monday = today.weekday().num_days_from_monday() as i64;
    let monday = today - chrono::Duration::days(days_since_monday);
    let current_start = monday.and_hms_opt(0, 0, 0).unwrap().and_utc().timestamp();
    let previous_start = current_start - 7 * 86400;

    assert_eq!(current_start - previous_start, 7 * 86400);
    assert!(current_start <= now.timestamp());

    let b = CompareWindow::Week.compute_periods_at(now.timestamp()).unwrap();
    assert_eq!(b.current_start, current_start);
    assert_eq!(b.previous_start, previous_start);
    assert_eq!(b.current_end - b.current_start, b.previous_end - b.previous_start);
}

#[test]
fn test_period_bounds_month_window_equal_elapsed() {
    let now = chrono::Utc::now();
    let today = now.date_naive();
    let first_of_month = chrono::NaiveDate::from_ymd_opt(today.year(), today.month(), 1).unwrap();
    let current_start = first_of_month.and_hms_opt(0, 0, 0).unwrap().and_utc().timestamp();
    let elapsed = now.timestamp() - current_start;

    let prev_month = if today.month() == 1 {
        chrono::NaiveDate::from_ymd_opt(today.year() - 1, 12, 1).unwrap()
    } else {
        chrono::NaiveDate::from_ymd_opt(today.year(), today.month() - 1, 1).unwrap()
    };
    let previous_start = prev_month.and_hms_opt(0, 0, 0).unwrap().and_utc().timestamp();
    let previous_end_candidate = previous_start + elapsed;

    let prev_month_end = first_of_month.pred_opt().unwrap()
        .and_hms_opt(23, 59, 59).unwrap().and_utc().timestamp();
    let previous_end = previous_end_candidate.min(prev_month_end);

    assert!(previous_end <= prev_month_end);
    assert!(previous_end >= previous_start);

    let b = CompareWindow::Month.compute_periods_at(now.timestamp()).unwrap();
    assert_eq!(
        b,
        PeriodBounds { current_start, current_end: now.timestamp(), previous_start, previous_end }
    );
}

#[test]
fn test_window_deserialization_valid() {
    let valid_windows = ["day", "week", "month"];
    for w in valid_windows {
        let result: Result<serde_json::Value, _> = serde_json::from_str(&format!("\"{}\"", w));
        assert!(result.is_ok(), "Window '{}' should be valid JSON string", w);
    }
}

#[test]
fn test_metric_values_are_snake_case() {
    let valid_metrics = ["solar", "consumption", "grid_import", "grid_export"];
    for m in valid_metrics {
        assert!(!m.contains(' '), "Metric '{}' should not contain spaces", m);
        assert_eq!(m, m.to_lowercase(), "Metric '{}' should be lowercase", m);
    }
}

#[test]
fn comparison_feature_tests_test_self_sufficiency_normal() {
    let consumption_wh: f64 = 10000.0;
    let grid_import_wh = 3000.0;
    let consumption_kwh = consumption_wh / 1000.0;
    let grid_import_kwh = grid_import_wh / 1000.0;
    let pct = (100.0 * (1.0 - grid_import_kwh / consumption_kwh)).clamp(0.0, 100.0);
    assert!((pct - 70.0).abs() < 0.01);
}

#[test]
fn test_self_sufficiency_zero_consumption() {
    let consumption_kwh: f64 = 0.0;
    let pct = if consumption_kwh > 0.0 {
        (100.0 * (1.0 - 0.0 / consumption_kwh)).clamp(0.0, 100.0)
    } else {
        0.0
    };
    assert_eq!(pct, 0.0);
}

#[test]
fn test_self_sufficiency_clamped_to_100() {
    let consumption_kwh: f64 = 5.0;
    let grid_import_kwh = -1.0;
    let pct = (100.0 * (1.0 - grid_import_kwh / consumption_kwh)).clamp(0.0, 100.0);
    assert_eq!(pct, 100.0);
}

#[test]
fn test_self_sufficiency_clamped_to_0() {
    let consumption_kwh: f64 = 5.0;
    let grid_import_kwh = 5.0;
    let pct = (100.0 * (1.0 - grid_import_kwh / consumption_kwh)).clamp(0.0, 100.0);
    assert_eq!(pct, 0.0);
}

#[test]
fn test_delta_normal_increase() {
    let current: f64 = 150.0;
    let previous = 100.0;
    let delta = ((current - previous) / previous) * 100.0;
    assert!((delta - 50.0).abs() < 0.01);
}

#[test]
fn test_delta_normal_decrease() {
    let current: f64 = 80.0;
    let previous = 100.0;
    let delta = ((current - previous) / previous) * 100.0;
    assert!((delta - (-20.0)).abs() < 0.01);
}

#[test]
fn test_delta_previous_zero_current_positive() {
    let current: f64 = 50.0;
    let previous = 0.0;
    let delta = if previous > 0.0 {
        ((current - previous) / previous) * 100.0
    } else if current > 0.0 {
        100.0
    } else {
        0.0
    };
    assert_eq!(delta, 100.0);
}

#[test]
fn test_delta_both_zero() {
    let current: f64 = 0.0;
    let previous = 0.0;
    let delta = if previous > 0.0 {
        ((current - previous) / previous) * 100.0
    } else if current > 0.0 {
        100.0
    } else {
        0.0
    };
    assert_eq!(delta, 0.0);
}

#[test]
fn test_resolution_mapping() {
    let cases = vec![
        ("day", "5m"),
        ("week", "1h"),
        ("month", "daily"),
    ];
    for (window, expected_resolution) in cases {
        let resolution = match window {
            "day" => "5m",
            "week" => "1h",
            "month" => "daily",
            _ => "5m",
        };
        assert_eq!(resolution, expected_resolution, "Window '{}' should map to resolution '{}'", window, expected_resolution);
        let w = match window {
            "day" => CompareWindow::Day,
            "week" => CompareWindow::Week,
            _ => CompareWindow::Month,
        };
        assert_eq!(w.resolution(), expected_resolution);
    }
}

#[test]
fn test_resolution_grouping_seconds() {
    let cases = vec![
        ("5m", 300_i64),
        ("1h", 3600_i64),
    ];
    for (resolution, expected) in cases {
        let group = match resolution {
            "5m" => 300,
            "1h" => 3600,
            _ => 300,
        };
        assert_eq!(group, expected);
    }
    assert_eq!(resolve_table_and_grouping("5m"), ("energy_samples_1m", 300));
    assert_eq!(resolve_table_and_grouping("1h"), ("energy_samples_1h", 0));
}

#[test]
fn test_wh_to_kwh_conversion() {
    let wh: f64 = 5432.1;
    let kwh = wh / 1000.0;
    assert!((kwh - 5.4321).abs() < 0.0001);
}

#[test]
fn test_power_to_energy_5m_interval() {
    let avg_power: f64 = 2000.0;
    let energy_wh = avg_power * 300.0 / 3600.0;
    assert!((energy_wh - 166.667).abs() < 0.01);
}

#[test]
fn test_power_to_energy_1h_interval() {
    let avg_power: f64 = 2000.0;
    let energy_wh = avg_power * 3600.0 / 3600.0;
    assert_eq!(energy_wh, 2000.0);
}

#[test]
fn test_metric_sql_expressions_use_case_when() {
    let expressions = [
        "CASE WHEN pv_power > 0 THEN pv_power ELSE 0 END",
        "CASE WHEN home_power > 0 THEN home_power ELSE 0 END",
        "CASE WHEN grid_power > 0 THEN grid_power ELSE 0 END",
        "CASE WHEN grid_power < 0 THEN ABS(grid_power) ELSE 0 END",
    ];

    for expr in expressions {
        assert!(expr.starts_with("CASE WHEN"), "SQL expression must use CASE WHEN pattern");
        assert!(expr.ends_with("END"), "SQL expression must end with END");
    }
    let metrics = [
        CompareMetric::Solar,
        CompareMetric::Consumption,
        CompareMetric::GridImport,
        CompareMetric::GridExport,
    ];
    for (m, expr) in metrics.iter().zip(expressions) {
        assert_eq!(m.sql_expression(), expr);
    }
}

#[test]
fn period_bounds_at_fixed_instants() {
    // Wednesday 2024-03-13 12:00:00 UTC
    let now = Utc.with_ymd_and_hms(2024, 3, 13, 12, 0, 0).unwrap().timestamp();
    let day = CompareWindow::Day.compute_periods_at(now).unwrap();
    let midnight = Utc.with_ymd_and_hms(2024, 3, 13, 0, 0, 0).unwrap().timestamp();
    assert_eq!(day, PeriodBounds {
        current_start: midnight,
        current_end: now,
        previous_start: midnight - 86400,
        previous_end: midnight - 86400 + 43200,
    });
    let week = CompareWindow::Week.compute_periods_at(now).unwrap();
    let monday = Utc.with_ymd_and_hms(2024, 3, 11, 0, 0, 0).unwrap().timestamp();
    assert_eq!(week.current_start, monday);
    assert_eq!(week.previous_start, monday - 7 * 86400);
    // 2024-03-31 is later in March than any day in February: clamped.
    let late = Utc.with_ymd_and_hms(2024, 3, 31, 10, 0, 0).unwrap().timestamp();
    let month = CompareWindow::Month.compute_periods_at(late).unwrap();
    let march = Utc.with_ymd_and_hms(2024, 3, 1, 0, 0, 0).unwrap().timestamp();
    let feb = Utc.with_ymd_and_hms(2024, 2, 1, 0, 0, 0).unwrap().timestamp();
    assert_eq!(month, PeriodBounds {
        current_start: march,
        current_end: late,
        previous_start: feb,
        previous_end: march - 1,
    });
    // January compares with the previous year's December.
    let jan = Utc.with_ymd_and_hms(2025, 1, 2, 0, 0, 0).unwrap().timestamp();
    let m = CompareWindow::Month.compute_periods_at(jan).unwrap();
    assert_eq!(m.previous_start, Utc.with_ymd_and_hms(2024, 12, 1, 0, 0, 0).unwrap().timestamp());
    assert_eq!(m.previous_end, m.previous_start + 86400);
    // Before the epoch the day still starts at midnight.
    let before = Utc.with_ymd_and_hms(1969, 12, 31, 23, 0, 0).unwrap().timestamp();
    let d = CompareWindow::Day.compute_periods_at(before).unwrap();
    assert_eq!(d.current_start, -86400);
    // 1969-12-31 was a Wednesday.
    let w = CompareWindow::Week.compute_periods_at(before).unwrap();
    assert_eq!(w.current_start, Utc.with_ymd_and_hms(1969, 12, 29, 0, 0, 0).unwrap().timestamp());
    // Out of chrono's range: no bounds.
    assert_eq!(CompareWindow::Day.compute_periods_at(i64::MAX), None);
}

#[test]
fn period_date_ranges() {
    let b = PeriodBounds {
        current_start: Utc.with_ymd_and_hms(2024, 3, 1, 0, 0, 0).unwrap().timestamp(),
        current_end: Utc.with_ymd_and_hms(2024, 3, 13, 12, 0, 0).unwrap().timestamp(),
        previous_start: Utc.with_ymd_and_hms(2024, 2, 1, 0, 0, 0).unwrap().timestamp(),
        previous_end: Utc.with_ymd_and_hms(2024, 2, 13, 12, 0, 0).unwrap().timestamp(),
    };
    assert_eq!(b.current_date_range(), ("2024-03-01".to_string(), "2024-03-13".to_string()));
    assert_eq!(b.previous_date_range(), ("2024-02-01".to_string(), "2024-02-13".to_string()));
    assert_eq!(ts_to_date(i64::MAX), "");
}

#[test]
fn current_periods_come_from_the_clock() {
    let before = Utc::now().timestamp();
    let b = CompareWindow::Day.compute_periods().unwrap();
    let after = Utc::now().timestamp();
    assert!(before <= b.current_end && b.current_end <= after);
}

#[test]
fn summary_plan_reads_days_and_weeks_from_samples_and_months_by_date() {
    let now = 1_718_000_000; // 2024-06-10 06:13:20 UTC
    let day = CompareWindow::Day.compute_periods_at(now).unwrap();
    match CompareWindow::Day.summary_plan(&day) {
        SummaryPlan::Samples { current, previous } => {
            assert_eq!(current, (day.current_start, day.current_end));
            assert_eq!(previous, (day.previous_start, day.previous_end));
        }
        SummaryPlan::Daily { .. } => panic!("a day is read from the samples"),
    }
    let week = CompareWindow::Week.compute_periods_at(now).unwrap();
    assert!(matches!(CompareWindow::Week.summary_plan(&week), SummaryPlan::Samples { .. }));
    let month = CompareWindow::Month.compute_periods_at(now).unwrap();
    match CompareWindow::Month.summary_plan(&month) {
        SummaryPlan::Daily { current, previous } => {
            assert_eq!(current, ("2024-06-01".to_string(), "2024-06-10".to_string()));
            assert_eq!(previous, ("2024-05-01".to_string(), "2024-05-10".to_string()));
        }
        SummaryPlan::Samples { .. } => panic!("a month is read by date"),
    }
}

#[test]
fn month_periods_are_ordered_and_clamped() {
    let now = Utc.with_ymd_and_hms(2024, 3, 31, 12, 0, 0).unwrap().timestamp();
    let b = CompareWindow::Month.compute_periods_at(now).unwrap();
    assert_eq!(b.current_start, Utc.with_ymd_and_hms(2024, 3, 1, 0, 0, 0).unwrap().timestamp());
    assert_eq!(b.previous_start, Utc.with_ymd_and_hms(2024, 2, 1, 0, 0, 0).unwrap().timestamp());
    assert_eq!(b.previous_end, Utc.with_ymd_and_hms(2024, 2, 29, 23, 59, 59).unwrap().timestamp());
    let jan = Utc.with_ymd_and_hms(2025, 1, 15, 8, 0, 0).unwrap().timestamp();
    let b = CompareWindow::Month.compute_periods_at(jan).unwrap();
    assert_eq!(b.previous_start, Utc.with_ymd_and_hms(2024, 12, 1, 0, 0, 0).unwrap().timestamp());
    for w in [CompareWindow::Day, CompareWindow::Week, CompareWindow::Month] {
        let b = w.compute_periods_at(now).unwrap();
        assert!(b.previous_start < b.current_start && b.current_start <= b.current_end);
        assert!(b.previous_start <= b.previous_end && b.previous_end < b.current_start);
        assert!(b.previous_end - b.previous_start <= b.current_end - b.current_start);
    }
}

#[test]
fn periods_exist_for_every_ordinary_instant() {
    for now in [-8_000_000_000_000_i64, -1, 0, 1_718_000_000, 8_000_000_000_000] {
        for w in [CompareWindow::Day, CompareWindow::Week, CompareWindow::Month] {
            assert!(w.compute_periods_at(now).is_some(), "{now}");
        }
    }
    assert!(CompareWindow::Day.compute_periods().is_some());
}
