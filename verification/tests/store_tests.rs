//! Sample store: migrations still to run and daily chart timestamps.

use evcc_dashboard::db::query::{
    daily_chart_columns, daily_chart_range, daily_chart_sql, daily_chart_timestamps, daily_summaries_sql,
    energy_totals_sql, today_pv_energy_sql, DailyChartRow,
};
use evcc_dashboard::db::{contains_text, is_sql_file_name, pending_migrations};
use evcc_dashboard::db::downsample::daily_summary_dates;
use evcc_dashboard::web::routes::charts::{ChartQuery, DAILY_SPAN_SECS, HISTORY_SPAN_SECS};
use evcc_dashboard::web::routes::mobile::{EnergyQuery, SummaryQuery};

fn names(v: &[&str]) -> Vec<String> {
    v.iter().map(|s| s.to_string()).collect()
}

#[test]
fn only_sql_files_have_the_sql_extension() {
    assert!(is_sql_file_name("001_init.sql"));
    assert!(is_sql_file_name("a.b.sql"));
    assert!(is_sql_file_name("..sql"));
    assert!(!is_sql_file_name(".sql"));
    assert!(!is_sql_file_name("sql"));
    assert!(!is_sql_file_name("001_init.SQL"));
    assert!(!is_sql_file_name("001_init.sql.bak"));
    assert!(!is_sql_file_name("README.md"));
}

#[test]
fn pending_migrations_are_sorted_and_skip_applied_ones() {
    let files = names(&["003_peaks.sql", "README.md", "001_init.sql", "002_daily.sql", ".sql"]);
    let applied = names(&["001_init.sql"]);
    assert_eq!(pending_migrations(&files, &applied), names(&["002_daily.sql", "003_peaks.sql"]));
    assert_eq!(pending_migrations(&files, &names(&[])), names(&["001_init.sql", "002_daily.sql", "003_peaks.sql"]));
    let all = names(&["001_init.sql", "002_daily.sql", "003_peaks.sql"]);
    assert!(pending_migrations(&files, &all).is_empty());
}

#[test]
fn migration_order_is_byte_order() {
    let files = names(&["b.sql", "B.sql", "a10.sql", "a2.sql", "a.sql"]);
    assert_eq!(
        pending_migrations(&files, &names(&[])),
        names(&["B.sql", "a.sql", "a10.sql", "a2.sql", "b.sql"])
    );
}

#[test]
fn applied_names_are_matched_exactly() {
    let applied = names(&["001_init.sql", "x"]);
    assert!(contains_text(&applied, "x"));
    assert!(!contains_text(&applied, "001_init"));
    assert!(!contains_text(&applied, ""));
}

#[test]
fn daily_chart_dates_and_timestamps() {
    let (from, to) = daily_chart_range(1_704_067_200, 1_704_153_599);
    assert_eq!(from, "2024-01-01");
    assert_eq!(to, "2024-01-01");
    let dates = names(&["2024-01-01", "not a date", "2024-01-02"]);
    assert_eq!(daily_chart_timestamps(&dates), vec![1_704_067_200, 1_704_153_600]);
    assert!(daily_chart_timestamps(&[]).is_empty());
}

#[test]
fn summary_dates_are_yesterday_and_today() {
    let (yesterday, today) = daily_summary_dates(1_704_153_600 + 3600);
    assert_eq!(yesterday, "2024-01-01");
    assert_eq!(today, "2024-01-02");
}

#[test]
fn query_windows_default_to_the_recent_past() {
    let q = ChartQuery { from: None, to: None, resolution: "auto".to_string() };
    assert_eq!(q.time_window(1_000_000, HISTORY_SPAN_SECS), (913_600, 1_000_000));
    assert_eq!(q.time_window(10_000_000, DAILY_SPAN_SECS), (7_408_000, 10_000_000));
    let q = ChartQuery { from: Some(5), to: Some(9), resolution: "1m".to_string() };
    assert_eq!(q.time_window(1_000_000, HISTORY_SPAN_SECS), (5, 9));
    let e = EnergyQuery { from: None, to: Some(50), resolution: "auto".to_string() };
    assert_eq!(e.time_window(200_000), (113_600, 50));
    let s = SummaryQuery { from: Some("2024-01-01".to_string()), to: None };
    assert_eq!(s.date_range("2024-02-01"), ("2024-01-01".to_string(), "2024-02-01".to_string()));
}

#[test]
fn daily_chart_columns_follow_the_rows() {
    let row = |date: &str, v: f64| DailyChartRow {
        date: date.to_string(),
        grid_import_wh: Some(v),
        grid_export_wh: None,
        pv_production_wh: Some(v * 2.0),
        home_consumption_wh: Some(v * 3.0),
        self_sufficiency_pct: None,
    };
    let rows = vec![row("2024-01-01", 1.0), row("bad", 2.0), row("2024-01-02", 3.0)];
    let c = daily_chart_columns(&rows);
    assert_eq!(c.timestamps, vec![1_704_067_200, 1_704_153_600]);
    assert_eq!(c.grid_import_wh, vec![Some(1.0), Some(2.0), Some(3.0)]);
    assert_eq!(c.pv_production_wh, vec![Some(2.0), Some(4.0), Some(6.0)]);
    assert_eq!(c.home_consumption_wh, vec![Some(3.0), Some(6.0), Some(9.0)]);
    assert_eq!(c.grid_export_wh, vec![None, None, None]);
    assert_eq!(c.self_sufficiency_pct.len(), 3);
}

#[test]
fn store_query_texts() {
    assert!(daily_chart_sql().contains("FROM daily_summaries"));
    assert!(daily_chart_sql().contains("self_sufficiency_pct"));
    assert!(energy_totals_sql().contains("COUNT(*)"));
    assert!(daily_summaries_sql().contains("battery_discharge_wh"));
    assert_eq!(today_pv_energy_sql(), "SELECT pv_production_wh FROM daily_summaries WHERE date = ?1");
}
