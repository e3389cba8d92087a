//! Web decision tests: schematic descriptions, gates, chart queries and retention.

use evcc_dashboard::db::downsample::retention_cutoffs;
use evcc_dashboard::db::query::{battery_history_sql, loadpoint_history_sql, power_history_sql, resolve_table_and_grouping};
use evcc_dashboard::web::middleware::{check_api_key, strip_base_path, ApiKeyDecision};
use evcc_dashboard::web::routes::charts::resolve_auto_resolution;
use evcc_dashboard::web::routes::dashboard::is_stale;
use evcc_dashboard::web::routes::login::login_redirect;
use evcc_dashboard::web::state::{
    derive_schematic_aria_label, derive_status_announcement, node_visible, FlowDirection, NodeFlowStatus,
};
use evcc_dashboard::config::{
    ApiConfig, AuthConfig, Config, DatabaseConfig, LoggingConfig, MqttConfig, RetentionConfig,
    SamplingConfig, ServerConfig,
};
use evcc_dashboard::web::routes::settings::{pairing_qr, qr_markup, settings_template};

fn node(id: &'static str, visible: bool, direction: FlowDirection, drawing: bool, text: Option<&str>) -> NodeFlowStatus {
    NodeFlowStatus { id, visible, direction, drawing_power: drawing, power_text: text.map(|t| t.to_string()) }
}

#[test]
fn status_announcement_only_on_change() {
    let nodes = vec![
        node("house", true, FlowDirection::Idle, false, Some("500 W")),
        node("solar", true, FlowDirection::ToHouse, true, Some("1.2 kW")),
        node("grid", true, FlowDirection::FromHouse, true, Some("700 W")),
        node("battery", true, FlowDirection::Idle, false, None),
        node("ev", true, FlowDirection::FromHouse, true, Some("3.7 kW")),
    ];
    let first = derive_status_announcement(&nodes, false, "");
    assert_eq!(first.as_deref(), Some("exporting to grid, EV charging"));
    assert_eq!(derive_status_announcement(&nodes, false, first.as_deref().unwrap()), None);
    assert_eq!(
        derive_status_announcement(&nodes, true, "").as_deref(),
        Some("Connection lost — showing last known values")
    );
    let idle = vec![node("grid", true, FlowDirection::Idle, false, None)];
    assert_eq!(derive_status_announcement(&idle, false, "x").as_deref(), Some("System idle"));
    let night = vec![node("solar", false, FlowDirection::Idle, false, None)];
    assert_eq!(derive_status_announcement(&night, false, "").as_deref(), Some("solar production stopped"));
}

#[test]
fn schematic_aria_label() {
    let nodes = vec![
        node("house", true, FlowDirection::Idle, false, Some("500 W")),
        node("solar", true, FlowDirection::ToHouse, true, Some("1.2 kW")),
        node("grid", true, FlowDirection::ToHouse, true, Some("700 W")),
        node("battery", true, FlowDirection::Idle, false, Some("10 W")),
        node("ev", false, FlowDirection::FromHouse, true, Some("3.7 kW")),
    ];
    assert_eq!(
        derive_schematic_aria_label(&nodes),
        "Energy flow: solar producing 1.2 kW, importing 700 W from grid, battery idle"
    );
    assert_eq!(derive_schematic_aria_label(&[]), "Energy flow: no active sources");
}

#[test]
fn visibility_and_staleness() {
    assert!(!node_visible(None, 100));
    assert!(node_visible(Some(41), 100));
    assert!(!node_visible(Some(40), 100));
    assert!(!node_visible(Some(i64::MIN), i64::MAX));
    assert!(is_stale(None, 0));
    assert!(!is_stale(Some(70), 100));
    assert!(is_stale(Some(69), 100));
}

#[test]
fn api_key_gate() {
    assert_eq!(check_api_key("", Some("Bearer x")), ApiKeyDecision::ServiceUnavailable);
    assert_eq!(check_api_key("s3cret", Some("Bearer s3cret")), ApiKeyDecision::Allow);
    assert_eq!(check_api_key("s3cret", Some("Bearer s3cre")), ApiKeyDecision::Unauthorized);
    assert_eq!(check_api_key("s3cret", Some("bearer s3cret")), ApiKeyDecision::Unauthorized);
    assert_eq!(check_api_key("s3cret", None), ApiKeyDecision::Unauthorized);
}

#[test]
fn base_path_rewrite() {
    assert_eq!(strip_base_path("/evcc", "/evcc/overview", Some("a=1")).as_deref(), Some("/overview?a=1"));
    assert_eq!(strip_base_path("/evcc", "/evcc", None).as_deref(), Some("/"));
    assert_eq!(strip_base_path("/evcc", "/other", None), None);
    assert_eq!(strip_base_path("", "/evcc", None), None);
}

#[test]
fn login_decision() {
    assert_eq!(login_redirect("pw", "pw", "").as_deref(), Some("/"));
    assert_eq!(login_redirect("pw", "pw", "/evcc").as_deref(), Some("/evcc"));
    assert_eq!(login_redirect("pw", "nope", ""), None);
    assert_eq!(login_redirect("", "", ""), None);
}

#[test]
fn chart_resolution_and_sql() {
    assert_eq!(resolve_auto_resolution("raw", 0, 1_000_000), "raw");
    assert_eq!(resolve_auto_resolution("auto", 0, 3600), "raw");
    assert_eq!(resolve_auto_resolution("auto", 0, 3601), "1m");
    assert_eq!(resolve_auto_resolution("auto", 0, 86400), "1m");
    assert_eq!(resolve_auto_resolution("auto", 0, 604800), "5m");
    assert_eq!(resolve_auto_resolution("auto", 0, 604801), "1h");
    assert_eq!(resolve_auto_resolution("auto", i64::MIN, i64::MAX), "1h");
    assert_eq!(resolve_table_and_grouping("raw"), ("energy_samples", 0));
    assert_eq!(resolve_table_and_grouping("1m"), ("energy_samples", 60));
    assert_eq!(resolve_table_and_grouping("weird"), ("energy_samples", 60));
    assert_eq!(
        power_history_sql("5m"),
        "SELECT (timestamp / 300) * 300 as ts,\n                    AVG(grid_power), AVG(pv_power), AVG(home_power), AVG(battery_power)\n             FROM energy_samples_1m\n             WHERE timestamp >= ?1 AND timestamp <= ?2\n             GROUP BY ts ORDER BY ts"
    );
    assert_eq!(
        battery_history_sql("1h"),
        "SELECT timestamp, battery_power, battery_soc\n             FROM energy_samples_1h\n             WHERE timestamp >= ?1 AND timestamp <= ?2\n             ORDER BY timestamp"
    );
    assert_eq!(
        loadpoint_history_sql("raw"),
        "SELECT timestamp, charge_power\n         FROM loadpoint_samples\n         WHERE loadpoint_id = ?1 AND timestamp >= ?2 AND timestamp <= ?3\n         ORDER BY timestamp"
    );
    assert!(loadpoint_history_sql("1m").starts_with("SELECT (timestamp / 60) * 60 as ts, AVG(charge_power)"));
}

#[test]
fn retention_cutoffs_per_tier() {
    let r = RetentionConfig { raw_days: 7, minute_days: 90, hourly_days: 730 };
    let now = 1_700_000_000;
    assert_eq!(retention_cutoffs(now, &r), (now - 7 * 86400, now - 90 * 86400, now - 730 * 86400));
}

fn sample_config(password: &str, base_path: &str) -> evcc_dashboard::config::Config {
    Config {
        server: ServerConfig {
            host: "192.168.1.5".to_string(),
            port: 3000,
            base_path: base_path.to_string(),
            trust_proxy_headers: true,
        },
        mqtt: MqttConfig {
            host: "broker".to_string(),
            port: 1883,
            username: String::new(),
            password: String::new(),
            topic_prefix: "evcc".to_string(),
            client_id: "evcc_dashboard".to_string(),
        },
        database: DatabaseConfig { path: "./data/evcc_dashboard.db".to_string() },
        sampling: SamplingConfig { interval_seconds: 5 },
        retention: RetentionConfig { raw_days: 7, minute_days: 90, hourly_days: 730 },
        logging: LoggingConfig { level: "info".to_string() },
        api: ApiConfig { key: "api-key".to_string() },
        auth: AuthConfig { password: password.to_string() },
    }
}

#[test]
fn settings_page_has_no_code_without_a_key() {
    let page = settings_template(&sample_config("", "/dash"));
    assert!(!page.has_key);
    assert_eq!(page.qr_svg, "");
    assert_eq!(page.base_path, "/dash");
}

#[test]
fn settings_page_draws_the_pairing_code() {
    let page = settings_template(&sample_config("secret-key", ""));
    assert!(page.has_key);
    assert!(page.qr_svg.contains("<svg"));
    assert_eq!(page.qr_svg, pairing_qr("secret-key", "http://192.168.1.5:3000", 256));
    assert_ne!(pairing_qr("secret-key", "http://192.168.1.5:3000", 256), pairing_qr("other-key", "http://192.168.1.5:3000", 256));
    assert_ne!(pairing_qr("secret-key", "http://192.168.1.5:3000", 256), pairing_qr("secret-key", "https://dash.example", 256));
    assert_ne!(pairing_qr("secret-key", "http://192.168.1.5:3000", 256), pairing_qr("secret-key", "http://192.168.1.5:3000", 512));
    assert_eq!(pairing_qr("", "http://x", 200), "");
}

#[test]
fn qr_markup_falls_back_to_a_notice() {
    assert_eq!(qr_markup(None), "<p>Failed to generate QR code</p>");
    assert_eq!(qr_markup(Some("<svg/>".to_string())), "<svg/>");
    let huge_key = "k".repeat(8000);
    assert_eq!(pairing_qr(&huge_key, "http://x", 200), "<p>Failed to generate QR code</p>");
}
