//! Overview and charging view tests.

use evcc_dashboard::model::LoadpointState;

use evcc_dashboard::web::routes::views::{
    build_settings_url, history_chart_url, root_redirect_location, summary_card_layout, CardValue,
    DeltaDirection, HistoryRange, LoadpointCardState,
};
use evcc_dashboard::db::compare::{find_delta, DeltaValue};
use evcc_dashboard::web::routes::views::{summary_card_deltas, LoadpointCard};

fn loadpoint(connected: Option<bool>, charging: Option<bool>) -> LoadpointState<f64> {
    let mut lp = LoadpointState::new(1);
    lp.connected = connected;
    lp.charging = charging;
    lp
}

#[test]
fn views_tests_test_self_sufficiency_normal() {
    let home = 3000.0_f64;
    let grid_import = 1000.0_f64.max(0.0);
    let pct = ((home - grid_import) / home * 100.0).clamp(0.0, 100.0);
    assert_eq!(pct as u8, 66);
}

#[test]
fn test_self_sufficiency_zero_home() {
    let home = 0.0_f64;
    let result = if home > 10.0 {
        let grid_import = 0.0_f64.max(0.0);
        Some(((home - grid_import) / home * 100.0).clamp(0.0, 100.0) as u8)
    } else {
        None
    };
    assert_eq!(result, None);
}

#[test]
fn test_self_sufficiency_full() {
    let home = 5000.0_f64;
    let grid_power = -500.0_f64;
    let grid_import = grid_power.max(0.0);
    let pct = ((home - grid_import) / home * 100.0).clamp(0.0, 100.0);
    assert_eq!(pct as u8, 100);
}

#[test]
fn test_self_sufficiency_over_import() {
    let home = 1000.0_f64;
    let grid_import = 2000.0_f64;
    let pct = ((home - grid_import) / home * 100.0).clamp(0.0, 100.0);
    assert_eq!(pct as u8, 0);
}

#[test]
fn test_delta_positive() {
    let today = 5000.0_f64;
    let yesterday = 3000.0_f64;
    let delta = ((today - yesterday) / yesterday * 100.0).clamp(-100.0, 100.0);
    assert!((delta - 66.67).abs() < 0.1);
}

#[test]
fn test_delta_zero_yesterday() {
    let today = 5000.0_f64;
    let yesterday = 0.0_f64;
    let delta = if yesterday == 0.0 {
        if today > 0.0 { 100.0 } else { 0.0 }
    } else {
        ((today - yesterday) / yesterday * 100.0).clamp(-100.0, 100.0)
    };
    assert_eq!(delta, 100.0);
}

#[test]
fn test_delta_decrease() {
    let today = 2000.0_f64;
    let yesterday = 5000.0_f64;
    let delta = ((today - yesterday) / yesterday * 100.0).clamp(-100.0, 100.0);
    assert_eq!(delta, -60.0);
}

#[test]
fn test_loadpoint_state_active() {
    let connected = true;
    let charging = true;
    let state = if connected && charging {
        "Active"
    } else if connected {
        "Idle"
    } else {
        "Disconnected"
    };
    assert_eq!(state, "Active");
    assert_eq!(
        LoadpointCardState::from_loadpoint(&loadpoint(Some(connected), Some(charging))),
        LoadpointCardState::Active
    );
}

#[test]
fn test_loadpoint_state_idle() {
    let connected = true;
    let charging = false;
    let state = if connected && charging {
        "Active"
    } else if connected {
        "Idle"
    } else {
        "Disconnected"
    };
    assert_eq!(state, "Idle");
    assert_eq!(
        LoadpointCardState::from_loadpoint(&loadpoint(Some(connected), Some(charging))),
        LoadpointCardState::Idle
    );
}

#[test]
fn test_loadpoint_state_disconnected() {
    let connected = false;
    let charging = false;
    let state = if connected && charging {
        "Active"
    } else if connected {
        "Idle"
    } else {
        "Disconnected"
    };
    assert_eq!(state, "Disconnected");
    assert_eq!(
        LoadpointCardState::from_loadpoint(&loadpoint(Some(connected), Some(charging))),
        LoadpointCardState::Disconnected
    );
}

#[test]
fn test_power_format_watts() {
    let w = 750.0_f64;
    let display = if w >= 1000.0 {
        format!("{:.1} kW", w / 1000.0)
    } else {
        format!("{:.0} W", w)
    };
    assert_eq!(display, "750 W");
}

#[test]
fn test_power_format_kilowatts() {
    let w = 3200.0_f64;
    let display = if w >= 1000.0 {
        format!("{:.1} kW", w / 1000.0)
    } else {
        format!("{:.0} W", w)
    };
    assert_eq!(display, "3.2 kW");
}

#[test]
fn loadpoint_card_state_missing_readings_count_as_false() {
    assert_eq!(LoadpointCardState::from_loadpoint(&loadpoint(None, Some(true))), LoadpointCardState::Disconnected);
    assert_eq!(LoadpointCardState::from_loadpoint(&loadpoint(Some(true), None)), LoadpointCardState::Idle);
    assert_eq!(LoadpointCardState::Active.css_class(), "lp-active");
    assert_eq!(LoadpointCardState::Idle.status_text(), "Connected — waiting");
    assert_eq!(LoadpointCardState::Disconnected.status_text(), "No vehicle");
}

#[test]
fn loadpoint_title_and_mode_fall_back() {
    let mut lp: LoadpointState<f64> = LoadpointState::new(3);
    assert_eq!(lp.title_display(), "Loadpoint 3");
    assert_eq!(LoadpointState::<f64>::new(4294967295).title_display(), "Loadpoint 4294967295");
    assert_eq!(lp.mode_display(), "--");
    assert_eq!(lp.vehicle_name_display(), "");
    assert!(!lp.has_vehicle());
    assert!(!lp.is_connected());
    lp.title = Some("Garage".to_string());
    lp.mode = Some("pv".to_string());
    lp.vehicle_name = Some("Zoe".to_string());
    lp.connected = Some(true);
    assert_eq!(lp.title_display(), "Garage");
    assert_eq!(lp.mode_display(), "pv");
    assert_eq!(lp.vehicle_name_display(), "Zoe");
    assert!(lp.has_vehicle());
    assert!(lp.is_connected());
}

#[test]
fn delta_direction_classes() {
    assert_eq!(DeltaDirection::Up.css_class(), "delta-up");
    assert_eq!(DeltaDirection::Down.css_class(), "delta-down");
    assert_eq!(DeltaDirection::Neutral.css_class(), "delta-neutral");
    assert_eq!(DeltaDirection::Neutral.arrow_svg(), "");
    assert!(DeltaDirection::Up.arrow_svg().contains("M6 2l4 5H2z"));
}

#[test]
fn history_ranges_and_chart_url() {
    let labels: Vec<&str> = HistoryRange::all().iter().map(|r| r.label()).collect();
    assert_eq!(labels, vec!["24h", "7d", "30d", "90d"]);
    let defaults: Vec<&HistoryRange> = HistoryRange::all().iter().filter(|r| r.is_default()).collect();
    assert_eq!(defaults, vec![&HistoryRange::Week]);
    assert_eq!(HistoryRange::Quarter.seconds(), 7_776_000);
    assert_eq!(HistoryRange::Month.resolution(), "1h");
    assert_eq!(
        history_chart_url("/base", 1_700_000_000, HistoryRange::Week),
        "/base/api/chart/energy?from=1699395200&to=1700000000&resolution=1h"
    );
    assert_eq!(
        history_chart_url("", 100, HistoryRange::Day),
        "/api/chart/energy?from=-86300&to=100&resolution=5m"
    );
}

#[test]
fn settings_url_prefers_proxy_headers() {
    assert_eq!(
        build_settings_url(Some("https"), Some("dash.example"), Some("ignored"), "/evcc", "0.0.0.0", 3000),
        "https://dash.example/evcc"
    );
    assert_eq!(build_settings_url(None, None, Some("host:8080"), "", "0.0.0.0", 3000), "https://host:8080");
    assert_eq!(build_settings_url(Some("http"), None, None, "/b", "10.0.0.2", 3000), "http://10.0.0.2:3000/b");
    assert_eq!(build_settings_url(None, None, None, "", "0.0.0.0", 80), "http://0.0.0.0:80");
    assert_eq!(root_redirect_location("/evcc"), "/evcc/overview");
}

#[test]
fn summary_cards_follow_site_equipment() {
    let ids = |b, e| -> Vec<&'static str> { summary_card_layout(b, e).iter().map(|c| c.id).collect() };
    assert_eq!(ids(false, false), vec!["solar", "consumption", "grid"]);
    assert_eq!(ids(true, false), vec!["solar", "consumption", "grid", "battery"]);
    assert_eq!(ids(true, true), vec!["solar", "consumption", "grid", "battery", "ev-charging"]);
    assert_eq!(ids(false, true), vec!["solar", "consumption", "grid", "ev-charging"]);
    let cards = summary_card_layout(true, true);
    assert_eq!(cards[3].value, CardValue::BatteryDischarge);
    assert_eq!(cards[3].delta_metric, None);
    assert_eq!(cards[4].delta_metric, Some("ev_charging"));
    assert_eq!(cards[2].label, "Grid Import");
    assert_eq!(cards[2].delta_metric, Some("grid_import"));
}

#[test]
fn loadpoint_card_from_state() {
    let mut lp = loadpoint(Some(true), Some(true));
    lp.vehicle_name = Some("Zoe".to_string());
    let card = LoadpointCard::from_loadpoint(&lp, "3.7 kW".to_string(), "1.2 kWh".to_string(), Some("80%".to_string()));
    assert_eq!(card.id, 1);
    assert_eq!(card.title, "Loadpoint 1");
    assert_eq!(card.mode, "--");
    assert_eq!(card.power_display, "3.7 kW");
    assert_eq!(card.session_energy_display, "1.2 kWh");
    assert_eq!(card.vehicle_soc.as_deref(), Some("80%"));
    assert_eq!(card.vehicle_name.as_deref(), Some("Zoe"));
    assert_eq!(card.state, LoadpointCardState::Active);
}

#[test]
fn summary_card_deltas_take_the_first_entry_of_each_metric() {
    let deltas = vec![
        DeltaValue { metric: "grid_import".to_string(), delta_pct: -12.5_f64 },
        DeltaValue { metric: "solar".to_string(), delta_pct: 30.0 },
        DeltaValue { metric: "solar".to_string(), delta_pct: 99.0 },
        DeltaValue { metric: "ev_charging".to_string(), delta_pct: 4.0 },
    ];
    assert_eq!(find_delta(&deltas, "solar"), Some(30.0));
    assert_eq!(find_delta(&deltas, "grid_export"), None);
    let cards = summary_card_layout(true, true);
    let d = summary_card_deltas(&cards, &deltas);
    assert_eq!(d, vec![Some(30.0), None, Some(-12.5), None, Some(4.0)]);
    let cards = summary_card_layout(false, false);
    assert_eq!(summary_card_deltas(&cards, &deltas), vec![Some(30.0), None, Some(-12.5)]);
}
