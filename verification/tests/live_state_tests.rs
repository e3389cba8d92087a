//! Live state: applying messages, taking samples and the receive loop.

use evcc_dashboard::model::CurrentState;
use evcc_dashboard::mqtt::parser::{apply_message, apply_message_at};
use evcc_dashboard::mqtt::subscriber::{
    handle_event, take_sample, LoopAction, LoopEvent, RECONNECT_DELAY_SECS,
};

fn read(s: &str) -> Option<f64> {
    s.parse().ok()
}

#[test]
fn site_reading_is_stored_and_stamped() {
    let mut state: CurrentState<f64> = CurrentState::new();
    apply_message_at(&mut state, "evcc", "evcc/site/pvPower", b" 1500.5 ", read, 1_700_000_000);
    assert_eq!(state.site.pv_power, Some(1500.5));
    assert_eq!(state.last_updated, Some(1_700_000_000));
    apply_message_at(&mut state, "evcc", "evcc/site/grid/currents/2", b"7.5", read, 1_700_000_001);
    assert_eq!(state.site.grid_currents, [None, Some(7.5), None]);
    assert_eq!(state.site.pv_power, Some(1500.5));
    apply_message_at(&mut state, "evcc", "evcc/site/pvPower", b"n/a", read, 1_700_000_002);
    assert_eq!(state.site.pv_power, None);
    assert_eq!(state.last_updated, Some(1_700_000_002));
}

#[test]
fn foreign_topics_and_bad_payloads_change_nothing() {
    let mut state: CurrentState<f64> = CurrentState::new();
    apply_message_at(&mut state, "evcc", "other/site/pvPower", b"10", read, 5);
    apply_message_at(&mut state, "evcc", "evcc/site/pvPower", &[0xff], read, 6);
    assert_eq!(state.site.pv_power, None);
    assert_eq!(state.last_updated, None);
    apply_message_at(&mut state, "evcc", "evcc/site/unknown", b"1", read, 7);
    assert_eq!(state.last_updated, Some(7));
}

#[test]
fn loadpoint_messages_create_and_update_loadpoints() {
    let mut state: CurrentState<f64> = CurrentState::new();
    apply_message_at(&mut state, "evcc", "evcc/loadpoints/2/chargePower", b"11000", read, 10);
    apply_message_at(&mut state, "evcc", "evcc/loadpoints/2/charging", b"true", read, 11);
    apply_message_at(&mut state, "evcc", "evcc/loadpoints/2/vehicleTitle", b" Zoe ", read, 12);
    apply_message_at(&mut state, "evcc", "evcc/loadpoints/1/somethingNew", b"x", read, 13);
    assert_eq!(state.loadpoints.len(), 2);
    let lp = &state.loadpoints[&2];
    assert_eq!(lp.id, 2);
    assert_eq!(lp.charge_power, Some(11000.0));
    assert_eq!(lp.charging, Some(true));
    assert_eq!(lp.vehicle_name.as_deref(), Some("Zoe"));
    let other = &state.loadpoints[&1];
    assert_eq!(other.id, 1);
    assert_eq!(other.charge_power, None);
    apply_message_at(&mut state, "evcc", "evcc/loadpoints/x/chargePower", b"1", read, 14);
    assert_eq!(state.loadpoints.len(), 2);
    assert_eq!(state.last_updated, Some(14));
}

#[test]
fn apply_message_uses_the_clock() {
    let mut state: CurrentState<f64> = CurrentState::new();
    apply_message(&mut state, "evcc", "evcc/site/homePower", b"420", read);
    assert_eq!(state.site.home_power, Some(420.0));
    assert!(state.last_updated.unwrap() > 1_600_000_000);
}

#[test]
fn no_sample_before_the_first_message() {
    let state: CurrentState<f64> = CurrentState::new();
    assert!(take_sample(&state, 100).is_none());
}

#[test]
fn sample_holds_site_and_every_loadpoint() {
    let mut state: CurrentState<f64> = CurrentState::new();
    apply_message_at(&mut state, "evcc", "evcc/site/gridPower", b"-300", read, 1);
    apply_message_at(&mut state, "evcc", "evcc/site/batterySoc", b"55", read, 1);
    apply_message_at(&mut state, "evcc", "evcc/loadpoints/1/chargePower", b"3700", read, 2);
    apply_message_at(&mut state, "evcc", "evcc/loadpoints/2/chargedEnergy", b"1200", read, 3);
    let batch = take_sample(&state, 60).unwrap();
    assert_eq!(batch.energy.timestamp, 60);
    assert_eq!(batch.energy.grid_power, Some(-300.0));
    assert_eq!(batch.energy.battery_soc, Some(55.0));
    assert_eq!(batch.energy.pv_power, None);
    let mut ids: Vec<u32> = batch.loadpoints.iter().map(|s| s.loadpoint_id).collect();
    ids.sort();
    assert_eq!(ids, vec![1, 2]);
    for s in &batch.loadpoints {
        assert_eq!(s.timestamp, 60);
        if s.loadpoint_id == 1 {
            assert_eq!(s.charge_power, Some(3700.0));
            assert_eq!(s.charged_energy, None);
        } else {
            assert_eq!(s.charge_power, None);
            assert_eq!(s.charged_energy, Some(1200.0));
        }
    }
}

#[test]
fn receive_loop_steps() {
    let mut state: CurrentState<f64> = CurrentState::new();
    match handle_event(&mut state, "evcc", LoopEvent::Connected, read, 1) {
        LoopAction::Subscribe(t) => assert_eq!(t, "evcc/#"),
        _ => panic!("expected a subscription"),
    }
    match handle_event(&mut state, "evcc", LoopEvent::ConnectionError, read, 2) {
        LoopAction::Reconnect { delay_secs } => assert_eq!(delay_secs, RECONNECT_DELAY_SECS),
        _ => panic!("expected a reconnect"),
    }
    assert_eq!(RECONNECT_DELAY_SECS, 5);
    assert!(matches!(handle_event(&mut state, "evcc", LoopEvent::SampleTick, read, 3), LoopAction::Continue));
    assert!(matches!(handle_event(&mut state, "evcc", LoopEvent::Other, read, 4), LoopAction::Continue));
    let msg = LoopEvent::Message { topic: "evcc/site/pvPower".to_string(), payload: b"900".to_vec() };
    assert!(matches!(handle_event(&mut state, "evcc", msg, read, 5), LoopAction::Continue));
    assert_eq!(state.site.pv_power, Some(900.0));
    assert_eq!(state.last_updated, Some(5));
    match handle_event(&mut state, "evcc", LoopEvent::SampleTick, read, 6) {
        LoopAction::Record(b) => {
            assert_eq!(b.energy.timestamp, 6);
            assert_eq!(b.energy.pv_power, Some(900.0));
            assert!(b.loadpoints.is_empty());
        },
        _ => panic!("expected a record"),
    }
}

#[test]
fn loadpoints_are_listed_by_ascending_id() {
    let mut state: CurrentState<f64> = CurrentState::new();
    assert!(state.sorted_loadpoint_ids().is_empty());
    for id in [7u32, 2, 30, 2, 11] {
        let topic = format!("evcc/loadpoints/{id}/mode");
        apply_message_at(&mut state, "evcc", &topic, b"pv", read, 1);
    }
    assert_eq!(state.sorted_loadpoint_ids(), vec![2, 7, 11, 30]);
}

#[test]
fn a_repeated_message_changes_nothing_more() {
    let mut once: CurrentState<f64> = CurrentState::new();
    apply_message_at(&mut once, "evcc", "evcc/loadpoints/1/title", b"Garage", read, 9);
    apply_message_at(&mut once, "evcc", "evcc/site/batterySoc", b"40", read, 10);
    let mut twice: CurrentState<f64> = CurrentState::new();
    apply_message_at(&mut twice, "evcc", "evcc/loadpoints/1/title", b"Garage", read, 9);
    apply_message_at(&mut twice, "evcc", "evcc/loadpoints/1/title", b"Garage", read, 9);
    apply_message_at(&mut twice, "evcc", "evcc/site/batterySoc", b"40", read, 10);
    apply_message_at(&mut twice, "evcc", "evcc/site/batterySoc", b"40", read, 10);
    assert_eq!(once.site.battery_soc, twice.site.battery_soc);
    assert_eq!(once.last_updated, twice.last_updated);
    assert_eq!(once.loadpoints.len(), twice.loadpoints.len());
    assert_eq!(once.loadpoints[&1].title, twice.loadpoints[&1].title);
    assert_eq!(twice.loadpoints[&1].title.as_deref(), Some("Garage"));
}

#[test]
fn both_topic_forms_set_the_same_reading() {
    for (a, b) in [
        ("evcc/site/gridPower", "evcc/site/grid/power"),
        ("evcc/site/grid/Power", "evcc/site/grid/power"),
        ("evcc/site/batteryPower", "evcc/site/battery/power"),
        ("evcc/site/batterySoc", "evcc/site/battery/soc"),
    ] {
        let mut s1: CurrentState<f64> = CurrentState::new();
        let mut s2: CurrentState<f64> = CurrentState::new();
        apply_message_at(&mut s1, "evcc", a, b" 42 ", read, 1);
        apply_message_at(&mut s2, "evcc", b, b" 42 ", read, 1);
        assert_eq!(s1.site.grid_power, s2.site.grid_power);
        assert_eq!(s1.site.battery_power, s2.site.battery_power);
        assert_eq!(s1.site.battery_soc, s2.site.battery_soc);
        assert!(s1.site.grid_power == Some(42.0) || s1.site.battery_power == Some(42.0) || s1.site.battery_soc == Some(42.0));
    }
}
