//! MQTT message interpretation tests.

use evcc_dashboard::mqtt::parser::{
    interpret_message, parse_message, LoadpointFlag, LoadpointMetric, LoadpointText,
    LoadpointUpdate, MessageEffect, SiteMetric,
};
use evcc_dashboard::mqtt::subscription_topic;

#[test]
fn messages_outside_the_prefix_are_ignored() {
    assert!(parse_message("evcc", "evcc/site/pvPower", b"1"));
    assert!(!parse_message("evcc", "other/site/pvPower", b"1"));
    assert_eq!(interpret_message("evcc", "other/site/pvPower", b"12"), MessageEffect::Ignored);
    assert_eq!(interpret_message("evcc", "evcc/site/pvPower", &[0xff, 0xfe]), MessageEffect::Ignored);
}

#[test]
fn site_topics_in_both_forms() {
    assert_eq!(
        interpret_message("evcc", "evcc/site/grid/power", b" 1234.5 \n"),
        MessageEffect::Site(SiteMetric::GridPower, "1234.5".to_string())
    );
    assert_eq!(
        interpret_message("evcc", "evcc/site/gridPower", b"-20"),
        MessageEffect::Site(SiteMetric::GridPower, "-20".to_string())
    );
    assert_eq!(
        interpret_message("evcc", "evcc//site/batterySoc", b"80"),
        MessageEffect::Site(SiteMetric::BatterySoc, "80".to_string())
    );
    assert_eq!(
        interpret_message("evcc", "evcc/site/grid/currents/3", b"6.1"),
        MessageEffect::Site(SiteMetric::GridCurrentL3, "6.1".to_string())
    );
    assert_eq!(
        interpret_message("evcc", "evcc/site/statistics/30d/solarPercentage", b"71"),
        MessageEffect::Site(SiteMetric::SelfSufficiencyPct, "71".to_string())
    );
    assert_eq!(
        interpret_message("evcc", "evcc/site/unknownThing", b"1"),
        MessageEffect::Touched
    );
    assert_eq!(interpret_message("evcc", "evcc/status", b"1"), MessageEffect::Touched);
}

#[test]
fn loadpoint_topics() {
    assert_eq!(
        interpret_message("evcc", "evcc/loadpoints/1/chargePower", b"3700"),
        MessageEffect::Loadpoint(1, LoadpointUpdate::Number(LoadpointMetric::ChargePower, "3700".to_string()))
    );
    assert_eq!(
        interpret_message("evcc", "evcc/loadpoints/2/charging", b"true"),
        MessageEffect::Loadpoint(2, LoadpointUpdate::Flag(LoadpointFlag::Charging, Some(true)))
    );
    assert_eq!(
        interpret_message("evcc", "evcc/loadpoints/2/connected", b"yes"),
        MessageEffect::Loadpoint(2, LoadpointUpdate::Flag(LoadpointFlag::Connected, None))
    );
    assert_eq!(
        interpret_message("evcc", "evcc/loadpoints/7/vehicleTitle", b" My Car "),
        MessageEffect::Loadpoint(7, LoadpointUpdate::Text(LoadpointText::VehicleName, "My Car".to_string()))
    );
    assert_eq!(
        interpret_message("evcc", "evcc/loadpoints/+7/mode", b"pv"),
        MessageEffect::Loadpoint(7, LoadpointUpdate::Text(LoadpointText::Mode, "pv".to_string()))
    );
    assert_eq!(
        interpret_message("evcc", "evcc/loadpoints/1/somethingElse", b"x"),
        MessageEffect::Loadpoint(1, LoadpointUpdate::Unhandled)
    );
    assert_eq!(interpret_message("evcc", "evcc/loadpoints/1", b"x"), MessageEffect::Touched);
    assert_eq!(interpret_message("evcc", "evcc/loadpoints/abc/mode", b"x"), MessageEffect::Touched);
    assert_eq!(interpret_message("evcc", "evcc/loadpoints/4294967296/mode", b"x"), MessageEffect::Touched);
    assert_eq!(interpret_message("evcc", "evcc/loadpoints//mode", b"x"), MessageEffect::Touched);
}

#[test]
fn subscription_covers_the_prefix() {
    assert_eq!(subscription_topic("evcc"), "evcc/#");
}
