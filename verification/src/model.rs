//! The live model of the site and its loadpoints, as far as evcc has
//! reported it.
//!
//! Readings are held in a number type `N` chosen by the user of the
//! library; the model itself only decides which reading goes where.

use std::collections::HashMap;

use vstd::prelude::*;
use vstd::std_specs::iter::IteratorSpec;

use crate::mqtt::parser::{
    LoadpointFlag, LoadpointMetric, LoadpointText, LoadpointUpdate, LoadpointUpdateView,
    MessageEffect, MessageEffectView, SiteMetric,
};
use crate::text::{decimal_text, push_decimal};

verus! {

/// Readings of the site as a whole.
pub struct SiteState<N> {
    pub grid_power: Option<N>,
    pub grid_energy: Option<N>,
    pub grid_currents: [Option<N>; 3],
    pub pv_power: Option<N>,
    pub pv_energy: Option<N>,
    pub home_power: Option<N>,
    pub battery_power: Option<N>,
    pub battery_soc: Option<N>,
    pub battery_energy: Option<N>,
    pub battery_capacity: Option<N>,
    pub green_share_home: Option<N>,
    pub self_sufficiency_pct: Option<N>,
}

/// Readings of one loadpoint (a charger).
pub struct LoadpointState<N> {
    pub id: u32,
    pub title: Option<String>,
    pub charge_power: Option<N>,
    pub charged_energy: Option<N>,
    pub charge_total_import: Option<N>,
    pub charging: Option<bool>,
    pub connected: Option<bool>,
    pub enabled: Option<bool>,
    pub vehicle_name: Option<String>,
    pub vehicle_soc: Option<N>,
    pub vehicle_range: Option<N>,
    pub mode: Option<String>,
}

/// Everything known of the installation: the site, the loadpoints by id,
/// and the time (Unix seconds) of the last message that changed anything.
pub struct CurrentState<N> {
    pub site: SiteState<N>,
    pub loadpoints: HashMap<u32, LoadpointState<N>>,
    pub last_updated: Option<i64>,
}

/// A site without any reading.
pub open spec fn empty_site<N>(s: SiteState<N>) -> bool {
    &&& s.grid_power is None
    &&& s.grid_energy is None
    &&& s.grid_currents@ == seq![None::<N>, None, None]
    &&& s.pv_power is None
    &&& s.pv_energy is None
    &&& s.home_power is None
    &&& s.battery_power is None
    &&& s.battery_soc is None
    &&& s.battery_energy is None
    &&& s.battery_capacity is None
    &&& s.green_share_home is None
    &&& s.self_sufficiency_pct is None
}

/// A loadpoint with this id and without any reading.
pub open spec fn fresh_loadpoint<N>(id: u32) -> LoadpointState<N> {
    LoadpointState {
        id,
        title: None,
        charge_power: None,
        charged_energy: None,
        charge_total_import: None,
        charging: None,
        connected: None,
        enabled: None,
        vehicle_name: None,
        vehicle_soc: None,
        vehicle_range: None,
        mode: None,
    }
}


/// `v` where `metric` is `target`, else `old`: one field of a reading update.
pub open spec fn site_field<N>(metric: SiteMetric, target: SiteMetric, old: Option<N>, v: Option<N>) -> Option<N> {
    if metric == target {
        v
    } else {
        old
    }
}

/// `new` is `old` with the site reading `metric` set to `v` and every other
/// reading unchanged.
pub open spec fn site_set<N>(old: SiteState<N>, new: SiteState<N>, metric: SiteMetric, v: Option<N>) -> bool {
    &&& new.grid_power == site_field(metric, SiteMetric::GridPower, old.grid_power, v)
    &&& new.grid_energy == site_field(metric, SiteMetric::GridEnergy, old.grid_energy, v)
    &&& new.grid_currents@ == seq![
        site_field(metric, SiteMetric::GridCurrentL1, old.grid_currents@[0], v),
        site_field(metric, SiteMetric::GridCurrentL2, old.grid_currents@[1], v),
        site_field(metric, SiteMetric::GridCurrentL3, old.grid_currents@[2], v),
    ]
    &&& new.pv_power == site_field(metric, SiteMetric::PvPower, old.pv_power, v)
    &&& new.pv_energy == site_field(metric, SiteMetric::PvEnergy, old.pv_energy, v)
    &&& new.home_power == site_field(metric, SiteMetric::HomePower, old.home_power, v)
    &&& new.battery_power == site_field(metric, SiteMetric::BatteryPower, old.battery_power, v)
    &&& new.battery_soc == site_field(metric, SiteMetric::BatterySoc, old.battery_soc, v)
    &&& new.battery_energy == site_field(metric, SiteMetric::BatteryEnergy, old.battery_energy, v)
    &&& new.battery_capacity == site_field(metric, SiteMetric::BatteryCapacity, old.battery_capacity, v)
    &&& new.green_share_home == site_field(metric, SiteMetric::GreenShareHome, old.green_share_home, v)
    &&& new.self_sufficiency_pct == site_field(
        metric,
        SiteMetric::SelfSufficiencyPct,
        old.self_sufficiency_pct,
        v,
    )
}

/// Each site reading is stored in its own field: storing the grid energy
/// sets `grid_energy` and leaves `grid_power` and every other reading as it
/// was; the three phase currents go to the three places of
/// `grid_currents` in order; and so on for every reading.
pub proof fn lemma_site_reading_fields<N>(old: SiteState<N>, new: SiteState<N>, v: Option<N>)
    ensures
        site_set(old, new, SiteMetric::GridPower, v) ==> new.grid_power == v && new.grid_energy == old.grid_energy && new.grid_currents@[0] == old.grid_currents@[0] && new.grid_currents@[1] == old.grid_currents@[1] && new.grid_currents@[2] == old.grid_currents@[2] && new.battery_power == old.battery_power && new.battery_soc == old.battery_soc && new.battery_energy == old.battery_energy && new.battery_capacity == old.battery_capacity && new.pv_power == old.pv_power && new.pv_energy == old.pv_energy && new.home_power == old.home_power && new.green_share_home == old.green_share_home && new.self_sufficiency_pct == old.self_sufficiency_pct,
        site_set(old, new, SiteMetric::GridEnergy, v) ==> new.grid_energy == v && new.grid_power == old.grid_power && new.grid_currents@[0] == old.grid_currents@[0] && new.grid_currents@[1] == old.grid_currents@[1] && new.grid_currents@[2] == old.grid_currents@[2] && new.battery_power == old.battery_power && new.battery_soc == old.battery_soc && new.battery_energy == old.battery_energy && new.battery_capacity == old.battery_capacity && new.pv_power == old.pv_power && new.pv_energy == old.pv_energy && new.home_power == old.home_power && new.green_share_home == old.green_share_home && new.self_sufficiency_pct == old.self_sufficiency_pct,
        site_set(old, new, SiteMetric::GridCurrentL1, v) ==> new.grid_currents@[0] == v && new.grid_power == old.grid_power && new.grid_energy == old.grid_energy && new.grid_currents@[1] == old.grid_currents@[1] && new.grid_currents@[2] == old.grid_currents@[2] && new.battery_power == old.battery_power && new.battery_soc == old.battery_soc && new.battery_energy == old.battery_energy && new.battery_capacity == old.battery_capacity && new.pv_power == old.pv_power && new.pv_energy == old.pv_energy && new.home_power == old.home_power && new.green_share_home == old.green_share_home && new.self_sufficiency_pct == old.self_sufficiency_pct,
        site_set(old, new, SiteMetric::GridCurrentL2, v) ==> new.grid_currents@[1] == v && new.grid_power == old.grid_power && new.grid_energy == old.grid_energy && new.grid_currents@[0] == old.grid_currents@[0] && new.grid_currents@[2] == old.grid_currents@[2] && new.battery_power == old.battery_power && new.battery_soc == old.battery_soc && new.battery_energy == old.battery_energy && new.battery_capacity == old.battery_capacity && new.pv_power == old.pv_power && new.pv_energy == old.pv_energy && new.home_power == old.home_power && new.green_share_home == old.green_share_home && new.self_sufficiency_pct == old.self_sufficiency_pct,
        site_set(old, new, SiteMetric::GridCurrentL3, v) ==> new.grid_currents@[2] == v && new.grid_power == old.grid_power && new.grid_energy == old.grid_energy && new.grid_currents@[0] == old.grid_currents@[0] && new.grid_currents@[1] == old.grid_currents@[1] && new.battery_power == old.battery_power && new.battery_soc == old.battery_soc && new.battery_energy == old.battery_energy && new.battery_capacity == old.battery_capacity && new.pv_power == old.pv_power && new.pv_energy == old.pv_energy && new.home_power == old.home_power && new.green_share_home == old.green_share_home && new.self_sufficiency_pct == old.self_sufficiency_pct,
        site_set(old, new, SiteMetric::BatteryPower, v) ==> new.battery_power == v && new.grid_power == old.grid_power && new.grid_energy == old.grid_energy && new.grid_currents@[0] == old.grid_currents@[0] && new.grid_currents@[1] == old.grid_currents@[1] && new.grid_currents@[2] == old.grid_currents@[2] && new.battery_soc == old.battery_soc && new.battery_energy == old.battery_energy && new.battery_capacity == old.battery_capacity && new.pv_power == old.pv_power && new.pv_energy == old.pv_energy && new.home_power == old.home_power && new.green_share_home == old.green_share_home && new.self_sufficiency_pct == old.self_sufficiency_pct,
        site_set(old, new, SiteMetric::BatterySoc, v) ==> new.battery_soc == v && new.grid_power == old.grid_power && new.grid_energy == old.grid_energy && new.grid_currents@[0] == old.grid_currents@[0] && new.grid_currents@[1] == old.grid_currents@[1] && new.grid_currents@[2] == old.grid_currents@[2] && new.battery_power == old.battery_power && new.battery_energy == old.battery_energy && new.battery_capacity == old.battery_capacity && new.pv_power == old.pv_power && new.pv_energy == old.pv_energy && new.home_power == old.home_power && new.green_share_home == old.green_share_home && new.self_sufficiency_pct == old.self_sufficiency_pct,
        site_set(old, new, SiteMetric::BatteryEnergy, v) ==> new.battery_energy == v && new.grid_power == old.grid_power && new.grid_energy == old.grid_energy && new.grid_currents@[0] == old.grid_currents@[0] && new.grid_currents@[1] == old.grid_currents@[1] && new.grid_currents@[2] == old.grid_currents@[2] && new.battery_power == old.battery_power && new.battery_soc == old.battery_soc && new.battery_capacity == old.battery_capacity && new.pv_power == old.pv_power && new.pv_energy == old.pv_energy && new.home_power == old.home_power && new.green_share_home == old.green_share_home && new.self_sufficiency_pct == old.self_sufficiency_pct,
        site_set(old, new, SiteMetric::BatteryCapacity, v) ==> new.battery_capacity == v && new.grid_power == old.grid_power && new.grid_energy == old.grid_energy && new.grid_currents@[0] == old.grid_currents@[0] && new.grid_currents@[1] == old.grid_currents@[1] && new.grid_currents@[2] == old.grid_currents@[2] && new.battery_power == old.battery_power && new.battery_soc == old.battery_soc && new.battery_energy == old.battery_energy && new.pv_power == old.pv_power && new.pv_energy == old.pv_energy && new.home_power == old.home_power && new.green_share_home == old.green_share_home && new.self_sufficiency_pct == old.self_sufficiency_pct,
        site_set(old, new, SiteMetric::PvPower, v) ==> new.pv_power == v && new.grid_power == old.grid_power && new.grid_energy == old.grid_energy && new.grid_currents@[0] == old.grid_currents@[0] && new.grid_currents@[1] == old.grid_currents@[1] && new.grid_currents@[2] == old.grid_currents@[2] && new.battery_power == old.battery_power && new.battery_soc == old.battery_soc && new.battery_energy == old.battery_energy && new.battery_capacity == old.battery_capacity && new.pv_energy == old.pv_energy && new.home_power == old.home_power && new.green_share_home == old.green_share_home && new.self_sufficiency_pct == old.self_sufficiency_pct,
        site_set(old, new, SiteMetric::PvEnergy, v) ==> new.pv_energy == v && new.grid_power == old.grid_power && new.grid_energy == old.grid_energy && new.grid_currents@[0] == old.grid_currents@[0] && new.grid_currents@[1] == old.grid_currents@[1] && new.grid_currents@[2] == old.grid_currents@[2] && new.battery_power == old.battery_power && new.battery_soc == old.battery_soc && new.battery_energy == old.battery_energy && new.battery_capacity == old.battery_capacity && new.pv_power == old.pv_power && new.home_power == old.home_power && new.green_share_home == old.green_share_home && new.self_sufficiency_pct == old.self_sufficiency_pct,
        site_set(old, new, SiteMetric::HomePower, v) ==> new.home_power == v && new.grid_power == old.grid_power && new.grid_energy == old.grid_energy && new.grid_currents@[0] == old.grid_currents@[0] && new.grid_currents@[1] == old.grid_currents@[1] && new.grid_currents@[2] == old.grid_currents@[2] && new.battery_power == old.battery_power && new.battery_soc == old.battery_soc && new.battery_energy == old.battery_energy && new.battery_capacity == old.battery_capacity && new.pv_power == old.pv_power && new.pv_energy == old.pv_energy && new.green_share_home == old.green_share_home && new.self_sufficiency_pct == old.self_sufficiency_pct,
        site_set(old, new, SiteMetric::GreenShareHome, v) ==> new.green_share_home == v && new.grid_power == old.grid_power && new.grid_energy == old.grid_energy && new.grid_currents@[0] == old.grid_currents@[0] && new.grid_currents@[1] == old.grid_currents@[1] && new.grid_currents@[2] == old.grid_currents@[2] && new.battery_power == old.battery_power && new.battery_soc == old.battery_soc && new.battery_energy == old.battery_energy && new.battery_capacity == old.battery_capacity && new.pv_power == old.pv_power && new.pv_energy == old.pv_energy && new.home_power == old.home_power && new.self_sufficiency_pct == old.self_sufficiency_pct,
        site_set(old, new, SiteMetric::SelfSufficiencyPct, v) ==> new.self_sufficiency_pct == v && new.grid_power == old.grid_power && new.grid_energy == old.grid_energy && new.grid_currents@[0] == old.grid_currents@[0] && new.grid_currents@[1] == old.grid_currents@[1] && new.grid_currents@[2] == old.grid_currents@[2] && new.battery_power == old.battery_power && new.battery_soc == old.battery_soc && new.battery_energy == old.battery_energy && new.battery_capacity == old.battery_capacity && new.pv_power == old.pv_power && new.pv_energy == old.pv_energy && new.home_power == old.home_power && new.green_share_home == old.green_share_home,
{
}

/// Each loadpoint reading is stored in its own field: a numeric update sets
/// its number field to the number read, a flag update its flag, a text
/// update its text; every other field stays as it was.
pub proof fn lemma_loadpoint_reading_fields<N>(
    old: LoadpointState<N>,
    new: LoadpointState<N>,
    t: Seq<char>,
    b: Option<bool>,
    v: Option<N>,
)
    ensures
        loadpoint_set(old, new, LoadpointUpdateView::Number(LoadpointMetric::ChargePower, t), v) ==> new.charge_power == v && new.charged_energy == old.charged_energy && new.charge_total_import == old.charge_total_import && new.vehicle_soc == old.vehicle_soc && new.vehicle_range == old.vehicle_range && new.charging == old.charging && new.connected == old.connected && new.enabled == old.enabled && new.vehicle_name == old.vehicle_name && new.mode == old.mode && new.title == old.title,
        loadpoint_set(old, new, LoadpointUpdateView::Number(LoadpointMetric::ChargedEnergy, t), v) ==> new.charged_energy == v && new.charge_power == old.charge_power && new.charge_total_import == old.charge_total_import && new.vehicle_soc == old.vehicle_soc && new.vehicle_range == old.vehicle_range && new.charging == old.charging && new.connected == old.connected && new.enabled == old.enabled && new.vehicle_name == old.vehicle_name && new.mode == old.mode && new.title == old.title,
        loadpoint_set(old, new, LoadpointUpdateView::Number(LoadpointMetric::ChargeTotalImport, t), v) ==> new.charge_total_import == v && new.charge_power == old.charge_power && new.charged_energy == old.charged_energy && new.vehicle_soc == old.vehicle_soc && new.vehicle_range == old.vehicle_range && new.charging == old.charging && new.connected == old.connected && new.enabled == old.enabled && new.vehicle_name == old.vehicle_name && new.mode == old.mode && new.title == old.title,
        loadpoint_set(old, new, LoadpointUpdateView::Number(LoadpointMetric::VehicleSoc, t), v) ==> new.vehicle_soc == v && new.charge_power == old.charge_power && new.charged_energy == old.charged_energy && new.charge_total_import == old.charge_total_import && new.vehicle_range == old.vehicle_range && new.charging == old.charging && new.connected == old.connected && new.enabled == old.enabled && new.vehicle_name == old.vehicle_name && new.mode == old.mode && new.title == old.title,
        loadpoint_set(old, new, LoadpointUpdateView::Number(LoadpointMetric::VehicleRange, t), v) ==> new.vehicle_range == v && new.charge_power == old.charge_power && new.charged_energy == old.charged_energy && new.charge_total_import == old.charge_total_import && new.vehicle_soc == old.vehicle_soc && new.charging == old.charging && new.connected == old.connected && new.enabled == old.enabled && new.vehicle_name == old.vehicle_name && new.mode == old.mode && new.title == old.title,
        loadpoint_set(old, new, LoadpointUpdateView::Flag(LoadpointFlag::Charging, b), v) ==> new.charging == b && new.charge_power == old.charge_power && new.charged_energy == old.charged_energy && new.charge_total_import == old.charge_total_import && new.vehicle_soc == old.vehicle_soc && new.vehicle_range == old.vehicle_range && new.connected == old.connected && new.enabled == old.enabled && new.vehicle_name == old.vehicle_name && new.mode == old.mode && new.title == old.title,
        loadpoint_set(old, new, LoadpointUpdateView::Flag(LoadpointFlag::Connected, b), v) ==> new.connected == b && new.charge_power == old.charge_power && new.charged_energy == old.charged_energy && new.charge_total_import == old.charge_total_import && new.vehicle_soc == old.vehicle_soc && new.vehicle_range == old.vehicle_range && new.charging == old.charging && new.enabled == old.enabled && new.vehicle_name == old.vehicle_name && new.mode == old.mode && new.title == old.title,
        loadpoint_set(old, new, LoadpointUpdateView::Flag(LoadpointFlag::Enabled, b), v) ==> new.enabled == b && new.charge_power == old.charge_power && new.charged_energy == old.charged_energy && new.charge_total_import == old.charge_total_import && new.vehicle_soc == old.vehicle_soc && new.vehicle_range == old.vehicle_range && new.charging == old.charging && new.connected == old.connected && new.vehicle_name == old.vehicle_name && new.mode == old.mode && new.title == old.title,
        loadpoint_set(old, new, LoadpointUpdateView::Text(LoadpointText::VehicleName, t), v) ==> opt_text(new.vehicle_name) == Some(t) && new.charge_power == old.charge_power && new.charged_energy == old.charged_energy && new.charge_total_import == old.charge_total_import && new.vehicle_soc == old.vehicle_soc && new.vehicle_range == old.vehicle_range && new.charging == old.charging && new.connected == old.connected && new.enabled == old.enabled && new.mode == old.mode && new.title == old.title,
        loadpoint_set(old, new, LoadpointUpdateView::Text(LoadpointText::Mode, t), v) ==> opt_text(new.mode) == Some(t) && new.charge_power == old.charge_power && new.charged_energy == old.charged_energy && new.charge_total_import == old.charge_total_import && new.vehicle_soc == old.vehicle_soc && new.vehicle_range == old.vehicle_range && new.charging == old.charging && new.connected == old.connected && new.enabled == old.enabled && new.vehicle_name == old.vehicle_name && new.title == old.title,
        loadpoint_set(old, new, LoadpointUpdateView::Text(LoadpointText::Title, t), v) ==> opt_text(new.title) == Some(t) && new.charge_power == old.charge_power && new.charged_energy == old.charged_energy && new.charge_total_import == old.charge_total_import && new.vehicle_soc == old.vehicle_soc && new.vehicle_range == old.vehicle_range && new.charging == old.charging && new.connected == old.connected && new.enabled == old.enabled && new.vehicle_name == old.vehicle_name && new.mode == old.mode,
{
}

/// Two sites with the same readings.
pub open spec fn same_site<N>(a: SiteState<N>, b: SiteState<N>) -> bool {
    &&& a.grid_power == b.grid_power
    &&& a.grid_energy == b.grid_energy
    &&& a.grid_currents@ == b.grid_currents@
    &&& a.pv_power == b.pv_power
    &&& a.pv_energy == b.pv_energy
    &&& a.home_power == b.home_power
    &&& a.battery_power == b.battery_power
    &&& a.battery_soc == b.battery_soc
    &&& a.battery_energy == b.battery_energy
    &&& a.battery_capacity == b.battery_capacity
    &&& a.green_share_home == b.green_share_home
    &&& a.self_sufficiency_pct == b.self_sufficiency_pct
}

/// Two states with the same readings, loadpoints and time of update.
pub open spec fn same_state<N>(a: CurrentState<N>, b: CurrentState<N>) -> bool {
    &&& same_site(a.site, b.site)
    &&& a.loadpoints@ == b.loadpoints@
    &&& a.last_updated == b.last_updated
}

/// A numeric loadpoint field after `u`: `v` where `u` sets `target`.
pub open spec fn number_field<N>(u: LoadpointUpdateView, target: LoadpointMetric, old: Option<N>, v: Option<N>) -> Option<N> {
    match u {
        LoadpointUpdateView::Number(m, _) => if m == target {
            v
        } else {
            old
        },
        _ => old,
    }
}

/// A flag of a loadpoint after `u`.
pub open spec fn flag_field(u: LoadpointUpdateView, target: LoadpointFlag, old: Option<bool>) -> Option<bool> {
    match u {
        LoadpointUpdateView::Flag(f, b) => if f == target {
            b
        } else {
            old
        },
        _ => old,
    }
}

/// A text field of a loadpoint after `u`: the new text where `u` sets
/// `target`, else unchanged.
pub open spec fn text_field(u: LoadpointUpdateView, target: LoadpointText, old: Option<String>, new: Option<String>) -> bool {
    match u {
        LoadpointUpdateView::Text(t, s) => if t == target {
            new matches Some(x) && x@ == s
        } else {
            new == old
        },
        _ => new == old,
    }
}

/// `new` is `old` with the update `u` applied, `v` standing for the number
/// that a numeric update carries (the id aside).
pub open spec fn loadpoint_set<N>(old: LoadpointState<N>, new: LoadpointState<N>, u: LoadpointUpdateView, v: Option<N>) -> bool {
    &&& text_field(u, LoadpointText::Title, old.title, new.title)
    &&& new.charge_power == number_field(u, LoadpointMetric::ChargePower, old.charge_power, v)
    &&& new.charged_energy == number_field(u, LoadpointMetric::ChargedEnergy, old.charged_energy, v)
    &&& new.charge_total_import == number_field(
        u,
        LoadpointMetric::ChargeTotalImport,
        old.charge_total_import,
        v,
    )
    &&& new.charging == flag_field(u, LoadpointFlag::Charging, old.charging)
    &&& new.connected == flag_field(u, LoadpointFlag::Connected, old.connected)
    &&& new.enabled == flag_field(u, LoadpointFlag::Enabled, old.enabled)
    &&& text_field(u, LoadpointText::VehicleName, old.vehicle_name, new.vehicle_name)
    &&& new.vehicle_soc == number_field(u, LoadpointMetric::VehicleSoc, old.vehicle_soc, v)
    &&& new.vehicle_range == number_field(u, LoadpointMetric::VehicleRange, old.vehicle_range, v)
    &&& text_field(u, LoadpointText::Mode, old.mode, new.mode)
}

/// The loadpoint `id` before a message changes it: the known one, or a new
/// one without readings.
pub open spec fn loadpoint_before<N>(m: Map<u32, LoadpointState<N>>, id: u32) -> LoadpointState<N> {
    if m.contains_key(id) {
        m[id]
    } else {
        fresh_loadpoint(id)
    }
}

/// `new` is the state `old` after a message with effect `e`, `v` standing
/// for the number that a numeric reading carries and `now` for the time of
/// the message. Whatever the message does not name stays as it was.
pub open spec fn state_after<N>(
    old: CurrentState<N>,
    new: CurrentState<N>,
    e: MessageEffectView,
    v: Option<N>,
    now: i64,
) -> bool {
    match e {
        MessageEffectView::Ignored => same_state(old, new),
        MessageEffectView::Touched => {
            &&& same_site(old.site, new.site)
            &&& new.loadpoints@ == old.loadpoints@
            &&& new.last_updated == Some(now)
        },
        MessageEffectView::Site(m, _) => {
            &&& site_set(old.site, new.site, m, v)
            &&& new.loadpoints@ == old.loadpoints@
            &&& new.last_updated == Some(now)
        },
        MessageEffectView::Loadpoint(id, u) => {
            &&& same_site(old.site, new.site)
            &&& new.loadpoints@.dom() == old.loadpoints@.dom().insert(id)
            &&& forall|k: u32|
                k != id && #[trigger] old.loadpoints@.contains_key(k) ==> new.loadpoints@[k]
                    == old.loadpoints@[k]
            &&& loadpoint_set(loadpoint_before(old.loadpoints@, id), new.loadpoints@[id], u, v)
            &&& new.loadpoints@[id].id == id
            &&& new.last_updated == Some(now)
        },
    }
}

/// A snapshot of the site readings that are kept as history.
pub struct EnergySample<N> {
    pub timestamp: i64,
    pub grid_power: Option<N>,
    pub pv_power: Option<N>,
    pub home_power: Option<N>,
    pub battery_power: Option<N>,
    pub battery_soc: Option<N>,
}

/// A snapshot of the loadpoint readings that are kept as history.
pub struct LoadpointSample<N> {
    pub timestamp: i64,
    pub loadpoint_id: u32,
    pub charge_power: Option<N>,
    pub charged_energy: Option<N>,
}

/// Whether `s` is in strictly ascending order.
pub open spec fn strictly_ascending(s: Seq<u32>) -> bool {
    forall|i: int, j: int| 0 <= i < j < s.len() ==> s[i] < s[j]
}

/// Whether every loadpoint is stored under its own id.
pub open spec fn loadpoints_keyed<N>(m: Map<u32, LoadpointState<N>>) -> bool {
    forall|k: u32| #[trigger] m.contains_key(k) ==> m[k].id == k
}

/// Applying a message keeps every loadpoint stored under its own id.
pub proof fn lemma_apply_keeps_loadpoints_keyed<N>(
    old: CurrentState<N>,
    new: CurrentState<N>,
    e: MessageEffectView,
    v: Option<N>,
    now: i64,
)
    requires
        loadpoints_keyed(old.loadpoints@),
        state_after(old, new, e, v, now),
    ensures
        loadpoints_keyed(new.loadpoints@),
{
    if let MessageEffectView::Loadpoint(id, u) = e {
        assert forall|k: u32| #[trigger] new.loadpoints@.contains_key(k) implies new.loadpoints@[k].id == k by {
            if k != id {
                assert(old.loadpoints@.contains_key(k));
            }
        }
    }
}

/// A loadpoint, once known, stays known: no message removes one, and only a
/// message on a loadpoint adds one (its own).
pub proof fn lemma_loadpoints_only_grow<N>(
    old: CurrentState<N>,
    new: CurrentState<N>,
    e: MessageEffectView,
    v: Option<N>,
    now: i64,
)
    requires
        state_after(old, new, e, v, now),
    ensures
        old.loadpoints@.dom().subset_of(new.loadpoints@.dom()),
        forall|k: u32|
            #[trigger] new.loadpoints@.contains_key(k) && !old.loadpoints@.contains_key(k) ==> e
                == MessageEffectView::Loadpoint(k, e->Loadpoint_1),
{
}

/// The characters of an optional text.
pub open spec fn opt_text(o: Option<String>) -> Option<Seq<char>> {
    match o {
        Some(t) => Some(t@),
        None => None,
    }
}

/// Two loadpoints with the same id and readings (texts compared by their
/// characters).
pub open spec fn same_loadpoint<N>(a: LoadpointState<N>, b: LoadpointState<N>) -> bool {
    &&& a.id == b.id
    &&& opt_text(a.title) == opt_text(b.title)
    &&& a.charge_power == b.charge_power
    &&& a.charged_energy == b.charged_energy
    &&& a.charge_total_import == b.charge_total_import
    &&& a.charging == b.charging
    &&& a.connected == b.connected
    &&& a.enabled == b.enabled
    &&& opt_text(a.vehicle_name) == opt_text(b.vehicle_name)
    &&& a.vehicle_soc == b.vehicle_soc
    &&& a.vehicle_range == b.vehicle_range
    &&& opt_text(a.mode) == opt_text(b.mode)
}

/// Two states with the same readings, loadpoints and time of update.
pub open spec fn equivalent_states<N>(a: CurrentState<N>, b: CurrentState<N>) -> bool {
    &&& same_site(a.site, b.site)
    &&& a.last_updated == b.last_updated
    &&& a.loadpoints@.dom() == b.loadpoints@.dom()
    &&& forall|k: u32| #[trigger] a.loadpoints@.contains_key(k) ==> same_loadpoint(a.loadpoints@[k], b.loadpoints@[k])
}

/// A message delivered a second time (as the broker does with retained
/// messages after a reconnect) leaves the state as the first delivery left
/// it.
pub proof fn lemma_repeated_message_changes_nothing<N>(
    s0: CurrentState<N>,
    s1: CurrentState<N>,
    s2: CurrentState<N>,
    e: MessageEffectView,
    v: Option<N>,
    now: i64,
)
    requires
        state_after(s0, s1, e, v, now),
        state_after(s1, s2, e, v, now),
    ensures
        equivalent_states(s1, s2),
{
    match e {
        MessageEffectView::Site(m, _) => {
            assert(s2.site.grid_currents@ == s1.site.grid_currents@);
        },
        MessageEffectView::Loadpoint(id, u) => {
            assert(s2.loadpoints@.dom() =~= s1.loadpoints@.dom());
            assert(loadpoint_before(s1.loadpoints@, id) == s1.loadpoints@[id]);
        },
        _ => {},
    }
}

/// A message decides the state it leaves: two applications of the same
/// effect, carrying the same number at the same time, to the same state
/// leave equivalent states.
pub proof fn lemma_state_after_deterministic<N>(
    old: CurrentState<N>,
    s1: CurrentState<N>,
    s2: CurrentState<N>,
    e: MessageEffectView,
    v: Option<N>,
    now: i64,
)
    requires
        state_after(old, s1, e, v, now),
        state_after(old, s2, e, v, now),
    ensures
        equivalent_states(s1, s2),
{
    match e {
        MessageEffectView::Site(m, _) => {
            assert(s2.site.grid_currents@ == s1.site.grid_currents@);
        },
        MessageEffectView::Loadpoint(id, u) => {
            assert(s2.loadpoints@.dom() =~= s1.loadpoints@.dom());
        },
        _ => {},
    }
}

impl<N> SiteState<N> {
    /// A site of which nothing is known yet.
    pub fn new() -> (r: Self)
        ensures
            empty_site(r),
    {
        SiteState {
            grid_power: None,
            grid_energy: None,
            grid_currents: [None, None, None],
            pv_power: None,
            pv_energy: None,
            home_power: None,
            battery_power: None,
            battery_soc: None,
            battery_energy: None,
            battery_capacity: None,
            green_share_home: None,
            self_sufficiency_pct: None,
        }
    }

    /// Stores the reading `value` of `metric`.
    pub fn set_reading(&mut self, metric: SiteMetric, value: Option<N>)
        ensures
            site_set(*old(self), *final(self), metric, value),
    {
        match metric {
            SiteMetric::GridPower => self.grid_power = value,
            SiteMetric::GridEnergy => self.grid_energy = value,
            SiteMetric::GridCurrentL1 => self.grid_currents.set(0, value),
            SiteMetric::GridCurrentL2 => self.grid_currents.set(1, value),
            SiteMetric::GridCurrentL3 => self.grid_currents.set(2, value),
            SiteMetric::BatteryPower => self.battery_power = value,
            SiteMetric::BatterySoc => self.battery_soc = value,
            SiteMetric::BatteryEnergy => self.battery_energy = value,
            SiteMetric::BatteryCapacity => self.battery_capacity = value,
            SiteMetric::PvPower => self.pv_power = value,
            SiteMetric::PvEnergy => self.pv_energy = value,
            SiteMetric::HomePower => self.home_power = value,
            SiteMetric::GreenShareHome => self.green_share_home = value,
            SiteMetric::SelfSufficiencyPct => self.self_sufficiency_pct = value,
        }
        assert(self.grid_currents@ =~= seq![
            site_field(metric, SiteMetric::GridCurrentL1, old(self).grid_currents@[0], value),
            site_field(metric, SiteMetric::GridCurrentL2, old(self).grid_currents@[1], value),
            site_field(metric, SiteMetric::GridCurrentL3, old(self).grid_currents@[2], value),
        ]);
    }
}

impl<N> LoadpointState<N> {
    /// A loadpoint of which only the id is known.
    pub fn new(id: u32) -> (r: Self)
        ensures
            r == fresh_loadpoint::<N>(id),
    {
        LoadpointState {
            id,
            title: None,
            charge_power: None,
            charged_energy: None,
            charge_total_import: None,
            charging: None,
            connected: None,
            enabled: None,
            vehicle_name: None,
            vehicle_soc: None,
            vehicle_range: None,
            mode: None,
        }
    }

    /// Applies the update `u`; a numeric update stores `value`.
    pub fn apply_update(&mut self, u: LoadpointUpdate, value: Option<N>)
        ensures
            loadpoint_set(*old(self), *final(self), u@, value),
            final(self).id == old(self).id,
    {
        match u {
            LoadpointUpdate::Number(m, _) => match m {
                LoadpointMetric::ChargePower => self.charge_power = value,
                LoadpointMetric::ChargedEnergy => self.charged_energy = value,
                LoadpointMetric::ChargeTotalImport => self.charge_total_import = value,
                LoadpointMetric::VehicleSoc => self.vehicle_soc = value,
                LoadpointMetric::VehicleRange => self.vehicle_range = value,
            },
            LoadpointUpdate::Flag(f, b) => match f {
                LoadpointFlag::Charging => self.charging = b,
                LoadpointFlag::Connected => self.connected = b,
                LoadpointFlag::Enabled => self.enabled = b,
            },
            LoadpointUpdate::Text(t, text) => match t {
                LoadpointText::VehicleName => self.vehicle_name = Some(text),
                LoadpointText::Mode => self.mode = Some(text),
                LoadpointText::Title => self.title = Some(text),
            },
            LoadpointUpdate::Unhandled => {},
        }
    }

    /// Title of the loadpoint: its configured title, or `Loadpoint {id}`.
    pub fn title_display(&self) -> (r: String)
        ensures
            r@ == match self.title {
                Some(t) => t@,
                None => "Loadpoint "@ + decimal_text(self.id as nat),
            },
    {
        match &self.title {
            Some(t) => t.clone(),
            None => {
                let mut r = String::from_str("Loadpoint ");
                push_decimal(&mut r, self.id as u64);
                r
            },
        }
    }

    /// Whether a vehicle is plugged in; unknown counts as not connected.
    pub fn is_connected(&self) -> (r: bool)
        ensures
            r == (self.connected == Some(true)),
    {
        match self.connected {
            Some(c) => c,
            None => false,
        }
    }

    /// Charging mode, or `--` when unknown.
    pub fn mode_display(&self) -> (r: String)
        ensures
            r@ == match self.mode {
                Some(m) => m@,
                None => "--"@,
            },
    {
        match &self.mode {
            Some(m) => m.clone(),
            None => String::from_str("--"),
        }
    }

    /// Name of the vehicle, or the empty text when none is known.
    pub fn vehicle_name_display(&self) -> (r: String)
        ensures
            r@ == match self.vehicle_name {
                Some(n) => n@,
                None => Seq::<char>::empty(),
            },
    {
        match &self.vehicle_name {
            Some(n) => n.clone(),
            None => String::new(),
        }
    }

    /// Whether a vehicle name is known.
    pub fn has_vehicle(&self) -> (r: bool)
        ensures
            r == self.vehicle_name is Some,
    {
        self.vehicle_name.is_some()
    }
}

impl<N> CurrentState<N> {
    /// The state before any message: no readings, no loadpoints, never updated.
    pub fn new() -> (r: Self)
        ensures
            empty_site(r.site),
            r.loadpoints@ == Map::<u32, LoadpointState<N>>::empty(),
            loadpoints_keyed(r.loadpoints@),
            r.last_updated is None,
    {
        CurrentState { site: SiteState::new(), loadpoints: HashMap::new(), last_updated: None }
    }
    /// The ids of the known loadpoints in ascending order, the order in
    /// which the dashboard lists them.
    pub fn sorted_loadpoint_ids(&self) -> (r: Vec<u32>)
        ensures
            strictly_ascending(r@),
            forall|k: u32| r@.contains(k) <==> self.loadpoints@.contains_key(k),
    {
        let ghost m = self.loadpoints@;
        let entries = self.loadpoints.iter();
        let ghost items = entries.remaining();
        let mut r: Vec<u32> = Vec::new();
        for entry in it: entries
            invariant
                m == self.loadpoints@,
                it.seq() == items,
                strictly_ascending(r@),
                forall|k: u32|
                    r@.contains(k) <==> exists|j: int| 0 <= j < it.index() && *items[j].0 == k,
        {
            let (id, _) = entry;
            let k = *id;
            let ghost before = r@;
            let mut p: usize = 0;
            while p < r.len() && r[p] < k
                invariant
                    r@ == before,
                    p <= r@.len(),
                    forall|q: int| 0 <= q < p ==> r@[q] < k,
                decreases r.len() - p,
            {
                p = p + 1;
            }
            if p < r.len() && r[p] == k {
            } else {
                r.insert(p, k);
                proof {
                    before.insert_ensures(p as int, k);
                    assert forall|i: int, j: int| 0 <= i < j < r@.len() implies r@[i] < r@[j] by {
                        if j < p {
                        } else if j == p {
                        } else if i < p {
                            assert(r@[j] == before[j - 1]);
                        } else if i == p {
                            assert(r@[j] == before[j - 1]);
                        } else {
                            assert(r@[i] == before[i - 1]);
                            assert(r@[j] == before[j - 1]);
                        }
                    }
                    assert forall|x: u32| r@.contains(x) <==> (before.contains(x) || x == k) by {
                        if r@.contains(x) {
                            let i = choose|i: int| 0 <= i < r@.len() && r@[i] == x;
                            if i < p {
                            } else if i > p {
                                assert(before[i - 1] == x);
                            }
                        }
                        if before.contains(x) {
                            let i = choose|i: int| 0 <= i < before.len() && before[i] == x;
                            if i < p {
                                assert(r@[i] == x);
                            } else {
                                assert(r@[i + 1] == x);
                            }
                        }
                        if x == k {
                            assert(r@[p as int] == k);
                        }
                    }
                }
            }
            proof {
                assert forall|x: u32|
                    r@.contains(x) <==> exists|j: int| 0 <= j < it.index() + 1 && *items[j].0 == x by {
                    if exists|j: int| 0 <= j < it.index() + 1 && *items[j].0 == x {
                        let j = choose|j: int| 0 <= j < it.index() + 1 && *items[j].0 == x;
                        if j == it.index() {
                            if p < before.len() && before[p as int] == k {
                                assert(before.contains(k));
                            }
                        }
                    }
                    if before.contains(x) {
                        assert(exists|j: int| 0 <= j < it.index() && *items[j].0 == x);
                    }
                }
            }
        }
        proof {
            assert forall|x: u32| r@.contains(x) <==> m.contains_key(x) by {
                if m.contains_key(x) {
                    assert(items.contains((&x, &m[x])));
                    let j = choose|j: int| 0 <= j < items.len() && items[j] == (&x, &m[x]);
                    assert(*items[j].0 == x);
                }
                if r@.contains(x) {
                    let j = choose|j: int| 0 <= j < items.len() && *items[j].0 == x;
                    assert(m.contains_key(*items[j].0));
                }
            }
        }
        r
    }

    /// Applies a message with effect `effect` received at `now`; a numeric
    /// reading stores `value`.
    pub fn apply_effect(&mut self, effect: MessageEffect, value: Option<N>, now: i64)
        ensures
            state_after(*old(self), *final(self), effect@, value, now),
    {
        match effect {
            MessageEffect::Ignored => {},
            MessageEffect::Touched => {
                self.last_updated = Some(now);
            },
            MessageEffect::Site(m, _) => {
                self.site.set_reading(m, value);
                self.last_updated = Some(now);
            },
            MessageEffect::Loadpoint(id, u) => {
                let mut lp = match self.loadpoints.remove(&id) {
                    Some(lp) => lp,
                    None => LoadpointState::new(id),
                };
                lp.id = id;
                lp.apply_update(u, value);
                self.loadpoints.insert(id, lp);
                assert(self.loadpoints@.dom() =~= old(self).loadpoints@.dom().insert(id));
                self.last_updated = Some(now);
            },
        }
    }
}

} // verus!
