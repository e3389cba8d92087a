//! Interpretation of evcc MQTT messages.
//!
//! A message is published on a topic below the configured prefix. Its topic
//! decides which reading of the site or of a loadpoint it carries; its
//! payload is the reading as text. Numeric readings are handed on as their
//! trimmed text, for the caller to read as a number; flags and names are
//! decoded here.

use vstd::prelude::*;
use vstd::utf8::*;

use crate::calendar::unix_now;
use crate::model::{
    equivalent_states, lemma_state_after_deterministic, same_site, same_state, state_after,
    CurrentState,
};
use crate::text::{
    chars_equal_str, chars_of, find_char, first_index_of, has_prefix, parse_bool, parse_bool_spec,
    parse_u32, parse_u32_spec, starts_with, str_from_utf8, trim, trim_bounds,
};

verus! {

/// Whether a message on `topic` belongs to the topics below `prefix`.
pub fn parse_message(prefix: &str, topic: &str, _payload: &[u8]) -> (r: bool)
    ensures
        r == has_prefix(topic@, prefix@),
{
    let t = chars_of(topic);
    let p = chars_of(prefix);
    starts_with(t.as_slice(), p.as_slice())
}

/// Numeric site readings.
#[derive(Clone, Copy, PartialEq, Eq, Structural, Debug)]
pub enum SiteMetric {
    GridPower,
    GridEnergy,
    GridCurrentL1,
    GridCurrentL2,
    GridCurrentL3,
    BatteryPower,
    BatterySoc,
    BatteryEnergy,
    BatteryCapacity,
    PvPower,
    PvEnergy,
    HomePower,
    GreenShareHome,
    SelfSufficiencyPct,
}

/// Numeric loadpoint readings.
#[derive(Clone, Copy, PartialEq, Eq, Structural, Debug)]
pub enum LoadpointMetric {
    ChargePower,
    ChargedEnergy,
    ChargeTotalImport,
    VehicleSoc,
    VehicleRange,
}

/// Boolean loadpoint readings.
#[derive(Clone, Copy, PartialEq, Eq, Structural, Debug)]
pub enum LoadpointFlag {
    Charging,
    Connected,
    Enabled,
}

/// Textual loadpoint readings.
#[derive(Clone, Copy, PartialEq, Eq, Structural, Debug)]
pub enum LoadpointText {
    VehicleName,
    Mode,
    Title,
}

/// What a message on a loadpoint topic changes in that loadpoint.
#[derive(Clone, PartialEq, Eq, Debug)]
pub enum LoadpointUpdate {
    /// A numeric reading, given as the trimmed payload text.
    Number(LoadpointMetric, String),
    /// A flag: the payload read as `true` or `false`, or no value.
    Flag(LoadpointFlag, Option<bool>),
    /// A name: the trimmed payload text.
    Text(LoadpointText, String),
    /// An unknown field: the loadpoint exists afterwards, nothing else changes.
    Unhandled,
}

/// What a message changes in the live state.
#[derive(Clone, PartialEq, Eq, Debug)]
pub enum MessageEffect {
    /// Not for this dashboard (topic outside the prefix), or a payload that is
    /// not UTF-8: nothing changes.
    Ignored,
    /// Only the time of the last update changes.
    Touched,
    /// A numeric site reading, given as the trimmed payload text; the time of
    /// the last update changes too.
    Site(SiteMetric, String),
    /// A change to the loadpoint with this id (created when missing); the
    /// time of the last update changes too.
    Loadpoint(u32, LoadpointUpdate),
}

pub enum LoadpointUpdateView {
    Number(LoadpointMetric, Seq<char>),
    Flag(LoadpointFlag, Option<bool>),
    Text(LoadpointText, Seq<char>),
    Unhandled,
}

pub enum MessageEffectView {
    Ignored,
    Touched,
    Site(SiteMetric, Seq<char>),
    Loadpoint(u32, LoadpointUpdateView),
}

impl View for LoadpointUpdate {
    type V = LoadpointUpdateView;

    open spec fn view(&self) -> LoadpointUpdateView {
        match self {
            LoadpointUpdate::Number(m, s) => LoadpointUpdateView::Number(*m, s@),
            LoadpointUpdate::Flag(f, b) => LoadpointUpdateView::Flag(*f, *b),
            LoadpointUpdate::Text(t, s) => LoadpointUpdateView::Text(*t, s@),
            LoadpointUpdate::Unhandled => LoadpointUpdateView::Unhandled,
        }
    }
}

impl View for MessageEffect {
    type V = MessageEffectView;

    open spec fn view(&self) -> MessageEffectView {
        match self {
            MessageEffect::Ignored => MessageEffectView::Ignored,
            MessageEffect::Touched => MessageEffectView::Touched,
            MessageEffect::Site(m, s) => MessageEffectView::Site(*m, s@),
            MessageEffect::Loadpoint(id, u) => MessageEffectView::Loadpoint(*id, u@),
        }
    }
}

/// The site reading that a topic suffix names, if any. Both the nested and
/// the camel-case topic forms that evcc publishes are understood.
pub open spec fn site_metric_of(s: Seq<char>) -> Option<SiteMetric> {
    if s == "site/grid/power"@ || s == "site/gridPower"@ || s == "site/grid/Power"@ {
        Some(SiteMetric::GridPower)
    } else if s == "site/grid/energy"@ {
        Some(SiteMetric::GridEnergy)
    } else if s == "site/grid/currents/1"@ {
        Some(SiteMetric::GridCurrentL1)
    } else if s == "site/grid/currents/2"@ {
        Some(SiteMetric::GridCurrentL2)
    } else if s == "site/grid/currents/3"@ {
        Some(SiteMetric::GridCurrentL3)
    } else if s == "site/battery/power"@ || s == "site/batteryPower"@ {
        Some(SiteMetric::BatteryPower)
    } else if s == "site/battery/soc"@ || s == "site/batterySoc"@ {
        Some(SiteMetric::BatterySoc)
    } else if s == "site/battery/energy"@ {
        Some(SiteMetric::BatteryEnergy)
    } else if s == "site/battery/capacity"@ {
        Some(SiteMetric::BatteryCapacity)
    } else if s == "site/pvPower"@ {
        Some(SiteMetric::PvPower)
    } else if s == "site/pvEnergy"@ {
        Some(SiteMetric::PvEnergy)
    } else if s == "site/homePower"@ {
        Some(SiteMetric::HomePower)
    } else if s == "site/greenShareHome"@ {
        Some(SiteMetric::GreenShareHome)
    } else if s == "site/statistics/30d/solarPercentage"@ {
        Some(SiteMetric::SelfSufficiencyPct)
    } else {
        None
    }
}

fn site_metric(s: &[char]) -> (r: Option<SiteMetric>)
    ensures
        r == site_metric_of(s@),
{
    if chars_equal_str(s, "site/grid/power") || chars_equal_str(s, "site/gridPower")
        || chars_equal_str(s, "site/grid/Power") {
        Some(SiteMetric::GridPower)
    } else if chars_equal_str(s, "site/grid/energy") {
        Some(SiteMetric::GridEnergy)
    } else if chars_equal_str(s, "site/grid/currents/1") {
        Some(SiteMetric::GridCurrentL1)
    } else if chars_equal_str(s, "site/grid/currents/2") {
        Some(SiteMetric::GridCurrentL2)
    } else if chars_equal_str(s, "site/grid/currents/3") {
        Some(SiteMetric::GridCurrentL3)
    } else if chars_equal_str(s, "site/battery/power") || chars_equal_str(s, "site/batteryPower") {
        Some(SiteMetric::BatteryPower)
    } else if chars_equal_str(s, "site/battery/soc") || chars_equal_str(s, "site/batterySoc") {
        Some(SiteMetric::BatterySoc)
    } else if chars_equal_str(s, "site/battery/energy") {
        Some(SiteMetric::BatteryEnergy)
    } else if chars_equal_str(s, "site/battery/capacity") {
        Some(SiteMetric::BatteryCapacity)
    } else if chars_equal_str(s, "site/pvPower") {
        Some(SiteMetric::PvPower)
    } else if chars_equal_str(s, "site/pvEnergy") {
        Some(SiteMetric::PvEnergy)
    } else if chars_equal_str(s, "site/homePower") {
        Some(SiteMetric::HomePower)
    } else if chars_equal_str(s, "site/greenShareHome") {
        Some(SiteMetric::GreenShareHome)
    } else if chars_equal_str(s, "site/statistics/30d/solarPercentage") {
        Some(SiteMetric::SelfSufficiencyPct)
    } else {
        None
    }
}

/// What the field part of a loadpoint topic does with the trimmed payload.
pub open spec fn loadpoint_update_of(field: Seq<char>, value: Seq<char>) -> LoadpointUpdateView {
    if field == "chargePower"@ {
        LoadpointUpdateView::Number(LoadpointMetric::ChargePower, value)
    } else if field == "chargedEnergy"@ {
        LoadpointUpdateView::Number(LoadpointMetric::ChargedEnergy, value)
    } else if field == "chargeTotalImport"@ {
        LoadpointUpdateView::Number(LoadpointMetric::ChargeTotalImport, value)
    } else if field == "charging"@ {
        LoadpointUpdateView::Flag(LoadpointFlag::Charging, parse_bool_spec(value))
    } else if field == "vehicleName"@ || field == "vehicleTitle"@ {
        LoadpointUpdateView::Text(LoadpointText::VehicleName, value)
    } else if field == "mode"@ {
        LoadpointUpdateView::Text(LoadpointText::Mode, value)
    } else if field == "title"@ {
        LoadpointUpdateView::Text(LoadpointText::Title, value)
    } else if field == "vehicleSoc"@ {
        LoadpointUpdateView::Number(LoadpointMetric::VehicleSoc, value)
    } else if field == "vehicleRange"@ {
        LoadpointUpdateView::Number(LoadpointMetric::VehicleRange, value)
    } else if field == "connected"@ {
        LoadpointUpdateView::Flag(LoadpointFlag::Connected, parse_bool_spec(value))
    } else if field == "enabled"@ {
        LoadpointUpdateView::Flag(LoadpointFlag::Enabled, parse_bool_spec(value))
    } else {
        LoadpointUpdateView::Unhandled
    }
}

fn loadpoint_update(field: &[char], value: &str, value_chars: &[char]) -> (r: LoadpointUpdate)
    requires
        value_chars@ == value@,
    ensures
        r@ == loadpoint_update_of(field@, value@),
{
    if chars_equal_str(field, "chargePower") {
        LoadpointUpdate::Number(LoadpointMetric::ChargePower, String::from_str(value))
    } else if chars_equal_str(field, "chargedEnergy") {
        LoadpointUpdate::Number(LoadpointMetric::ChargedEnergy, String::from_str(value))
    } else if chars_equal_str(field, "chargeTotalImport") {
        LoadpointUpdate::Number(LoadpointMetric::ChargeTotalImport, String::from_str(value))
    } else if chars_equal_str(field, "charging") {
        LoadpointUpdate::Flag(LoadpointFlag::Charging, parse_bool(value_chars))
    } else if chars_equal_str(field, "vehicleName") || chars_equal_str(field, "vehicleTitle") {
        LoadpointUpdate::Text(LoadpointText::VehicleName, String::from_str(value))
    } else if chars_equal_str(field, "mode") {
        LoadpointUpdate::Text(LoadpointText::Mode, String::from_str(value))
    } else if chars_equal_str(field, "title") {
        LoadpointUpdate::Text(LoadpointText::Title, String::from_str(value))
    } else if chars_equal_str(field, "vehicleSoc") {
        LoadpointUpdate::Number(LoadpointMetric::VehicleSoc, String::from_str(value))
    } else if chars_equal_str(field, "vehicleRange") {
        LoadpointUpdate::Number(LoadpointMetric::VehicleRange, String::from_str(value))
    } else if chars_equal_str(field, "connected") {
        LoadpointUpdate::Flag(LoadpointFlag::Connected, parse_bool(value_chars))
    } else if chars_equal_str(field, "enabled") {
        LoadpointUpdate::Flag(LoadpointFlag::Enabled, parse_bool(value_chars))
    } else {
        LoadpointUpdate::Unhandled
    }
}

/// `s` without its leading `/` characters.
pub open spec fn strip_leading_slashes(s: Seq<char>) -> Seq<char>
    decreases s.len(),
{
    if s.len() > 0 && s[0] == '/' {
        strip_leading_slashes(s.drop_first())
    } else {
        s
    }
}

/// A loadpoint path `"{id}/{field}"` (the part after `loadpoints/`): the id
/// is the text before the first `/`, read as a `u32`; the field is the rest.
/// Without a `/`, or with an id that does not read as a `u32`, only the time
/// of the last update changes.
pub open spec fn loadpoint_effect_of(path: Seq<char>, value: Seq<char>) -> MessageEffectView {
    let k = first_index_of(path, '/');
    if k >= path.len() {
        MessageEffectView::Touched
    } else {
        match parse_u32_spec(path.subrange(0, k)) {
            None => MessageEffectView::Touched,
            Some(id) => MessageEffectView::Loadpoint(
                id,
                loadpoint_update_of(path.subrange(k + 1, path.len() as int), value),
            ),
        }
    }
}

/// The effect of a message, from its topic and payload bytes.
pub open spec fn message_effect_of(prefix: Seq<char>, topic: Seq<char>, payload: Seq<u8>) -> MessageEffectView {
    if !valid_utf8(payload) || !has_prefix(topic, prefix) {
        MessageEffectView::Ignored
    } else {
        let value = trim(decode_utf8(payload));
        let suffix = strip_leading_slashes(topic.subrange(prefix.len() as int, topic.len() as int));
        match site_metric_of(suffix) {
            Some(m) => MessageEffectView::Site(m, value),
            None => if has_prefix(suffix, "loadpoints/"@) {
                loadpoint_effect_of(
                    suffix.subrange("loadpoints/"@.len() as int, suffix.len() as int),
                    value,
                )
            } else {
                MessageEffectView::Touched
            },
        }
    }
}

/// What the message `payload` on `topic` changes in the live state, for the
/// topics below `prefix`.
pub fn interpret_message(prefix: &str, topic: &str, payload: &[u8]) -> (r: MessageEffect)
    ensures
        r@ == message_effect_of(prefix@, topic@, payload@),
{
    let text = match str_from_utf8(payload) {
        Some(t) => t,
        None => return MessageEffect::Ignored,
    };
    let t = chars_of(topic);
    let p = chars_of(prefix);
    if !starts_with(t.as_slice(), p.as_slice()) {
        return MessageEffect::Ignored;
    }
    let tv = t.as_slice();
    let n = tv.len();
    let mut i: usize = p.len();
    let ghost rest = tv@.subrange(p@.len() as int, n as int);
    while i < n && tv[i] == '/'
        invariant
            n == tv@.len(),
            p@.len() <= i <= n,
            rest == tv@.subrange(p@.len() as int, n as int),
            strip_leading_slashes(rest) == strip_leading_slashes(tv@.subrange(i as int, n as int)),
        decreases n - i,
    {
        assert(tv@.subrange(i as int, n as int).drop_first() =~= tv@.subrange(i + 1, n as int));
        i = i + 1;
    }
    let suffix = &tv[i..n];
    assert(strip_leading_slashes(rest) == suffix@);
    let vc = chars_of(text);
    let (a, b) = trim_bounds(vc.as_slice());
    let value: &str = text.substring_char(a, b);
    assert(value@ == trim(text@));
    match site_metric(suffix) {
        Some(m) => MessageEffect::Site(m, String::from_str(value)),
        None => {
            let lp = chars_of("loadpoints/");
            if starts_with(suffix, lp.as_slice()) {
                let path = &suffix[lp.len()..suffix.len()];
                parse_loadpoint_message(path, value)
            } else {
                MessageEffect::Touched
            }
        },
    }
}

/// The effect of a message on the loadpoint path `path` (the topic part
/// after `loadpoints/`) with the trimmed payload `value`.
fn parse_loadpoint_message(path: &[char], value: &str) -> (r: MessageEffect)
    ensures
        r@ == loadpoint_effect_of(path@, value@),
{
    let k = find_char(path, 0, '/');
    assert(path@.subrange(0, path@.len() as int) =~= path@);
    if k >= path.len() {
        return MessageEffect::Touched;
    }
    match parse_u32(path, 0, k) {
        None => MessageEffect::Touched,
        Some(id) => {
            let field = &path[k + 1..path.len()];
            let vc = chars_of(value);
            MessageEffect::Loadpoint(id, loadpoint_update(field, value, vc.as_slice()))
        },
    }
}

/// The text of the number that a message carries, if its effect stores one.
pub open spec fn number_text_of(e: MessageEffectView) -> Option<Seq<char>> {
    match e {
        MessageEffectView::Site(_, t) => Some(t),
        MessageEffectView::Loadpoint(_, LoadpointUpdateView::Number(_, t)) => Some(t),
        _ => None,
    }
}

/// `v` is what `read_number` gives for the number text of `e`, where `e`
/// carries one.
pub open spec fn number_read<N, F: Fn(&str) -> Option<N>>(
    read_number: F,
    e: MessageEffectView,
    v: Option<N>,
) -> bool {
    match number_text_of(e) {
        Some(t) => exists|s: &str| s@ == t && #[trigger] call_ensures(read_number, (s,), v),
        None => v is None,
    }
}

/// Applies the message `payload` on `topic`, received at `now`, to `state`.
/// A numeric reading is read from the trimmed payload by `read_number`.
pub fn apply_message_at<N, F: Fn(&str) -> Option<N>>(
    state: &mut CurrentState<N>,
    prefix: &str,
    topic: &str,
    payload: &[u8],
    read_number: F,
    now: i64,
)
    requires
        forall|s: &str| call_requires(read_number, (s,)),
    ensures
        exists|v: Option<N>|
            {
                &&& number_read(read_number, message_effect_of(prefix@, topic@, payload@), v)
                &&& state_after(
                    *old(state),
                    *final(state),
                    message_effect_of(prefix@, topic@, payload@),
                    v,
                    now,
                )
            },
        !valid_utf8(payload@) || !has_prefix(topic@, prefix@) ==> same_state(*old(state), *final(state)),
{
    let effect = interpret_message(prefix, topic, payload);
    let value = match &effect {
        MessageEffect::Site(_, t) => {
            let v = read_number(t.as_str());
            assert(number_read(read_number, effect@, v));
            v
        },
        MessageEffect::Loadpoint(_, LoadpointUpdate::Number(_, t)) => {
            let v = read_number(t.as_str());
            assert(number_read(read_number, effect@, v));
            v
        },
        _ => None,
    };
    let ghost e = effect@;
    assert(number_read(read_number, e, value));
    state.apply_effect(effect, value, now);
    assert(state_after(*old(state), *state, e, value, now));
}

/// Applies the message `payload` on `topic` to `state`, stamped with the
/// current time. A numeric reading is read from the trimmed payload by
/// `read_number`.
pub fn apply_message<N, F: Fn(&str) -> Option<N>>(
    state: &mut CurrentState<N>,
    prefix: &str,
    topic: &str,
    payload: &[u8],
    read_number: F,
)
    requires
        forall|s: &str| call_requires(read_number, (s,)),
    ensures
        exists|v: Option<N>, now: i64|
            {
                &&& number_read(read_number, message_effect_of(prefix@, topic@, payload@), v)
                &&& state_after(
                    *old(state),
                    *final(state),
                    message_effect_of(prefix@, topic@, payload@),
                    v,
                    now,
                )
            },
        !valid_utf8(payload@) || !has_prefix(topic@, prefix@) ==> same_state(*old(state), *final(state)),
{
    let now = unix_now();
    apply_message_at(state, prefix, topic, payload, read_number, now);
}

/// The suffix of a topic `prefix + "/" + name` is `name`, where `name` does
/// not itself start with `/`.
proof fn lemma_topic_suffix(prefix: Seq<char>, slash_name: Seq<char>)
    requires
        slash_name.len() >= 2,
        slash_name[0] == '/',
        slash_name[1] != '/',
    ensures
        has_prefix(prefix + slash_name, prefix),
        strip_leading_slashes((prefix + slash_name).subrange(prefix.len() as int, (prefix + slash_name).len() as int))
            == slash_name.drop_first(),
{
    let t = prefix + slash_name;
    assert(t.subrange(0, prefix.len() as int) =~= prefix);
    assert(t.subrange(prefix.len() as int, t.len() as int) =~= slash_name);
    assert(strip_leading_slashes(slash_name.drop_first()) == slash_name.drop_first());
}

/// Both topic forms that evcc publishes name the same reading: a message on
/// `site/gridPower` or `site/grid/Power` has the effect of one on
/// `site/grid/power`, one on `site/batteryPower` that of one on
/// `site/battery/power`, and one on `site/batterySoc` that of one on
/// `site/battery/soc`.
pub proof fn lemma_topic_aliases(prefix: Seq<char>, payload: Seq<u8>)
    ensures
        message_effect_of(prefix, prefix + "/site/gridPower"@, payload)
            == message_effect_of(prefix, prefix + "/site/grid/power"@, payload),
        message_effect_of(prefix, prefix + "/site/grid/Power"@, payload)
            == message_effect_of(prefix, prefix + "/site/grid/power"@, payload),
        message_effect_of(prefix, prefix + "/site/batteryPower"@, payload)
            == message_effect_of(prefix, prefix + "/site/battery/power"@, payload),
        message_effect_of(prefix, prefix + "/site/batterySoc"@, payload)
            == message_effect_of(prefix, prefix + "/site/battery/soc"@, payload),
{
    reveal_strlit("/site/gridPower");
    reveal_strlit("/site/grid/Power");
    reveal_strlit("/site/grid/power");
    reveal_strlit("/site/batteryPower");
    reveal_strlit("/site/battery/power");
    reveal_strlit("/site/batterySoc");
    reveal_strlit("/site/battery/soc");
    reveal_strlit("site/gridPower");
    reveal_strlit("site/grid/Power");
    reveal_strlit("site/grid/power");
    reveal_strlit("site/batteryPower");
    reveal_strlit("site/battery/power");
    reveal_strlit("site/batterySoc");
    reveal_strlit("site/battery/soc");
    lemma_topic_suffix(prefix, "/site/gridPower"@);
    lemma_topic_suffix(prefix, "/site/grid/Power"@);
    lemma_topic_suffix(prefix, "/site/grid/power"@);
    lemma_topic_suffix(prefix, "/site/batteryPower"@);
    lemma_topic_suffix(prefix, "/site/battery/power"@);
    lemma_topic_suffix(prefix, "/site/batterySoc"@);
    lemma_topic_suffix(prefix, "/site/battery/soc"@);
    assert("/site/gridPower"@.drop_first() =~= "site/gridPower"@);
    assert("/site/grid/Power"@.drop_first() =~= "site/grid/Power"@);
    assert("/site/grid/power"@.drop_first() =~= "site/grid/power"@);
    assert("/site/batteryPower"@.drop_first() =~= "site/batteryPower"@);
    assert("/site/battery/power"@.drop_first() =~= "site/battery/power"@);
    assert("/site/batterySoc"@.drop_first() =~= "site/batterySoc"@);
    assert("/site/battery/soc"@.drop_first() =~= "site/battery/soc"@);
    reveal_strlit("site/grid/energy");
    reveal_strlit("site/grid/currents/1");
    reveal_strlit("site/grid/currents/2");
    reveal_strlit("site/grid/currents/3");
    reveal_strlit("site/battery/energy");
    reveal_strlit("site/battery/capacity");
    assert("site/batteryPower"@[5] != "site/grid/power"@[5]);
    assert("site/batteryPower"@[5] != "site/grid/energy"@[5]);
    assert("site/batteryPower"@[5] != "site/grid/currents/1"@[5]);
    assert("site/batteryPower"@[5] != "site/grid/currents/2"@[5]);
    assert("site/batteryPower"@[5] != "site/grid/currents/3"@[5]);
    assert("site/batteryPower"@[5] != "site/gridPower"@[5]);
    assert("site/batteryPower"@[5] != "site/grid/Power"@[5]);
    assert("site/battery/power"@[5] != "site/grid/power"@[5]);
    assert("site/battery/power"@[5] != "site/grid/energy"@[5]);
    assert("site/battery/power"@[5] != "site/grid/currents/1"@[5]);
    assert("site/battery/power"@[5] != "site/grid/currents/2"@[5]);
    assert("site/battery/power"@[5] != "site/grid/currents/3"@[5]);
    assert("site/battery/power"@[5] != "site/gridPower"@[5]);
    assert("site/battery/power"@[5] != "site/grid/Power"@[5]);
    assert(site_metric_of("site/batteryPower"@) == Some(SiteMetric::BatteryPower));
    assert(site_metric_of("site/battery/power"@) == Some(SiteMetric::BatteryPower));
    assert("site/batterySoc"@[5] != "site/grid/power"@[5]);
    assert("site/batterySoc"@[5] != "site/grid/energy"@[5]);
    assert("site/batterySoc"@[5] != "site/grid/currents/1"@[5]);
    assert("site/batterySoc"@[5] != "site/grid/currents/2"@[5]);
    assert("site/batterySoc"@[5] != "site/grid/currents/3"@[5]);
    assert("site/batterySoc"@[5] != "site/gridPower"@[5]);
    assert("site/batterySoc"@[5] != "site/grid/Power"@[5]);
    assert("site/batterySoc"@.len() != "site/batteryPower"@.len());
    assert("site/batterySoc"@[12] != "site/battery/power"@[12]);
    assert("site/battery/soc"@[5] != "site/grid/power"@[5]);
    assert("site/battery/soc"@[5] != "site/grid/energy"@[5]);
    assert("site/battery/soc"@[5] != "site/grid/currents/1"@[5]);
    assert("site/battery/soc"@[5] != "site/grid/currents/2"@[5]);
    assert("site/battery/soc"@[5] != "site/grid/currents/3"@[5]);
    assert("site/battery/soc"@[5] != "site/gridPower"@[5]);
    assert("site/battery/soc"@[5] != "site/grid/Power"@[5]);
    assert("site/battery/soc"@.len() != "site/batteryPower"@.len());
    assert("site/battery/soc"@[13] != "site/battery/power"@[13]);
    assert(site_metric_of("site/batterySoc"@) == Some(SiteMetric::BatterySoc));
    assert(site_metric_of("site/battery/soc"@) == Some(SiteMetric::BatterySoc));
}

/// A message on a loadpoint path without a `/`, or whose id part does not
/// read as a `u32` (such as `x/chargePower`), creates or changes no
/// loadpoint and leaves the site alone; only the time of the last update
/// changes.
pub proof fn lemma_bad_loadpoint_path_changes_no_loadpoint<N>(
    path: Seq<char>,
    value: Seq<char>,
    old: CurrentState<N>,
    new: CurrentState<N>,
    v: Option<N>,
    now: i64,
)
    requires
        first_index_of(path, '/') >= path.len() || parse_u32_spec(
            path.subrange(0, first_index_of(path, '/')),
        ) is None,
        state_after(old, new, loadpoint_effect_of(path, value), v, now),
    ensures
        new.loadpoints@ == old.loadpoints@,
        same_site(old.site, new.site),
        new.last_updated == Some(now),
{
}

/// `t1` and `t2` are the two forms of one site reading's topic below
/// `prefix`.
pub open spec fn alias_topics(prefix: Seq<char>, t1: Seq<char>, t2: Seq<char>) -> bool {
    ||| t1 == prefix + "/site/gridPower"@ && t2 == prefix + "/site/grid/power"@
    ||| t1 == prefix + "/site/grid/Power"@ && t2 == prefix + "/site/grid/power"@
    ||| t1 == prefix + "/site/batteryPower"@ && t2 == prefix + "/site/battery/power"@
    ||| t1 == prefix + "/site/batterySoc"@ && t2 == prefix + "/site/battery/soc"@
}

/// The alias law on states: the same payload on either form of a site
/// topic, applied to the same state at the same time with the same number
/// read from it, leaves equivalent states.
pub proof fn lemma_topic_aliases_same_state<N>(
    prefix: Seq<char>,
    t1: Seq<char>,
    t2: Seq<char>,
    payload: Seq<u8>,
    old: CurrentState<N>,
    s1: CurrentState<N>,
    s2: CurrentState<N>,
    v: Option<N>,
    now: i64,
)
    requires
        alias_topics(prefix, t1, t2),
        state_after(old, s1, message_effect_of(prefix, t1, payload), v, now),
        state_after(old, s2, message_effect_of(prefix, t2, payload), v, now),
    ensures
        equivalent_states(s1, s2),
{
    lemma_topic_aliases(prefix, payload);
    lemma_state_after_deterministic(old, s1, s2, message_effect_of(prefix, t1, payload), v, now);
}

/// The effect of a payload on the topic of the site reading `m`: the reading
/// with the trimmed payload text, or nothing for a payload that is not UTF-8.
pub open spec fn site_effect(m: SiteMetric, payload: Seq<u8>) -> MessageEffectView {
    if valid_utf8(payload) {
        MessageEffectView::Site(m, trim(decode_utf8(payload)))
    } else {
        MessageEffectView::Ignored
    }
}

/// The site topics that evcc publishes, for every prefix and payload: each
/// topic below the prefix carries the reading of the field it names, in
/// both the nested and the camel-case form (`site/grid/energy` the grid
/// energy meter, `site/grid/power` and `site/gridPower` the grid power,
/// `site/grid/currents/1` the current of phase 1, and so on).
pub proof fn lemma_site_topic_table(prefix: Seq<char>, payload: Seq<u8>)
    ensures
        message_effect_of(prefix, prefix + "/site/grid/power"@, payload) == site_effect(SiteMetric::GridPower, payload),
        message_effect_of(prefix, prefix + "/site/gridPower"@, payload) == site_effect(SiteMetric::GridPower, payload),
        message_effect_of(prefix, prefix + "/site/grid/Power"@, payload) == site_effect(SiteMetric::GridPower, payload),
        message_effect_of(prefix, prefix + "/site/grid/energy"@, payload) == site_effect(SiteMetric::GridEnergy, payload),
        message_effect_of(prefix, prefix + "/site/grid/currents/1"@, payload) == site_effect(SiteMetric::GridCurrentL1, payload),
        message_effect_of(prefix, prefix + "/site/grid/currents/2"@, payload) == site_effect(SiteMetric::GridCurrentL2, payload),
        message_effect_of(prefix, prefix + "/site/grid/currents/3"@, payload) == site_effect(SiteMetric::GridCurrentL3, payload),
        message_effect_of(prefix, prefix + "/site/battery/power"@, payload) == site_effect(SiteMetric::BatteryPower, payload),
        message_effect_of(prefix, prefix + "/site/batteryPower"@, payload) == site_effect(SiteMetric::BatteryPower, payload),
        message_effect_of(prefix, prefix + "/site/battery/soc"@, payload) == site_effect(SiteMetric::BatterySoc, payload),
        message_effect_of(prefix, prefix + "/site/batterySoc"@, payload) == site_effect(SiteMetric::BatterySoc, payload),
        message_effect_of(prefix, prefix + "/site/battery/energy"@, payload) == site_effect(SiteMetric::BatteryEnergy, payload),
        message_effect_of(prefix, prefix + "/site/battery/capacity"@, payload) == site_effect(SiteMetric::BatteryCapacity, payload),
        message_effect_of(prefix, prefix + "/site/pvPower"@, payload) == site_effect(SiteMetric::PvPower, payload),
        message_effect_of(prefix, prefix + "/site/pvEnergy"@, payload) == site_effect(SiteMetric::PvEnergy, payload),
        message_effect_of(prefix, prefix + "/site/homePower"@, payload) == site_effect(SiteMetric::HomePower, payload),
        message_effect_of(prefix, prefix + "/site/greenShareHome"@, payload) == site_effect(SiteMetric::GreenShareHome, payload),
        message_effect_of(prefix, prefix + "/site/statistics/30d/solarPercentage"@, payload) == site_effect(SiteMetric::SelfSufficiencyPct, payload),
{
    reveal_strlit("site/grid/power");
    reveal_strlit("/site/grid/power");
    reveal_strlit("site/gridPower");
    reveal_strlit("/site/gridPower");
    reveal_strlit("site/grid/Power");
    reveal_strlit("/site/grid/Power");
    reveal_strlit("site/grid/energy");
    reveal_strlit("/site/grid/energy");
    reveal_strlit("site/grid/currents/1");
    reveal_strlit("/site/grid/currents/1");
    reveal_strlit("site/grid/currents/2");
    reveal_strlit("/site/grid/currents/2");
    reveal_strlit("site/grid/currents/3");
    reveal_strlit("/site/grid/currents/3");
    reveal_strlit("site/battery/power");
    reveal_strlit("/site/battery/power");
    reveal_strlit("site/batteryPower");
    reveal_strlit("/site/batteryPower");
    reveal_strlit("site/battery/soc");
    reveal_strlit("/site/battery/soc");
    reveal_strlit("site/batterySoc");
    reveal_strlit("/site/batterySoc");
    reveal_strlit("site/battery/energy");
    reveal_strlit("/site/battery/energy");
    reveal_strlit("site/battery/capacity");
    reveal_strlit("/site/battery/capacity");
    reveal_strlit("site/pvPower");
    reveal_strlit("/site/pvPower");
    reveal_strlit("site/pvEnergy");
    reveal_strlit("/site/pvEnergy");
    reveal_strlit("site/homePower");
    reveal_strlit("/site/homePower");
    reveal_strlit("site/greenShareHome");
    reveal_strlit("/site/greenShareHome");
    reveal_strlit("site/statistics/30d/solarPercentage");
    reveal_strlit("/site/statistics/30d/solarPercentage");
    assert("site/grid/power"@.len() != "site/gridPower"@.len());
    assert("site/grid/power"@[10] != "site/grid/Power"@[10]);
    assert("site/grid/power"@.len() != "site/grid/energy"@.len());
    assert("site/grid/power"@.len() != "site/grid/currents/1"@.len());
    assert("site/grid/power"@.len() != "site/grid/currents/2"@.len());
    assert("site/grid/power"@.len() != "site/grid/currents/3"@.len());
    assert("site/grid/power"@.len() != "site/battery/power"@.len());
    assert("site/grid/power"@.len() != "site/batteryPower"@.len());
    assert("site/grid/power"@.len() != "site/battery/soc"@.len());
    assert("site/grid/power"@[5] != "site/batterySoc"@[5]);
    assert("site/grid/power"@.len() != "site/battery/energy"@.len());
    assert("site/grid/power"@.len() != "site/battery/capacity"@.len());
    assert("site/grid/power"@.len() != "site/pvPower"@.len());
    assert("site/grid/power"@.len() != "site/pvEnergy"@.len());
    assert("site/grid/power"@.len() != "site/homePower"@.len());
    assert("site/grid/power"@.len() != "site/greenShareHome"@.len());
    assert("site/grid/power"@.len() != "site/statistics/30d/solarPercentage"@.len());
    assert("site/gridPower"@.len() != "site/grid/Power"@.len());
    assert("site/gridPower"@.len() != "site/grid/energy"@.len());
    assert("site/gridPower"@.len() != "site/grid/currents/1"@.len());
    assert("site/gridPower"@.len() != "site/grid/currents/2"@.len());
    assert("site/gridPower"@.len() != "site/grid/currents/3"@.len());
    assert("site/gridPower"@.len() != "site/battery/power"@.len());
    assert("site/gridPower"@.len() != "site/batteryPower"@.len());
    assert("site/gridPower"@.len() != "site/battery/soc"@.len());
    assert("site/gridPower"@.len() != "site/batterySoc"@.len());
    assert("site/gridPower"@.len() != "site/battery/energy"@.len());
    assert("site/gridPower"@.len() != "site/battery/capacity"@.len());
    assert("site/gridPower"@.len() != "site/pvPower"@.len());
    assert("site/gridPower"@.len() != "site/pvEnergy"@.len());
    assert("site/gridPower"@[5] != "site/homePower"@[5]);
    assert("site/gridPower"@.len() != "site/greenShareHome"@.len());
    assert("site/gridPower"@.len() != "site/statistics/30d/solarPercentage"@.len());
    assert("site/grid/Power"@.len() != "site/grid/energy"@.len());
    assert("site/grid/Power"@.len() != "site/grid/currents/1"@.len());
    assert("site/grid/Power"@.len() != "site/grid/currents/2"@.len());
    assert("site/grid/Power"@.len() != "site/grid/currents/3"@.len());
    assert("site/grid/Power"@.len() != "site/battery/power"@.len());
    assert("site/grid/Power"@.len() != "site/batteryPower"@.len());
    assert("site/grid/Power"@.len() != "site/battery/soc"@.len());
    assert("site/grid/Power"@[5] != "site/batterySoc"@[5]);
    assert("site/grid/Power"@.len() != "site/battery/energy"@.len());
    assert("site/grid/Power"@.len() != "site/battery/capacity"@.len());
    assert("site/grid/Power"@.len() != "site/pvPower"@.len());
    assert("site/grid/Power"@.len() != "site/pvEnergy"@.len());
    assert("site/grid/Power"@.len() != "site/homePower"@.len());
    assert("site/grid/Power"@.len() != "site/greenShareHome"@.len());
    assert("site/grid/Power"@.len() != "site/statistics/30d/solarPercentage"@.len());
    assert("site/grid/energy"@.len() != "site/grid/currents/1"@.len());
    assert("site/grid/energy"@.len() != "site/grid/currents/2"@.len());
    assert("site/grid/energy"@.len() != "site/grid/currents/3"@.len());
    assert("site/grid/energy"@.len() != "site/battery/power"@.len());
    assert("site/grid/energy"@.len() != "site/batteryPower"@.len());
    assert("site/grid/energy"@[5] != "site/battery/soc"@[5]);
    assert("site/grid/energy"@.len() != "site/batterySoc"@.len());
    assert("site/grid/energy"@.len() != "site/battery/energy"@.len());
    assert("site/grid/energy"@.len() != "site/battery/capacity"@.len());
    assert("site/grid/energy"@.len() != "site/pvPower"@.len());
    assert("site/grid/energy"@.len() != "site/pvEnergy"@.len());
    assert("site/grid/energy"@.len() != "site/homePower"@.len());
    assert("site/grid/energy"@.len() != "site/greenShareHome"@.len());
    assert("site/grid/energy"@.len() != "site/statistics/30d/solarPercentage"@.len());
    assert("site/grid/currents/1"@[19] != "site/grid/currents/2"@[19]);
    assert("site/grid/currents/1"@[19] != "site/grid/currents/3"@[19]);
    assert("site/grid/currents/1"@.len() != "site/battery/power"@.len());
    assert("site/grid/currents/1"@.len() != "site/batteryPower"@.len());
    assert("site/grid/currents/1"@.len() != "site/battery/soc"@.len());
    assert("site/grid/currents/1"@.len() != "site/batterySoc"@.len());
    assert("site/grid/currents/1"@.len() != "site/battery/energy"@.len());
    assert("site/grid/currents/1"@.len() != "site/battery/capacity"@.len());
    assert("site/grid/currents/1"@.len() != "site/pvPower"@.len());
    assert("site/grid/currents/1"@.len() != "site/pvEnergy"@.len());
    assert("site/grid/currents/1"@.len() != "site/homePower"@.len());
    assert("site/grid/currents/1"@.len() != "site/greenShareHome"@.len());
    assert("site/grid/currents/1"@.len() != "site/statistics/30d/solarPercentage"@.len());
    assert("site/grid/currents/2"@[19] != "site/grid/currents/3"@[19]);
    assert("site/grid/currents/2"@.len() != "site/battery/power"@.len());
    assert("site/grid/currents/2"@.len() != "site/batteryPower"@.len());
    assert("site/grid/currents/2"@.len() != "site/battery/soc"@.len());
    assert("site/grid/currents/2"@.len() != "site/batterySoc"@.len());
    assert("site/grid/currents/2"@.len() != "site/battery/energy"@.len());
    assert("site/grid/currents/2"@.len() != "site/battery/capacity"@.len());
    assert("site/grid/currents/2"@.len() != "site/pvPower"@.len());
    assert("site/grid/currents/2"@.len() != "site/pvEnergy"@.len());
    assert("site/grid/currents/2"@.len() != "site/homePower"@.len());
    assert("site/grid/currents/2"@.len() != "site/greenShareHome"@.len());
    assert("site/grid/currents/2"@.len() != "site/statistics/30d/solarPercentage"@.len());
    assert("site/grid/currents/3"@.len() != "site/battery/power"@.len());
    assert("site/grid/currents/3"@.len() != "site/batteryPower"@.len());
    assert("site/grid/currents/3"@.len() != "site/battery/soc"@.len());
    assert("site/grid/currents/3"@.len() != "site/batterySoc"@.len());
    assert("site/grid/currents/3"@.len() != "site/battery/energy"@.len());
    assert("site/grid/currents/3"@.len() != "site/battery/capacity"@.len());
    assert("site/grid/currents/3"@.len() != "site/pvPower"@.len());
    assert("site/grid/currents/3"@.len() != "site/pvEnergy"@.len());
    assert("site/grid/currents/3"@.len() != "site/homePower"@.len());
    assert("site/grid/currents/3"@.len() != "site/greenShareHome"@.len());
    assert("site/grid/currents/3"@.len() != "site/statistics/30d/solarPercentage"@.len());
    assert("site/battery/power"@.len() != "site/batteryPower"@.len());
    assert("site/battery/power"@.len() != "site/battery/soc"@.len());
    assert("site/battery/power"@.len() != "site/batterySoc"@.len());
    assert("site/battery/power"@.len() != "site/battery/energy"@.len());
    assert("site/battery/power"@.len() != "site/battery/capacity"@.len());
    assert("site/battery/power"@.len() != "site/pvPower"@.len());
    assert("site/battery/power"@.len() != "site/pvEnergy"@.len());
    assert("site/battery/power"@.len() != "site/homePower"@.len());
    assert("site/battery/power"@.len() != "site/greenShareHome"@.len());
    assert("site/battery/power"@.len() != "site/statistics/30d/solarPercentage"@.len());
    assert("site/batteryPower"@.len() != "site/battery/soc"@.len());
    assert("site/batteryPower"@.len() != "site/batterySoc"@.len());
    assert("site/batteryPower"@.len() != "site/battery/energy"@.len());
    assert("site/batteryPower"@.len() != "site/battery/capacity"@.len());
    assert("site/batteryPower"@.len() != "site/pvPower"@.len());
    assert("site/batteryPower"@.len() != "site/pvEnergy"@.len());
    assert("site/batteryPower"@.len() != "site/homePower"@.len());
    assert("site/batteryPower"@.len() != "site/greenShareHome"@.len());
    assert("site/batteryPower"@.len() != "site/statistics/30d/solarPercentage"@.len());
    assert("site/battery/soc"@.len() != "site/batterySoc"@.len());
    assert("site/battery/soc"@.len() != "site/battery/energy"@.len());
    assert("site/battery/soc"@.len() != "site/battery/capacity"@.len());
    assert("site/battery/soc"@.len() != "site/pvPower"@.len());
    assert("site/battery/soc"@.len() != "site/pvEnergy"@.len());
    assert("site/battery/soc"@.len() != "site/homePower"@.len());
    assert("site/battery/soc"@.len() != "site/greenShareHome"@.len());
    assert("site/battery/soc"@.len() != "site/statistics/30d/solarPercentage"@.len());
    assert("site/batterySoc"@.len() != "site/battery/energy"@.len());
    assert("site/batterySoc"@.len() != "site/battery/capacity"@.len());
    assert("site/batterySoc"@.len() != "site/pvPower"@.len());
    assert("site/batterySoc"@.len() != "site/pvEnergy"@.len());
    assert("site/batterySoc"@.len() != "site/homePower"@.len());
    assert("site/batterySoc"@.len() != "site/greenShareHome"@.len());
    assert("site/batterySoc"@.len() != "site/statistics/30d/solarPercentage"@.len());
    assert("site/battery/energy"@.len() != "site/battery/capacity"@.len());
    assert("site/battery/energy"@.len() != "site/pvPower"@.len());
    assert("site/battery/energy"@.len() != "site/pvEnergy"@.len());
    assert("site/battery/energy"@.len() != "site/homePower"@.len());
    assert("site/battery/energy"@[5] != "site/greenShareHome"@[5]);
    assert("site/battery/energy"@.len() != "site/statistics/30d/solarPercentage"@.len());
    assert("site/battery/capacity"@.len() != "site/pvPower"@.len());
    assert("site/battery/capacity"@.len() != "site/pvEnergy"@.len());
    assert("site/battery/capacity"@.len() != "site/homePower"@.len());
    assert("site/battery/capacity"@.len() != "site/greenShareHome"@.len());
    assert("site/battery/capacity"@.len() != "site/statistics/30d/solarPercentage"@.len());
    assert("site/pvPower"@.len() != "site/pvEnergy"@.len());
    assert("site/pvPower"@.len() != "site/homePower"@.len());
    assert("site/pvPower"@.len() != "site/greenShareHome"@.len());
    assert("site/pvPower"@.len() != "site/statistics/30d/solarPercentage"@.len());
    assert("site/pvEnergy"@.len() != "site/homePower"@.len());
    assert("site/pvEnergy"@.len() != "site/greenShareHome"@.len());
    assert("site/pvEnergy"@.len() != "site/statistics/30d/solarPercentage"@.len());
    assert("site/homePower"@.len() != "site/greenShareHome"@.len());
    assert("site/homePower"@.len() != "site/statistics/30d/solarPercentage"@.len());
    assert("site/greenShareHome"@.len() != "site/statistics/30d/solarPercentage"@.len());
    lemma_topic_suffix(prefix, "/site/grid/power"@);
    assert("/site/grid/power"@.drop_first() =~= "site/grid/power"@);
    assert(site_metric_of("site/grid/power"@) == Some(SiteMetric::GridPower));
    lemma_topic_suffix(prefix, "/site/gridPower"@);
    assert("/site/gridPower"@.drop_first() =~= "site/gridPower"@);
    assert(site_metric_of("site/gridPower"@) == Some(SiteMetric::GridPower));
    lemma_topic_suffix(prefix, "/site/grid/Power"@);
    assert("/site/grid/Power"@.drop_first() =~= "site/grid/Power"@);
    assert(site_metric_of("site/grid/Power"@) == Some(SiteMetric::GridPower));
    lemma_topic_suffix(prefix, "/site/grid/energy"@);
    assert("/site/grid/energy"@.drop_first() =~= "site/grid/energy"@);
    assert(site_metric_of("site/grid/energy"@) == Some(SiteMetric::GridEnergy));
    lemma_topic_suffix(prefix, "/site/grid/currents/1"@);
    assert("/site/grid/currents/1"@.drop_first() =~= "site/grid/currents/1"@);
    assert(site_metric_of("site/grid/currents/1"@) == Some(SiteMetric::GridCurrentL1));
    lemma_topic_suffix(prefix, "/site/grid/currents/2"@);
    assert("/site/grid/currents/2"@.drop_first() =~= "site/grid/currents/2"@);
    assert(site_metric_of("site/grid/currents/2"@) == Some(SiteMetric::GridCurrentL2));
    lemma_topic_suffix(prefix, "/site/grid/currents/3"@);
    assert("/site/grid/currents/3"@.drop_first() =~= "site/grid/currents/3"@);
    assert(site_metric_of("site/grid/currents/3"@) == Some(SiteMetric::GridCurrentL3));
    lemma_topic_suffix(prefix, "/site/battery/power"@);
    assert("/site/battery/power"@.drop_first() =~= "site/battery/power"@);
    assert(site_metric_of("site/battery/power"@) == Some(SiteMetric::BatteryPower));
    lemma_topic_suffix(prefix, "/site/batteryPower"@);
    assert("/site/batteryPower"@.drop_first() =~= "site/batteryPower"@);
    assert(site_metric_of("site/batteryPower"@) == Some(SiteMetric::BatteryPower));
    lemma_topic_suffix(prefix, "/site/battery/soc"@);
    assert("/site/battery/soc"@.drop_first() =~= "site/battery/soc"@);
    assert(site_metric_of("site/battery/soc"@) == Some(SiteMetric::BatterySoc));
    lemma_topic_suffix(prefix, "/site/batterySoc"@);
    assert("/site/batterySoc"@.drop_first() =~= "site/batterySoc"@);
    assert(site_metric_of("site/batterySoc"@) == Some(SiteMetric::BatterySoc));
    lemma_topic_suffix(prefix, "/site/battery/energy"@);
    assert("/site/battery/energy"@.drop_first() =~= "site/battery/energy"@);
    assert(site_metric_of("site/battery/energy"@) == Some(SiteMetric::BatteryEnergy));
    lemma_topic_suffix(prefix, "/site/battery/capacity"@);
    assert("/site/battery/capacity"@.drop_first() =~= "site/battery/capacity"@);
    assert(site_metric_of("site/battery/capacity"@) == Some(SiteMetric::BatteryCapacity));
    lemma_topic_suffix(prefix, "/site/pvPower"@);
    assert("/site/pvPower"@.drop_first() =~= "site/pvPower"@);
    assert(site_metric_of("site/pvPower"@) == Some(SiteMetric::PvPower));
    lemma_topic_suffix(prefix, "/site/pvEnergy"@);
    assert("/site/pvEnergy"@.drop_first() =~= "site/pvEnergy"@);
    assert(site_metric_of("site/pvEnergy"@) == Some(SiteMetric::PvEnergy));
    lemma_topic_suffix(prefix, "/site/homePower"@);
    assert("/site/homePower"@.drop_first() =~= "site/homePower"@);
    assert(site_metric_of("site/homePower"@) == Some(SiteMetric::HomePower));
    lemma_topic_suffix(prefix, "/site/greenShareHome"@);
    assert("/site/greenShareHome"@.drop_first() =~= "site/greenShareHome"@);
    assert(site_metric_of("site/greenShareHome"@) == Some(SiteMetric::GreenShareHome));
    lemma_topic_suffix(prefix, "/site/statistics/30d/solarPercentage"@);
    assert("/site/statistics/30d/solarPercentage"@.drop_first() =~= "site/statistics/30d/solarPercentage"@);
    assert(site_metric_of("site/statistics/30d/solarPercentage"@) == Some(SiteMetric::SelfSufficiencyPct));
}

/// The loadpoint fields that evcc publishes, for every payload: each field
/// name carries the reading it names (`chargePower` the charge power,
/// `chargedEnergy` the session energy, `chargeTotalImport` the meter total,
/// `vehicleName` and `vehicleTitle` the vehicle name, the flags read as
/// booleans, and so on).
pub proof fn lemma_loadpoint_field_table(value: Seq<char>)
    ensures
        loadpoint_update_of("chargePower"@, value) == LoadpointUpdateView::Number(LoadpointMetric::ChargePower, value),
        loadpoint_update_of("chargedEnergy"@, value) == LoadpointUpdateView::Number(LoadpointMetric::ChargedEnergy, value),
        loadpoint_update_of("chargeTotalImport"@, value) == LoadpointUpdateView::Number(LoadpointMetric::ChargeTotalImport, value),
        loadpoint_update_of("charging"@, value) == LoadpointUpdateView::Flag(LoadpointFlag::Charging, parse_bool_spec(value)),
        loadpoint_update_of("vehicleName"@, value) == LoadpointUpdateView::Text(LoadpointText::VehicleName, value),
        loadpoint_update_of("vehicleTitle"@, value) == LoadpointUpdateView::Text(LoadpointText::VehicleName, value),
        loadpoint_update_of("mode"@, value) == LoadpointUpdateView::Text(LoadpointText::Mode, value),
        loadpoint_update_of("title"@, value) == LoadpointUpdateView::Text(LoadpointText::Title, value),
        loadpoint_update_of("vehicleSoc"@, value) == LoadpointUpdateView::Number(LoadpointMetric::VehicleSoc, value),
        loadpoint_update_of("vehicleRange"@, value) == LoadpointUpdateView::Number(LoadpointMetric::VehicleRange, value),
        loadpoint_update_of("connected"@, value) == LoadpointUpdateView::Flag(LoadpointFlag::Connected, parse_bool_spec(value)),
        loadpoint_update_of("enabled"@, value) == LoadpointUpdateView::Flag(LoadpointFlag::Enabled, parse_bool_spec(value)),
{
    reveal_strlit("chargePower");
    reveal_strlit("chargedEnergy");
    reveal_strlit("chargeTotalImport");
    reveal_strlit("charging");
    reveal_strlit("vehicleName");
    reveal_strlit("vehicleTitle");
    reveal_strlit("mode");
    reveal_strlit("title");
    reveal_strlit("vehicleSoc");
    reveal_strlit("vehicleRange");
    reveal_strlit("connected");
    reveal_strlit("enabled");
    assert("chargePower"@.len() != "chargedEnergy"@.len());
    assert("chargePower"@.len() != "chargeTotalImport"@.len());
    assert("chargePower"@.len() != "charging"@.len());
    assert("chargePower"@[0] != "vehicleName"@[0]);
    assert("chargePower"@.len() != "vehicleTitle"@.len());
    assert("chargePower"@.len() != "mode"@.len());
    assert("chargePower"@.len() != "title"@.len());
    assert("chargePower"@.len() != "vehicleSoc"@.len());
    assert("chargePower"@.len() != "vehicleRange"@.len());
    assert("chargePower"@.len() != "connected"@.len());
    assert("chargePower"@.len() != "enabled"@.len());
    assert("chargedEnergy"@.len() != "chargeTotalImport"@.len());
    assert("chargedEnergy"@.len() != "charging"@.len());
    assert("chargedEnergy"@.len() != "vehicleName"@.len());
    assert("chargedEnergy"@.len() != "vehicleTitle"@.len());
    assert("chargedEnergy"@.len() != "mode"@.len());
    assert("chargedEnergy"@.len() != "title"@.len());
    assert("chargedEnergy"@.len() != "vehicleSoc"@.len());
    assert("chargedEnergy"@.len() != "vehicleRange"@.len());
    assert("chargedEnergy"@.len() != "connected"@.len());
    assert("chargedEnergy"@.len() != "enabled"@.len());
    assert("chargeTotalImport"@.len() != "charging"@.len());
    assert("chargeTotalImport"@.len() != "vehicleName"@.len());
    assert("chargeTotalImport"@.len() != "vehicleTitle"@.len());
    assert("chargeTotalImport"@.len() != "mode"@.len());
    assert("chargeTotalImport"@.len() != "title"@.len());
    assert("chargeTotalImport"@.len() != "vehicleSoc"@.len());
    assert("chargeTotalImport"@.len() != "vehicleRange"@.len());
    assert("chargeTotalImport"@.len() != "connected"@.len());
    assert("chargeTotalImport"@.len() != "enabled"@.len());
    assert("charging"@.len() != "vehicleName"@.len());
    assert("charging"@.len() != "vehicleTitle"@.len());
    assert("charging"@.len() != "mode"@.len());
    assert("charging"@.len() != "title"@.len());
    assert("charging"@.len() != "vehicleSoc"@.len());
    assert("charging"@.len() != "vehicleRange"@.len());
    assert("charging"@.len() != "connected"@.len());
    assert("charging"@.len() != "enabled"@.len());
    assert("vehicleName"@.len() != "vehicleTitle"@.len());
    assert("vehicleName"@.len() != "mode"@.len());
    assert("vehicleName"@.len() != "title"@.len());
    assert("vehicleName"@.len() != "vehicleSoc"@.len());
    assert("vehicleName"@.len() != "vehicleRange"@.len());
    assert("vehicleName"@.len() != "connected"@.len());
    assert("vehicleName"@.len() != "enabled"@.len());
    assert("vehicleTitle"@.len() != "mode"@.len());
    assert("vehicleTitle"@.len() != "title"@.len());
    assert("vehicleTitle"@.len() != "vehicleSoc"@.len());
    assert("vehicleTitle"@[7] != "vehicleRange"@[7]);
    assert("vehicleTitle"@.len() != "connected"@.len());
    assert("vehicleTitle"@.len() != "enabled"@.len());
    assert("mode"@.len() != "title"@.len());
    assert("mode"@.len() != "vehicleSoc"@.len());
    assert("mode"@.len() != "vehicleRange"@.len());
    assert("mode"@.len() != "connected"@.len());
    assert("mode"@.len() != "enabled"@.len());
    assert("title"@.len() != "vehicleSoc"@.len());
    assert("title"@.len() != "vehicleRange"@.len());
    assert("title"@.len() != "connected"@.len());
    assert("title"@.len() != "enabled"@.len());
    assert("vehicleSoc"@.len() != "vehicleRange"@.len());
    assert("vehicleSoc"@.len() != "connected"@.len());
    assert("vehicleSoc"@.len() != "enabled"@.len());
    assert("vehicleRange"@.len() != "connected"@.len());
    assert("vehicleRange"@.len() != "enabled"@.len());
    assert("connected"@.len() != "enabled"@.len());
}

} // verus!
