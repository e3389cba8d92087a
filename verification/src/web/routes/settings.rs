//! Settings page: the pairing QR code that hands a mobile client the
//! dashboard's address and API key.

use vstd::prelude::*;

use crate::config::Config;
use crate::text::decimal_text;
use crate::web::routes::views::build_settings_url;

verus! {

/// Settings page model: the pairing QR code as SVG, when a password is set.
pub struct SettingsTemplate {
    pub base_path: String,
    pub qr_svg: String,
    pub has_key: bool,
}

/// The compact JSON text that serde_json writes for an object with the two
/// string members `k1: v1` and `k2: v2`.
pub uninterp spec fn json_object2_of(k1: Seq<char>, v1: Seq<char>, k2: Seq<char>, v2: Seq<char>) -> Seq<char>;

/// A `serde_json::Map` with the string members `k1: v1` and `k2: v2`
/// (inserted in that order) as `serde_json::Value::Object`, written with
/// `to_string`. Claimed: the result is `json_object2_of(k1, v1, k2, v2)`; how
/// serde_json escapes and orders the members is left to serde_json.
#[verifier::external_body]
fn json_object2(k1: &str, v1: &str, k2: &str, v2: &str) -> (r: String)
    ensures
        r@ == json_object2_of(k1@, v1@, k2@, v2@),
{
    let mut m = serde_json::Map::new();
    m.insert(k1.to_string(), serde_json::Value::String(v1.to_string()));
    m.insert(k2.to_string(), serde_json::Value::String(v2.to_string()));
    serde_json::Value::Object(m).to_string()
}

/// Largest minimum size (pixels) asked of a QR drawing.
pub const MAX_QR_SIZE: u32 = 65536;

/// The SVG image of the QR code of `data` (its UTF-8 bytes), drawn at least
/// `min_size` pixels wide and high, with or without a quiet zone, or nothing
/// where the data does not fit in a QR code.
pub uninterp spec fn qr_svg_of(data: Seq<char>, min_size: u32, quiet_zone: bool) -> Option<Seq<char>>;

/// `qrcode::QrCode::new` on the bytes of `data`, rendered with the SVG
/// renderer, `quiet_zone(quiet_zone)` and `min_dimensions(min_size,
/// min_size)`. Claimed: the result is `qr_svg_of(data, min_size,
/// quiet_zone)`; which symbol version and mask the encoder picks, and the SVG
/// text, are left to qrcode. `min_dimensions` adds the size to the module
/// count in `u32`, so sizes are bounded.
#[verifier::external_body]
fn qr_svg(data: &str, min_size: u32, quiet_zone: bool) -> (r: Option<String>)
    requires
        min_size <= MAX_QR_SIZE,
    ensures
        match r {
            Some(s) => qr_svg_of(data@, min_size, quiet_zone) == Some(s@),
            None => qr_svg_of(data@, min_size, quiet_zone) is None,
        },
{
    qrcode::QrCode::new(data.as_bytes()).ok().map(
        |code|
            code.render::<qrcode::render::svg::Color>().quiet_zone(quiet_zone).min_dimensions(
                min_size,
                min_size,
            ).build(),
    )
}

/// The JSON text a mobile client pairs with: the object
/// `{"url": url, "key": key}`.
pub open spec fn pairing_payload_of(url: Seq<char>, key: Seq<char>) -> Seq<char> {
    json_object2_of("url"@, url, "key"@, key)
}

/// The pairing payload for `url` and `key`.
pub fn pairing_payload(url: &str, key: &str) -> (r: String)
    ensures
        r@ == pairing_payload_of(url@, key@),
{
    json_object2("url", url, "key", key)
}

/// The markup shown for a QR code: its SVG, or a notice where the code
/// could not be made.
pub open spec fn qr_markup_of(svg: Option<Seq<char>>) -> Seq<char> {
    match svg {
        Some(s) => s,
        None => "<p>Failed to generate QR code</p>"@,
    }
}

/// The markup shown for a QR code that was or was not made.
pub fn qr_markup(svg: Option<String>) -> (r: String)
    ensures
        r@ == qr_markup_of(
            match svg {
                Some(s) => Some(s@),
                None => None,
            },
        ),
{
    match svg {
        Some(s) => s,
        None => String::from_str("<p>Failed to generate QR code</p>"),
    }
}

/// The pairing QR markup for a client of the dashboard at `url` with the
/// API key `key`: nothing without a key, else the QR code (with a quiet
/// zone) of the JSON object `{"url", "key"}` drawn at least `min_size`
/// pixels wide.
pub open spec fn pairing_qr_of(key: Seq<char>, url: Seq<char>, min_size: u32) -> Seq<char> {
    if key.len() == 0 {
        Seq::empty()
    } else {
        qr_markup_of(qr_svg_of(pairing_payload_of(url, key), min_size, true))
    }
}

/// The pairing QR markup for `url` and `key`.
pub fn pairing_qr(key: &str, url: &str, min_size: u32) -> (r: String)
    requires
        min_size <= MAX_QR_SIZE,
    ensures
        r@ == pairing_qr_of(key@, url@, min_size),
{
    if key.unicode_len() == 0 {
        return String::new();
    }
    let payload = pairing_payload(url, key);
    let svg = qr_svg(payload.as_str(), min_size, true);
    qr_markup(svg)
}

/// The settings page for `config`: the pairing code of the dashboard
/// password for the configured address (`http://{host}:{port}{base_path}`), at
/// least 256 pixels wide.
pub fn settings_template(config: &Config) -> (r: SettingsTemplate)
    ensures
        r.base_path@ == config.server.base_path@,
        r.has_key == (config.auth.password@.len() > 0),
        r.qr_svg@ == pairing_qr_of(
            config.auth.password@,
            "http://"@ + config.server.host@ + ":"@ + decimal_text(config.server.port as nat)
                + config.server.base_path@,
            256,
        ),
{
    let url = build_settings_url(
        None,
        None,
        None,
        config.server.base_path.as_str(),
        config.server.host.as_str(),
        config.server.port,
    );
    let qr = pairing_qr(config.auth.password.as_str(), url.as_str(), 256);
    SettingsTemplate {
        base_path: config.server.base_path.clone(),
        qr_svg: qr,
        has_key: config.auth.password.unicode_len() > 0,
    }
}

} // verus!
