//! Navigation shell: the five views, the theme, tab bar, history ranges
//! and loadpoint card states, with the text each one renders as.

use vstd::prelude::*;

use crate::db::compare::{find_delta, first_delta_of, DeltaValue};
use crate::model::LoadpointState;
use crate::text::{
    chars_of, find_char, first_index_of, lemma_first_index_bounds, has_prefix, push_decimal, push_signed_decimal,
    decimal_text, signed_decimal_text, starts_with, trim, trim_bounds, trim_end, trim_start,
};

verus! {

/// The five application views, in tab-bar order.
#[derive(Clone, Copy, PartialEq, Eq, Structural, Debug)]
pub enum ViewId {
    Overview,
    Charging,
    History,
    Compare,
    Settings,
}

/// URL path of a view (without the base path).
pub open spec fn view_path(v: ViewId) -> Seq<char> {
    match v {
        ViewId::Overview => "/overview"@,
        ViewId::Charging => "/charging"@,
        ViewId::History => "/history"@,
        ViewId::Compare => "/compare"@,
        ViewId::Settings => "/settings"@,
    }
}

/// Display label of a view.
pub open spec fn view_label(v: ViewId) -> Seq<char> {
    match v {
        ViewId::Overview => "Overview"@,
        ViewId::Charging => "Charging"@,
        ViewId::History => "History"@,
        ViewId::Compare => "Compare"@,
        ViewId::Settings => "Settings"@,
    }
}

/// Slug of a view, for element ids and test attributes.
pub open spec fn view_slug(v: ViewId) -> Seq<char> {
    match v {
        ViewId::Overview => "overview"@,
        ViewId::Charging => "charging"@,
        ViewId::History => "history"@,
        ViewId::Compare => "compare"@,
        ViewId::Settings => "settings"@,
    }
}

/// Inline SVG icon of a view.
pub open spec fn view_icon(v: ViewId) -> Seq<char> {
    match v {
        ViewId::Overview => r#"<svg xmlns="http://www.w3.org/2000/svg" viewBox="0 0 24 24" fill="none" stroke="currentColor" stroke-width="2" stroke-linecap="round" stroke-linejoin="round"><path d="M3 9l9-7 9 7v11a2 2 0 01-2 2H5a2 2 0 01-2-2V9z"/><polyline points="9,22 9,12 15,12 15,22"/></svg>"#@,
        ViewId::Charging => r#"<svg xmlns="http://www.w3.org/2000/svg" viewBox="0 0 24 24" fill="none" stroke="currentColor" stroke-width="2" stroke-linecap="round" stroke-linejoin="round"><polygon points="13,2 3,14 12,14 11,22 21,10 12,10 13,2"/></svg>"#@,
        ViewId::History => r#"<svg xmlns="http://www.w3.org/2000/svg" viewBox="0 0 24 24" fill="none" stroke="currentColor" stroke-width="2" stroke-linecap="round" stroke-linejoin="round"><polyline points="22,12 18,12 15,21 9,3 6,12 2,12"/></svg>"#@,
        ViewId::Compare => r#"<svg xmlns="http://www.w3.org/2000/svg" viewBox="0 0 24 24" fill="none" stroke="currentColor" stroke-width="2" stroke-linecap="round" stroke-linejoin="round"><line x1="18" y1="20" x2="18" y2="10"/><line x1="12" y1="20" x2="12" y2="4"/><line x1="6" y1="20" x2="6" y2="14"/></svg>"#@,
        ViewId::Settings => r#"<svg xmlns="http://www.w3.org/2000/svg" viewBox="0 0 24 24" fill="none" stroke="currentColor" stroke-width="2" stroke-linecap="round" stroke-linejoin="round"><circle cx="12" cy="12" r="3"/><path d="M19.4 15a1.65 1.65 0 00.33 1.82l.06.06a2 2 0 010 2.83 2 2 0 01-2.83 0l-.06-.06a1.65 1.65 0 00-1.82-.33 1.65 1.65 0 00-1 1.51V21a2 2 0 01-4 0v-.09a1.65 1.65 0 00-1.08-1.51 1.65 1.65 0 00-1.82.33l-.06.06a2 2 0 01-2.83-2.83l.06-.06a1.65 1.65 0 00.33-1.82 1.65 1.65 0 00-1.51-1H3a2 2 0 010-4h.09a1.65 1.65 0 001.51-1.08 1.65 1.65 0 00-.33-1.82l-.06-.06a2 2 0 012.83-2.83l.06.06a1.65 1.65 0 001.82.33H9a1.65 1.65 0 001-1.51V3a2 2 0 014 0v.09a1.65 1.65 0 001.08 1.51 1.65 1.65 0 001.82-.33l.06-.06a2 2 0 012.83 2.83l-.06.06a1.65 1.65 0 00-.33 1.82V9a1.65 1.65 0 001.51 1H21a2 2 0 010 4h-.09a1.65 1.65 0 00-1.51 1.08z"/></svg>"#@,
    }
}

/// The view that a request path selects: the first of charging, history,
/// compare and settings whose path it starts with, and the overview otherwise.
pub open spec fn view_of_path(p: Seq<char>) -> ViewId {
    if has_prefix(p, "/charging"@) {
        ViewId::Charging
    } else if has_prefix(p, "/history"@) {
        ViewId::History
    } else if has_prefix(p, "/compare"@) {
        ViewId::Compare
    } else if has_prefix(p, "/settings"@) {
        ViewId::Settings
    } else {
        ViewId::Overview
    }
}

/// All views in tab-bar order.
pub open spec fn all_views() -> Seq<ViewId> {
    seq![ViewId::Overview, ViewId::Charging, ViewId::History, ViewId::Compare, ViewId::Settings]
}

fn str_has_prefix(s: &str, p: &str) -> (r: bool)
    ensures
        r == has_prefix(s@, p@),
{
    let sv = chars_of(s);
    let pv = chars_of(p);
    starts_with(sv.as_slice(), pv.as_slice())
}

impl ViewId {
    /// The view selected by a request path.
    pub fn from_path(path: &str) -> (r: Self)
        ensures
            r == view_of_path(path@),
    {
        if str_has_prefix(path, "/charging") {
            ViewId::Charging
        } else if str_has_prefix(path, "/history") {
            ViewId::History
        } else if str_has_prefix(path, "/compare") {
            ViewId::Compare
        } else if str_has_prefix(path, "/settings") {
            ViewId::Settings
        } else {
            ViewId::Overview
        }
    }

    /// URL path for this view (without base path).
    pub fn path(&self) -> (r: &'static str)
        ensures
            r@ == view_path(*self),
    {
        match self {
            ViewId::Overview => "/overview",
            ViewId::Charging => "/charging",
            ViewId::History => "/history",
            ViewId::Compare => "/compare",
            ViewId::Settings => "/settings",
        }
    }

    /// Human-readable label.
    pub fn label(&self) -> (r: &'static str)
        ensures
            r@ == view_label(*self),
    {
        match self {
            ViewId::Overview => "Overview",
            ViewId::Charging => "Charging",
            ViewId::History => "History",
            ViewId::Compare => "Compare",
            ViewId::Settings => "Settings",
        }
    }

    /// Kebab-case slug for ids and test attributes.
    pub fn slug(&self) -> (r: &'static str)
        ensures
            r@ == view_slug(*self),
    {
        match self {
            ViewId::Overview => "overview",
            ViewId::Charging => "charging",
            ViewId::History => "history",
            ViewId::Compare => "compare",
            ViewId::Settings => "settings",
        }
    }

    /// Inline SVG icon for the tab.
    pub fn icon_svg(&self) -> (r: &'static str)
        ensures
            r@ == view_icon(*self),
    {
        match self {
            ViewId::Overview => r#"<svg xmlns="http://www.w3.org/2000/svg" viewBox="0 0 24 24" fill="none" stroke="currentColor" stroke-width="2" stroke-linecap="round" stroke-linejoin="round"><path d="M3 9l9-7 9 7v11a2 2 0 01-2 2H5a2 2 0 01-2-2V9z"/><polyline points="9,22 9,12 15,12 15,22"/></svg>"#,
            ViewId::Charging => r#"<svg xmlns="http://www.w3.org/2000/svg" viewBox="0 0 24 24" fill="none" stroke="currentColor" stroke-width="2" stroke-linecap="round" stroke-linejoin="round"><polygon points="13,2 3,14 12,14 11,22 21,10 12,10 13,2"/></svg>"#,
            ViewId::History => r#"<svg xmlns="http://www.w3.org/2000/svg" viewBox="0 0 24 24" fill="none" stroke="currentColor" stroke-width="2" stroke-linecap="round" stroke-linejoin="round"><polyline points="22,12 18,12 15,21 9,3 6,12 2,12"/></svg>"#,
            ViewId::Compare => r#"<svg xmlns="http://www.w3.org/2000/svg" viewBox="0 0 24 24" fill="none" stroke="currentColor" stroke-width="2" stroke-linecap="round" stroke-linejoin="round"><line x1="18" y1="20" x2="18" y2="10"/><line x1="12" y1="20" x2="12" y2="4"/><line x1="6" y1="20" x2="6" y2="14"/></svg>"#,
            ViewId::Settings => r#"<svg xmlns="http://www.w3.org/2000/svg" viewBox="0 0 24 24" fill="none" stroke="currentColor" stroke-width="2" stroke-linecap="round" stroke-linejoin="round"><circle cx="12" cy="12" r="3"/><path d="M19.4 15a1.65 1.65 0 00.33 1.82l.06.06a2 2 0 010 2.83 2 2 0 01-2.83 0l-.06-.06a1.65 1.65 0 00-1.82-.33 1.65 1.65 0 00-1 1.51V21a2 2 0 01-4 0v-.09a1.65 1.65 0 00-1.08-1.51 1.65 1.65 0 00-1.82.33l-.06.06a2 2 0 01-2.83-2.83l.06-.06a1.65 1.65 0 00.33-1.82 1.65 1.65 0 00-1.51-1H3a2 2 0 010-4h.09a1.65 1.65 0 001.51-1.08 1.65 1.65 0 00-.33-1.82l-.06-.06a2 2 0 012.83-2.83l.06.06a1.65 1.65 0 001.82.33H9a1.65 1.65 0 001-1.51V3a2 2 0 014 0v.09a1.65 1.65 0 001.08 1.51 1.65 1.65 0 001.82-.33l.06-.06a2 2 0 012.83 2.83l-.06.06a1.65 1.65 0 00-.33 1.82V9a1.65 1.65 0 001.51 1H21a2 2 0 010 4h-.09a1.65 1.65 0 00-1.51 1.08z"/></svg>"#,
        }
    }

    /// All views in tab-bar order.
    pub fn all() -> (r: &'static [ViewId])
        ensures
            r@ == all_views(),
    {
        let r: &'static [ViewId] = &[
            ViewId::Overview,
            ViewId::Charging,
            ViewId::History,
            ViewId::Compare,
            ViewId::Settings,
        ];
        assert(r@ =~= all_views());
        r
    }
}

/// Theme preference; dark is the default.
#[derive(Clone, Copy, PartialEq, Eq, Structural, Debug)]
pub enum Theme {
    Dark,
    Light,
}

impl Default for Theme {
    fn default() -> (r: Self)
        ensures
            r == Theme::Dark,
    {
        Theme::Dark
    }
}

/// The theme a cookie value selects: light for `light` (surrounding
/// whitespace ignored), dark for anything else.
pub open spec fn theme_of_cookie(value: Seq<char>) -> Theme {
    if trim(value) == "light"@ {
        Theme::Light
    } else {
        Theme::Dark
    }
}

/// The `data-theme` value of a theme.
pub open spec fn theme_text(t: Theme) -> Seq<char> {
    match t {
        Theme::Dark => "dark"@,
        Theme::Light => "light"@,
    }
}

impl Theme {
    /// Parse from a cookie value.
    pub fn from_cookie(value: &str) -> (r: Self)
        ensures
            r == theme_of_cookie(value@),
    {
        let v = chars_of(value);
        let (a, b) = trim_bounds(v.as_slice());
        if crate::text::rest_equals(&v.as_slice()[a..b], 0, chars_of("light").as_slice()) {
            assert(v@.subrange(a as int, b as int).subrange(0, (b - a) as int) =~= v@.subrange(a as int, b as int));
            Theme::Light
        } else {
            assert(v@.subrange(a as int, b as int).subrange(0, (b - a) as int) =~= v@.subrange(a as int, b as int));
            Theme::Dark
        }
    }

    /// CSS `data-theme` attribute value.
    pub fn as_str(&self) -> (r: &'static str)
        ensures
            r@ == theme_text(*self),
    {
        match self {
            Theme::Dark => "dark",
            Theme::Light => "light",
        }
    }
}

/// Tab item for template rendering.
pub struct TabItem {
    pub view: ViewId,
    pub is_active: bool,
}

/// Tabs for every view in tab-bar order, with only `active` marked active.
pub fn build_tabs(active: ViewId) -> (r: Vec<TabItem>)
    ensures
        r@.len() == all_views().len(),
        forall|i: int|
            0 <= i < r@.len() ==> (#[trigger] r@[i]).view == all_views()[i] && r@[i].is_active == (
            all_views()[i] == active),
{
    let all = ViewId::all();
    let mut tabs: Vec<TabItem> = Vec::new();
    let mut i: usize = 0;
    while i < all.len()
        invariant
            all@ == all_views(),
            i <= all@.len(),
            tabs@.len() == i,
            forall|j: int|
                0 <= j < i ==> (#[trigger] tabs@[j]).view == all_views()[j] && tabs@[j].is_active == (
                all_views()[j] == active),
        decreases all@.len() - i,
    {
        let view = all[i];
        tabs.push(TabItem { view, is_active: view == active });
        i = i + 1;
    }
    tabs
}

/// Direction of a delta indicator.
#[derive(Clone, Copy, PartialEq, Eq, Structural, Debug)]
pub enum DeltaDirection {
    Up,
    Down,
    Neutral,
}

impl DeltaDirection {
    pub fn css_class(&self) -> (r: &'static str)
        ensures
            r@ == (match self {
                DeltaDirection::Up => "delta-up"@,
                DeltaDirection::Down => "delta-down"@,
                DeltaDirection::Neutral => "delta-neutral"@,
            }),
    {
        match self {
            DeltaDirection::Up => "delta-up",
            DeltaDirection::Down => "delta-down",
            DeltaDirection::Neutral => "delta-neutral",
        }
    }

    pub fn arrow_svg(&self) -> (r: &'static str)
        ensures
            r@ == (match self {
                DeltaDirection::Up => r#"<svg class="delta-arrow" viewBox="0 0 12 12" aria-hidden="true"><path d="M6 2l4 5H2z" fill="currentColor"/></svg>"#@,
                DeltaDirection::Down => r#"<svg class="delta-arrow" viewBox="0 0 12 12" aria-hidden="true"><path d="M6 10l4-5H2z" fill="currentColor"/></svg>"#@,
                DeltaDirection::Neutral => ""@,
            }),
    {
        match self {
            DeltaDirection::Up => r#"<svg class="delta-arrow" viewBox="0 0 12 12" aria-hidden="true"><path d="M6 2l4 5H2z" fill="currentColor"/></svg>"#,
            DeltaDirection::Down => r#"<svg class="delta-arrow" viewBox="0 0 12 12" aria-hidden="true"><path d="M6 10l4-5H2z" fill="currentColor"/></svg>"#,
            DeltaDirection::Neutral => "",
        }
    }
}

/// The card state for the `connected` and `charging` readings.
pub open spec fn card_state_of(connected: Option<bool>, charging: Option<bool>) -> LoadpointCardState {
    if connected == Some(true) && charging == Some(true) {
        LoadpointCardState::Active
    } else if connected == Some(true) {
        LoadpointCardState::Idle
    } else {
        LoadpointCardState::Disconnected
    }
}

/// State of a loadpoint card on the Charging view.
#[derive(Clone, Copy, PartialEq, Eq, Structural, Debug)]
pub enum LoadpointCardState {
    Active,
    Idle,
    Disconnected,
}

impl LoadpointCardState {
    pub fn css_class(&self) -> (r: &'static str)
        ensures
            r@ == (match self {
                LoadpointCardState::Active => "lp-active"@,
                LoadpointCardState::Idle => "lp-idle"@,
                LoadpointCardState::Disconnected => "lp-disconnected"@,
            }),
    {
        match self {
            LoadpointCardState::Active => "lp-active",
            LoadpointCardState::Idle => "lp-idle",
            LoadpointCardState::Disconnected => "lp-disconnected",
        }
    }

    pub fn status_text(&self) -> (r: &'static str)
        ensures
            r@ == (match self {
                LoadpointCardState::Active => "Charging"@,
                LoadpointCardState::Idle => "Connected — waiting"@,
                LoadpointCardState::Disconnected => "No vehicle"@,
            }),
    {
        match self {
            LoadpointCardState::Active => "Charging",
            LoadpointCardState::Idle => "Connected — waiting",
            LoadpointCardState::Disconnected => "No vehicle",
        }
    }

    /// State of a loadpoint's card (a missing reading counts as false):
    /// active when connected and charging, idle when only connected,
    /// disconnected otherwise.
    pub fn from_loadpoint<N>(lp: &LoadpointState<N>) -> (r: Self)
        ensures
            r == card_state_of(lp.connected, lp.charging),
    {
        let connected = lp.is_connected();
        let charging = match lp.charging {
            Some(b) => b,
            None => false,
        };
        if connected && charging {
            LoadpointCardState::Active
        } else if connected {
            LoadpointCardState::Idle
        } else {
            LoadpointCardState::Disconnected
        }
    }
}

/// Display-ready loadpoint card data.
pub struct LoadpointCard {
    pub id: u32,
    pub title: String,
    pub power_display: String,
    pub session_energy_display: String,
    pub mode: String,
    pub vehicle_soc: Option<String>,
    pub vehicle_name: Option<String>,
    pub state: LoadpointCardState,
}

impl LoadpointCard {
    /// The card of a loadpoint, given the texts of its charge power, session
    /// energy and vehicle state of charge as the number formatting of the
    /// application renders them: the title falls back to `Loadpoint {id}`,
    /// the mode to `--`.
    pub fn from_loadpoint<N>(
        lp: &LoadpointState<N>,
        power_display: String,
        session_energy_display: String,
        vehicle_soc: Option<String>,
    ) -> (r: Self)
        ensures
            r.id == lp.id,
            r.title@ == match lp.title {
                Some(t) => t@,
                None => "Loadpoint "@ + decimal_text(lp.id as nat),
            },
            r.power_display == power_display,
            r.session_energy_display == session_energy_display,
            r.mode@ == match lp.mode {
                Some(m) => m@,
                None => "--"@,
            },
            r.vehicle_soc == vehicle_soc,
            match lp.vehicle_name {
                Some(n) => r.vehicle_name matches Some(v) && v@ == n@,
                None => r.vehicle_name is None,
            },
            r.state == card_state_of(lp.connected, lp.charging),
    {
        LoadpointCard {
            id: lp.id,
            title: lp.title_display(),
            power_display,
            session_energy_display,
            mode: lp.mode_display(),
            vehicle_soc,
            vehicle_name: match &lp.vehicle_name {
                Some(n) => Some(n.clone()),
                None => None,
            },
            state: LoadpointCardState::from_loadpoint(lp),
        }
    }
}

/// Predefined chart time ranges for the History view.
#[derive(Clone, Copy, PartialEq, Eq, Structural, Debug)]
pub enum HistoryRange {
    Day,
    Week,
    Month,
    Quarter,
}

/// Label (and slug) of a history range.
pub open spec fn range_label(r: HistoryRange) -> Seq<char> {
    match r {
        HistoryRange::Day => "24h"@,
        HistoryRange::Week => "7d"@,
        HistoryRange::Month => "30d"@,
        HistoryRange::Quarter => "90d"@,
    }
}

/// Chart resolution of a history range.
pub open spec fn range_resolution(r: HistoryRange) -> Seq<char> {
    match r {
        HistoryRange::Day => "5m"@,
        HistoryRange::Week => "1h"@,
        HistoryRange::Month => "1h"@,
        HistoryRange::Quarter => "daily"@,
    }
}

/// Length of a history range in seconds.
pub open spec fn range_seconds(r: HistoryRange) -> int {
    match r {
        HistoryRange::Day => 86_400,
        HistoryRange::Week => 604_800,
        HistoryRange::Month => 2_592_000,
        HistoryRange::Quarter => 7_776_000,
    }
}

pub open spec fn all_ranges() -> Seq<HistoryRange> {
    seq![HistoryRange::Day, HistoryRange::Week, HistoryRange::Month, HistoryRange::Quarter]
}

impl HistoryRange {
    pub fn label(&self) -> (r: &'static str)
        ensures
            r@ == range_label(*self),
    {
        match self {
            HistoryRange::Day => "24h",
            HistoryRange::Week => "7d",
            HistoryRange::Month => "30d",
            HistoryRange::Quarter => "90d",
        }
    }

    pub fn resolution(&self) -> (r: &'static str)
        ensures
            r@ == range_resolution(*self),
    {
        match self {
            HistoryRange::Day => "5m",
            HistoryRange::Week | HistoryRange::Month => "1h",
            HistoryRange::Quarter => "daily",
        }
    }

    pub fn seconds(&self) -> (r: i64)
        ensures
            r == range_seconds(*self),
    {
        match self {
            HistoryRange::Day => 86_400,
            HistoryRange::Week => 604_800,
            HistoryRange::Month => 2_592_000,
            HistoryRange::Quarter => 7_776_000,
        }
    }

    pub fn slug(&self) -> (r: &'static str)
        ensures
            r@ == range_label(*self),
    {
        match self {
            HistoryRange::Day => "24h",
            HistoryRange::Week => "7d",
            HistoryRange::Month => "30d",
            HistoryRange::Quarter => "90d",
        }
    }

    pub fn all() -> (r: &'static [HistoryRange])
        ensures
            r@ == all_ranges(),
    {
        let r: &'static [HistoryRange] = &[
            HistoryRange::Day,
            HistoryRange::Week,
            HistoryRange::Month,
            HistoryRange::Quarter,
        ];
        assert(r@ =~= all_ranges());
        r
    }

    /// The week range is the default selection.
    pub fn is_default(&self) -> (r: bool)
        ensures
            r == (*self == HistoryRange::Week),
    {
        *self == HistoryRange::Week
    }
}

/// Opening tag of the out-of-band tab bar.
pub open spec fn tab_bar_open() -> Seq<char> {
    "<nav id=\"tab-bar\" class=\"tab-bar\" role=\"tablist\" aria-label=\"Main navigation\" hx-swap-oob=\"true\">"@
}

/// One tab link of the out-of-band tab bar.
pub open spec fn tab_link(base: Seq<char>, v: ViewId, active: bool) -> Seq<char> {
    let href = base + view_path(v);
    "<a href=\""@ + href + "\" role=\"tab\" aria-selected=\""@ + (if active {
        "true"@
    } else {
        "false"@
    }) + "\" tabindex=\""@ + (if active {
        "0"@
    } else {
        "-1"@
    }) + "\" class=\"tab-item\" hx-get=\""@ + href
        + "\" hx-target=\"#view-content\" hx-push-url=\"true\" data-testid=\"tab-"@ + view_slug(v)
        + "\"><span class=\"tab-icon\">"@ + view_icon(v) + "</span><span class=\"tab-label\">"@
        + view_label(v) + "</span></a>"@
}

/// The tab links for `views`, in order, with `active` marked.
pub open spec fn tab_links(base: Seq<char>, active: ViewId, views: Seq<ViewId>) -> Seq<char>
    decreases views.len(),
{
    if views.len() == 0 {
        seq![]
    } else {
        tab_links(base, active, views.drop_last()) + tab_link(
            base,
            views.last(),
            views.last() == active,
        )
    }
}

/// The out-of-band tab bar with `active` selected, links prefixed by `base`.
pub open spec fn oob_tabs_html(base: Seq<char>, active: ViewId) -> Seq<char> {
    tab_bar_open() + tab_links(base, active, all_views()) + "</nav>"@
}

fn append_tab_link(html: &mut String, base_path: &str, view: ViewId, is_active: bool)
    ensures
        final(html)@ == old(html)@ + tab_link(base_path@, view, is_active),
{
    let mut href = String::from_str(base_path);
    href.append(view.path());
    html.append("<a href=\"");
    html.append(href.as_str());
    html.append("\" role=\"tab\" aria-selected=\"");
    html.append(if is_active {
        "true"
    } else {
        "false"
    });
    html.append("\" tabindex=\"");
    html.append(if is_active {
        "0"
    } else {
        "-1"
    });
    html.append("\" class=\"tab-item\" hx-get=\"");
    html.append(href.as_str());
    html.append("\" hx-target=\"#view-content\" hx-push-url=\"true\" data-testid=\"tab-");
    html.append(view.slug());
    html.append("\"><span class=\"tab-icon\">");
    html.append(view.icon_svg());
    html.append("</span><span class=\"tab-label\">");
    html.append(view.label());
    html.append("</span></a>");
    assert(final(html)@ =~= old(html)@ + tab_link(base_path@, view, is_active));
}

/// Out-of-band swap markup that updates the tab bar to show `active`.
pub fn render_oob_tabs(base_path: &str, active: ViewId) -> (r: String)
    ensures
        r@ == oob_tabs_html(base_path@, active),
{
    let mut html = String::from_str(
        "<nav id=\"tab-bar\" class=\"tab-bar\" role=\"tablist\" aria-label=\"Main navigation\" hx-swap-oob=\"true\">",
    );
    let all = ViewId::all();
    let mut i: usize = 0;
    while i < all.len()
        invariant
            all@ == all_views(),
            i <= all@.len(),
            html@ == tab_bar_open() + tab_links(base_path@, active, all_views().take(i as int)),
        decreases all@.len() - i,
    {
        let view = all[i];
        proof {
            assert(all_views().take(i + 1).drop_last() =~= all_views().take(i as int));
            assert(all_views().take(i + 1).last() == view);
        }
        append_tab_link(&mut html, base_path, view, view == active);
        assert(html@ =~= tab_bar_open() + tab_links(base_path@, active, all_views().take(i + 1)));
        i = i + 1;
    }
    html.append("</nav>");
    assert(all_views().take(all@.len() as int) =~= all_views());
    assert(html@ =~= oob_tabs_html(base_path@, active));
    html
}

/// The theme named by the first `evcc_theme=` entry of a `Cookie` header
/// (entries separated by `;`, surrounding whitespace ignored), dark when
/// there is none.
pub open spec fn theme_in_cookies(s: Seq<char>) -> Theme
    decreases s.len(),
{
    let k = first_index_of(s, ';');
    proof {
        lemma_first_index_bounds(s, ';');
    }
    let seg = trim(s.subrange(0, k));
    if has_prefix(seg, "evcc_theme="@) {
        theme_of_cookie(seg.subrange("evcc_theme="@.len() as int, seg.len() as int))
    } else if k >= s.len() {
        Theme::Dark
    } else {
        theme_in_cookies(s.subrange(k + 1, s.len() as int))
    }
}

fn theme_from_chars(v: &[char]) -> (r: Theme)
    ensures
        r == theme_of_cookie(v@),
{
    let (a, b) = trim_bounds(v);
    let lit = chars_of("light");
    let r = crate::text::rest_equals(&v[a..b], 0, lit.as_slice());
    assert(v@.subrange(a as int, b as int).subrange(0, (b - a) as int) =~= v@.subrange(
        a as int,
        b as int,
    ));
    if r {
        Theme::Light
    } else {
        Theme::Dark
    }
}

/// The theme chosen by the `Cookie` header value, if the request has one.
pub fn extract_theme(cookie_header: Option<&str>) -> (r: Theme)
    ensures
        r == match cookie_header {
            None => Theme::Dark,
            Some(h) => theme_in_cookies(h@),
        },
{
    let h = match cookie_header {
        None => return Theme::Dark,
        Some(h) => h,
    };
    let v = chars_of(h);
    let s = v.as_slice();
    let n = s.len();
    let key = chars_of("evcc_theme=");
    let mut pos: usize = 0;
    assert(s@.subrange(0, n as int) =~= s@);
    loop
        invariant
            n == s@.len(),
            pos <= n,
            key@ == "evcc_theme="@,
            theme_in_cookies(h@) == theme_in_cookies(s@.subrange(pos as int, n as int)),
            s@ == h@,
            cookie_header == Some(h),
        decreases n - pos,
    {
        let k = find_char(s, pos, ';');
        let ghost rest = s@.subrange(pos as int, n as int);
        assert(s@.subrange(pos as int, k as int) =~= rest.subrange(0, k - pos));
        let seg = &s[pos..k];
        let (a, b) = trim_bounds(seg);
        let t = &seg[a..b];
        proof {
            lemma_first_index_bounds(rest, ';');
            assert(first_index_of(rest, ';') == k - pos);
            assert(t@ == trim(rest.subrange(0, k - pos)));
        }
        if starts_with(t, key.as_slice()) {
            let value = &t[key.len()..t.len()];
            return theme_from_chars(value);
        }
        if k >= n {
            return Theme::Dark;
        }
        assert(rest.subrange(k - pos + 1, rest.len() as int) =~= s@.subrange(k + 1, n as int));
        pos = k + 1;
    }
}

/// `Some(s@)` for a present string.
pub open spec fn opt_str_view(o: Option<&str>) -> Option<Seq<char>> {
    match o {
        None => None,
        Some(s) => Some(s@),
    }
}

/// External URL for QR code pairing: scheme and host from the proxy headers
/// when present (the `Host` header standing in for a missing forwarded host,
/// https assumed without a forwarded scheme), and the configured host and
/// port otherwise.
pub open spec fn settings_url(
    proto: Option<Seq<char>>,
    forwarded_host: Option<Seq<char>>,
    host_header: Option<Seq<char>>,
    base_path: Seq<char>,
    host: Seq<char>,
    port: u16,
) -> Seq<char> {
    let fh = if forwarded_host is Some {
        forwarded_host
    } else {
        host_header
    };
    match (proto, fh) {
        (Some(p), Some(h)) => p + "://"@ + h + base_path,
        (None, Some(h)) => "https://"@ + h + base_path,
        _ => "http://"@ + host + ":"@ + decimal_text(port as nat) + base_path,
    }
}

pub fn build_settings_url(
    proto: Option<&str>,
    forwarded_host: Option<&str>,
    host_header: Option<&str>,
    base_path: &str,
    host: &str,
    port: u16,
) -> (r: String)
    ensures
        r@ == settings_url(
            opt_str_view(proto),
            opt_str_view(forwarded_host),
            opt_str_view(host_header),
            base_path@,
            host@,
            port,
        ),
{
    let fh = match forwarded_host {
        Some(h) => Some(h),
        None => host_header,
    };
    match (proto, fh) {
        (Some(p), Some(h)) => {
            let mut r = String::from_str(p);
            r.append("://");
            r.append(h);
            r.append(base_path);
            r
        },
        (None, Some(h)) => {
            let mut r = String::from_str("https://");
            r.append(h);
            r.append(base_path);
            r
        },
        _ => {
            let mut r = String::from_str("http://");
            r.append(host);
            r.append(":");
            push_decimal(&mut r, port as u64);
            r.append(base_path);
            r
        },
    }
}

/// Where the root path redirects: the overview below the base path.
pub fn root_redirect_location(base_path: &str) -> (r: String)
    ensures
        r@ == base_path@ + "/overview"@,
{
    let mut r = String::from_str(base_path);
    r.append("/overview");
    r
}

/// Energy chart URL for a history range ending at `now`.
pub open spec fn history_chart_url_of(base: Seq<char>, now: int, range: HistoryRange) -> Seq<char> {
    base + "/api/chart/energy?from="@ + signed_decimal_text(now - range_seconds(range)) + "&to="@
        + signed_decimal_text(now) + "&resolution="@ + range_resolution(range)
}

pub fn history_chart_url(base_path: &str, now: i64, range: HistoryRange) -> (r: String)
    requires
        now >= i64::MIN + 7_776_000,
    ensures
        r@ == history_chart_url_of(base_path@, now as int, range),
{
    let from = now - range.seconds();
    let mut r = String::from_str(base_path);
    r.append("/api/chart/energy?from=");
    push_signed_decimal(&mut r, from);
    r.append("&to=");
    push_signed_decimal(&mut r, now);
    r.append("&resolution=");
    r.append(range.resolution());
    r
}

/// Full-page shell wrapping a view's content.
pub struct ShellTemplate<'a> {
    pub theme: &'a str,
    pub active_view: ViewId,
    pub content: String,
    pub base_path: &'a str,
    pub version: &'static str,
    pub tabs: Vec<TabItem>,
}

/// Charging view content.
pub struct ChargingPartial {
    pub loadpoints: Vec<LoadpointCard>,
    pub base_path: String,
}

/// History view content.
pub struct HistoryPartial {
    pub ranges: &'static [HistoryRange],
    pub chart_url: String,
    pub base_path: String,
}

/// Compare view content.
pub struct ComparePartial;

/// Settings view content.
pub struct SettingsPartial<'a> {
    pub theme: &'a str,
    pub qr_svg: &'a str,
    pub has_key: bool,
    pub version: &'static str,
}

/// Loadpoint cards refreshed by polling.
pub struct ChargingCardsPartial {
    pub loadpoints: Vec<LoadpointCard>,
}

/// Every view is selected again by its own path.
pub proof fn lemma_view_path_roundtrip(v: ViewId)
    ensures
        view_of_path(view_path(v)) == v,
{
    reveal_strlit("/overview");
    reveal_strlit("/charging");
    reveal_strlit("/history");
    reveal_strlit("/compare");
    reveal_strlit("/settings");
    let p = view_path(v);
    assert(p.subrange(0, p.len() as int) =~= p);
    if v != ViewId::Charging {
        assert(!has_prefix(p, "/charging"@)) by {
            if has_prefix(p, "/charging"@) {
                assert(p.subrange(0, 9)[1] == "/charging"@[1]);
            }
        }
    }
    if v != ViewId::Charging && v != ViewId::History {
        assert(!has_prefix(p, "/history"@)) by {
            if has_prefix(p, "/history"@) {
                assert(p.subrange(0, 8)[1] == "/history"@[1]);
            }
        }
    }
    if v == ViewId::Overview || v == ViewId::Settings {
        assert(!has_prefix(p, "/compare"@)) by {
            if has_prefix(p, "/compare"@) {
                assert(p.subrange(0, 8)[1] == "/compare"@[1]);
            }
        }
    }
    if v == ViewId::Overview {
        assert(!has_prefix(p, "/settings"@)) by {
            if has_prefix(p, "/settings"@) {
                assert(p.subrange(0, 9)[1] == "/settings"@[1]);
            }
        }
    }
}

/// Distinct views have distinct paths.
pub proof fn lemma_view_paths_distinct(a: ViewId, b: ViewId)
    requires
        a != b,
    ensures
        view_path(a) != view_path(b),
{
    lemma_view_path_roundtrip(a);
    lemma_view_path_roundtrip(b);
}

/// A theme read back from its own `data-theme` text is the same theme.
pub proof fn lemma_theme_roundtrip(t: Theme)
    ensures
        theme_of_cookie(theme_text(t)) == t,
{
    reveal_strlit("dark");
    reveal_strlit("light");
    let s = theme_text(t);
    assert(trim_start(s) == s);
    assert(trim_end(s) == s);
    assert(trim(s) == s);
    if t == Theme::Dark {
        assert(s.len() != "light"@.len());
    }
}

/// The tab bar marks exactly one tab active: the tab of the active view.
pub proof fn lemma_one_active_tab(active: ViewId, tabs: Seq<TabItem>)
    requires
        tabs.len() == all_views().len(),
        forall|i: int|
            0 <= i < tabs.len() ==> (#[trigger] tabs[i]).view == all_views()[i] && tabs[i].is_active
                == (all_views()[i] == active),
    ensures
        exists|i: int| 0 <= i < tabs.len() && (#[trigger] tabs[i]).is_active && tabs[i].view == active,
        forall|i: int, j: int|
            0 <= i < tabs.len() && 0 <= j < tabs.len() && (#[trigger] tabs[i]).is_active
                && (#[trigger] tabs[j]).is_active ==> i == j,
{
    let k: int = match active {
        ViewId::Overview => 0,
        ViewId::Charging => 1,
        ViewId::History => 2,
        ViewId::Compare => 3,
        ViewId::Settings => 4,
    };
    assert(tabs[k].is_active);
}

/// Exactly one history range, the week, is the default.
pub proof fn lemma_one_default_range()
    ensures
        forall|i: int|
            0 <= i < all_ranges().len() ==> ((#[trigger] all_ranges()[i] == HistoryRange::Week) <==> i
                == 1),
{
}

/// Which of today's energy totals a summary card shows.
#[derive(Clone, Copy, PartialEq, Eq, Structural, Debug)]
pub enum CardValue {
    PvProduction,
    HomeConsumption,
    GridImport,
    BatteryDischarge,
    /// EV charging energy is not part of the energy totals; the card shows zero.
    EvCharging,
}

/// Fixed presentation of a summary card: id, label, icon, the total it
/// shows and the metric of its change against yesterday (if any).
pub struct SummaryCardLayout {
    pub id: &'static str,
    pub label: &'static str,
    pub icon_svg: &'static str,
    pub value: CardValue,
    pub delta_metric: Option<&'static str>,
}

/// `(id, label, icon, delta metric)` of the card showing `v`.
pub open spec fn card_presentation(v: CardValue) -> (Seq<char>, Seq<char>, Seq<char>, Option<Seq<char>>) {
    match v {
        CardValue::PvProduction => ("solar"@, "Solar Production"@, r#"<svg viewBox="0 0 24 24" fill="none" stroke="currentColor" stroke-width="2"><circle cx="12" cy="12" r="5"/><line x1="12" y1="1" x2="12" y2="3"/><line x1="12" y1="21" x2="12" y2="23"/><line x1="4.22" y1="4.22" x2="5.64" y2="5.64"/><line x1="18.36" y1="18.36" x2="19.78" y2="19.78"/><line x1="1" y1="12" x2="3" y2="12"/><line x1="21" y1="12" x2="23" y2="12"/><line x1="4.22" y1="19.78" x2="5.64" y2="18.36"/><line x1="18.36" y1="5.64" x2="19.78" y2="4.22"/></svg>"#@, Some("solar"@)),
        CardValue::HomeConsumption => ("consumption"@, "Home Consumption"@, r#"<svg viewBox="0 0 24 24" fill="none" stroke="currentColor" stroke-width="2"><path d="M3 9l9-7 9 7v11a2 2 0 01-2 2H5a2 2 0 01-2-2V9z"/></svg>"#@, Some("consumption"@)),
        CardValue::GridImport => ("grid"@, "Grid Import"@, r#"<svg viewBox="0 0 24 24" fill="none" stroke="currentColor" stroke-width="2"><rect x="2" y="2" width="20" height="20" rx="2"/><line x1="2" y1="8" x2="22" y2="8"/><line x1="2" y1="14" x2="22" y2="14"/><line x1="8" y1="2" x2="8" y2="22"/><line x1="14" y1="2" x2="14" y2="22"/></svg>"#@, Some("grid_import"@)),
        CardValue::BatteryDischarge => ("battery"@, "Battery"@, r#"<svg viewBox="0 0 24 24" fill="none" stroke="currentColor" stroke-width="2"><rect x="1" y="6" width="18" height="12" rx="2"/><line x1="23" y1="10" x2="23" y2="14"/></svg>"#@, None),
        CardValue::EvCharging => ("ev-charging"@, "EV Charging"@, r#"<svg viewBox="0 0 24 24" fill="none" stroke="currentColor" stroke-width="2"><polygon points="13,2 3,14 12,14 11,22 21,10 12,10 13,2"/></svg>"#@, Some("ev_charging"@)),
    }
}

/// The cards of the Overview, in order: solar, consumption and grid import
/// always; battery when the site has a battery; EV charging when it has a
/// vehicle connection.
pub open spec fn card_values(has_battery: bool, has_ev: bool) -> Seq<CardValue> {
    let base = seq![CardValue::PvProduction, CardValue::HomeConsumption, CardValue::GridImport];
    let with_battery = if has_battery {
        base.push(CardValue::BatteryDischarge)
    } else {
        base
    };
    if has_ev {
        with_battery.push(CardValue::EvCharging)
    } else {
        with_battery
    }
}

/// Presentation of a card layout as values.
pub open spec fn layout_view(c: SummaryCardLayout) -> (Seq<char>, Seq<char>, Seq<char>, Option<Seq<char>>) {
    (
        c.id@,
        c.label@,
        c.icon_svg@,
        match c.delta_metric {
            None => None,
            Some(m) => Some(m@),
        },
    )
}

fn card_layout(value: CardValue) -> (r: SummaryCardLayout)
    ensures
        r.value == value,
        layout_view(r) == card_presentation(value),
{
    match value {
        CardValue::PvProduction => SummaryCardLayout {
            id: "solar",
            label: "Solar Production",
            icon_svg: r#"<svg viewBox="0 0 24 24" fill="none" stroke="currentColor" stroke-width="2"><circle cx="12" cy="12" r="5"/><line x1="12" y1="1" x2="12" y2="3"/><line x1="12" y1="21" x2="12" y2="23"/><line x1="4.22" y1="4.22" x2="5.64" y2="5.64"/><line x1="18.36" y1="18.36" x2="19.78" y2="19.78"/><line x1="1" y1="12" x2="3" y2="12"/><line x1="21" y1="12" x2="23" y2="12"/><line x1="4.22" y1="19.78" x2="5.64" y2="18.36"/><line x1="18.36" y1="5.64" x2="19.78" y2="4.22"/></svg>"#,
            value,
            delta_metric: Some("solar"),
        },
        CardValue::HomeConsumption => SummaryCardLayout {
            id: "consumption",
            label: "Home Consumption",
            icon_svg: r#"<svg viewBox="0 0 24 24" fill="none" stroke="currentColor" stroke-width="2"><path d="M3 9l9-7 9 7v11a2 2 0 01-2 2H5a2 2 0 01-2-2V9z"/></svg>"#,
            value,
            delta_metric: Some("consumption"),
        },
        CardValue::GridImport => SummaryCardLayout {
            id: "grid",
            label: "Grid Import",
            icon_svg: r#"<svg viewBox="0 0 24 24" fill="none" stroke="currentColor" stroke-width="2"><rect x="2" y="2" width="20" height="20" rx="2"/><line x1="2" y1="8" x2="22" y2="8"/><line x1="2" y1="14" x2="22" y2="14"/><line x1="8" y1="2" x2="8" y2="22"/><line x1="14" y1="2" x2="14" y2="22"/></svg>"#,
            value,
            delta_metric: Some("grid_import"),
        },
        CardValue::BatteryDischarge => SummaryCardLayout {
            id: "battery",
            label: "Battery",
            icon_svg: r#"<svg viewBox="0 0 24 24" fill="none" stroke="currentColor" stroke-width="2"><rect x="1" y="6" width="18" height="12" rx="2"/><line x1="23" y1="10" x2="23" y2="14"/></svg>"#,
            value,
            delta_metric: None,
        },
        CardValue::EvCharging => SummaryCardLayout {
            id: "ev-charging",
            label: "EV Charging",
            icon_svg: r#"<svg viewBox="0 0 24 24" fill="none" stroke="currentColor" stroke-width="2"><polygon points="13,2 3,14 12,14 11,22 21,10 12,10 13,2"/></svg>"#,
            value,
            delta_metric: Some("ev_charging"),
        },
    }
}

/// The summary cards of the Overview, before today's values are filled in.
pub fn summary_card_layout(has_battery: bool, has_ev: bool) -> (r: Vec<SummaryCardLayout>)
    ensures
        r@.len() == card_values(has_battery, has_ev).len(),
        forall|i: int|
            0 <= i < r@.len() ==> (#[trigger] r@[i]).value == card_values(has_battery, has_ev)[i]
                && layout_view(r@[i]) == card_presentation(r@[i].value),
{
    let mut cards: Vec<SummaryCardLayout> = Vec::new();
    cards.push(card_layout(CardValue::PvProduction));
    cards.push(card_layout(CardValue::HomeConsumption));
    cards.push(card_layout(CardValue::GridImport));
    if has_battery {
        cards.push(card_layout(CardValue::BatteryDischarge));
    }
    if has_ev {
        cards.push(card_layout(CardValue::EvCharging));
    }
    cards
}

/// The change shown on a card: that of the first entry of `deltas` with the
/// card's metric; none for a card without a metric.
pub open spec fn card_delta_of<N>(card: SummaryCardLayout, deltas: Seq<DeltaValue<N>>) -> Option<N> {
    match card.delta_metric {
        None => None,
        Some(m) => first_delta_of(deltas, m@),
    }
}

/// The change against yesterday shown on each of `cards`, in card order.
pub fn summary_card_deltas<N: Copy>(cards: &[SummaryCardLayout], deltas: &[DeltaValue<N>]) -> (r: Vec<Option<N>>)
    ensures
        r@.len() == cards@.len(),
        forall|i: int| 0 <= i < r@.len() ==> #[trigger] r@[i] == card_delta_of(cards@[i], deltas@),
{
    let mut r: Vec<Option<N>> = Vec::new();
    for i in 0..cards.len()
        invariant
            r@.len() == i,
            forall|j: int| 0 <= j < i ==> #[trigger] r@[j] == card_delta_of(cards@[j], deltas@),
    {
        let d = match cards[i].delta_metric {
            None => None,
            Some(m) => find_delta(deltas, m),
        };
        r.push(d);
    }
    r
}

/// Each overview card shows the change of the very total it shows, whatever
/// the list of changes: the Solar Production card that of `solar`, Home
/// Consumption that of `consumption`, Grid Import that of `grid_import`, EV
/// Charging that of `ev_charging`; the Battery card shows none. The first
/// three cards are always Solar Production, Home Consumption and Grid Import.
pub proof fn lemma_card_deltas_match_their_totals<N>(
    has_battery: bool,
    has_ev: bool,
    cards: Seq<SummaryCardLayout>,
    deltas: Seq<DeltaValue<N>>,
)
    requires
        cards.len() == card_values(has_battery, has_ev).len(),
        forall|i: int|
            0 <= i < cards.len() ==> (#[trigger] cards[i]).value == card_values(has_battery, has_ev)[i]
                && layout_view(cards[i]) == card_presentation(cards[i].value),
    ensures
        forall|i: int|
            #![trigger cards[i]]
            0 <= i < cards.len() ==> card_delta_of(cards[i], deltas) == match cards[i].value {
                CardValue::PvProduction => first_delta_of(deltas, "solar"@),
                CardValue::HomeConsumption => first_delta_of(deltas, "consumption"@),
                CardValue::GridImport => first_delta_of(deltas, "grid_import"@),
                CardValue::BatteryDischarge => None,
                CardValue::EvCharging => first_delta_of(deltas, "ev_charging"@),
            },
        cards[0].value == CardValue::PvProduction,
        cards[1].value == CardValue::HomeConsumption,
        cards[2].value == CardValue::GridImport,
        forall|i: int|
            #![trigger cards[i]]
            0 <= i < cards.len() ==> (cards[i].id@, cards[i].label@) == match cards[i].value {
                CardValue::PvProduction => ("solar"@, "Solar Production"@),
                CardValue::HomeConsumption => ("consumption"@, "Home Consumption"@),
                CardValue::GridImport => ("grid"@, "Grid Import"@),
                CardValue::BatteryDischarge => ("battery"@, "Battery"@),
                CardValue::EvCharging => ("ev-charging"@, "EV Charging"@),
            },
        has_battery ==> cards[3].value == CardValue::BatteryDischarge,
        has_ev ==> cards[cards.len() - 1].value == CardValue::EvCharging,
{
    assert forall|i: int| #![trigger cards[i]] 0 <= i < cards.len() implies card_delta_of(cards[i], deltas) == match cards[i].value {
        CardValue::PvProduction => first_delta_of(deltas, "solar"@),
        CardValue::HomeConsumption => first_delta_of(deltas, "consumption"@),
        CardValue::GridImport => first_delta_of(deltas, "grid_import"@),
        CardValue::BatteryDischarge => None,
        CardValue::EvCharging => first_delta_of(deltas, "ev_charging"@),
    } by {
        let c = cards[i];
        assert(layout_view(c) == card_presentation(c.value));
        match c.delta_metric {
            Some(m) => assert(m@ == layout_view(c).3->0),
            None => {},
        }
    }
    assert(cards[0].value == card_values(has_battery, has_ev)[0]);
    assert(cards[1].value == card_values(has_battery, has_ev)[1]);
    assert(cards[2].value == card_values(has_battery, has_ev)[2]);
    assert forall|i: int| #![trigger cards[i]] 0 <= i < cards.len() implies (cards[i].id@, cards[i].label@) == match cards[i].value {
        CardValue::PvProduction => ("solar"@, "Solar Production"@),
        CardValue::HomeConsumption => ("consumption"@, "Home Consumption"@),
        CardValue::GridImport => ("grid"@, "Grid Import"@),
        CardValue::BatteryDischarge => ("battery"@, "Battery"@),
        CardValue::EvCharging => ("ev-charging"@, "EV Charging"@),
    } by {
        assert(layout_view(cards[i]) == card_presentation(cards[i].value));
    }
    if has_battery {
        assert(cards[3].value == card_values(has_battery, has_ev)[3]);
    }
    if has_ev {
        assert(cards[cards.len() - 1].value == card_values(has_battery, has_ev)[cards.len() - 1]);
    }
}

/// The pairing address keeps what the proxy reports. With a forwarded
/// scheme `p` and a forwarded host (or, without one, the `Host` header) `h`,
/// it starts with `p://h`; without a forwarded scheme it is `https://h`;
/// without any host header it is `http://host:port` of the configuration.
/// It always ends with the base path, and the forwarded host wins over the
/// `Host` header.
pub proof fn lemma_settings_url_keeps_the_proxy_view(
    proto: Option<Seq<char>>,
    forwarded_host: Option<Seq<char>>,
    host_header: Option<Seq<char>>,
    base_path: Seq<char>,
    host: Seq<char>,
    port: u16,
)
    ensures
        ({
            let url = settings_url(proto, forwarded_host, host_header, base_path, host, port);
            let h = if forwarded_host is Some {
                forwarded_host
            } else {
                host_header
            };
            &&& (proto is Some && h is Some) ==> has_prefix(url, proto->0 + "://"@ + h->0)
            &&& (proto is None && h is Some) ==> has_prefix(url, "https://"@ + h->0)
            &&& h is None ==> has_prefix(url, "http://"@ + host + ":"@ + decimal_text(port as nat))
            &&& url.len() >= base_path.len()
            &&& url.subrange(url.len() - base_path.len(), url.len() as int) == base_path
        }),
{
    let url = settings_url(proto, forwarded_host, host_header, base_path, host, port);
    let h = if forwarded_host is Some {
        forwarded_host
    } else {
        host_header
    };
    if h is Some {
        let head = if proto is Some {
            proto->0 + "://"@ + h->0
        } else {
            "https://"@ + h->0
        };
        assert(url =~= head + base_path);
        assert(url.subrange(0, head.len() as int) =~= head);
    } else {
        let head = "http://"@ + host + ":"@ + decimal_text(port as nat);
        assert(url =~= head + base_path);
        assert(url.subrange(0, head.len() as int) =~= head);
    }
    assert(url.subrange(url.len() - base_path.len(), url.len() as int) =~= base_path);
}

} // verus!
