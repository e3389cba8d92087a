//! View navigation and theme tests.

use evcc_dashboard::web::routes::views::{build_tabs, extract_theme, render_oob_tabs, Theme, ViewId};

#[test]
fn viewid_all_returns_five_views() {
    assert_eq!(ViewId::all().len(), 5);
}

#[test]
fn viewid_paths_are_unique() {
    let paths: Vec<&str> = ViewId::all().iter().map(|v| v.path()).collect();
    let mut deduped = paths.clone();
    deduped.sort();
    deduped.dedup();
    assert_eq!(paths.len(), deduped.len(), "ViewId paths must be unique");
}

#[test]
fn viewid_from_path_matches_all_views() {
    assert_eq!(ViewId::from_path("/overview"), ViewId::Overview);
    assert_eq!(ViewId::from_path("/charging"), ViewId::Charging);
    assert_eq!(ViewId::from_path("/history"), ViewId::History);
    assert_eq!(ViewId::from_path("/compare"), ViewId::Compare);
    assert_eq!(ViewId::from_path("/settings"), ViewId::Settings);
}

#[test]
fn viewid_from_path_defaults_to_overview() {
    assert_eq!(ViewId::from_path("/unknown"), ViewId::Overview);
    assert_eq!(ViewId::from_path("/"), ViewId::Overview);
    assert_eq!(ViewId::from_path(""), ViewId::Overview);
}

#[test]
fn theme_defaults_to_dark() {
    assert_eq!(Theme::default(), Theme::Dark);
}

#[test]
fn theme_from_cookie_parses_light() {
    assert_eq!(Theme::from_cookie("light"), Theme::Light);
    assert_eq!(Theme::from_cookie(" light "), Theme::Light);
}

#[test]
fn theme_from_cookie_defaults_to_dark_for_unknown() {
    assert_eq!(Theme::from_cookie("invalid"), Theme::Dark);
    assert_eq!(Theme::from_cookie(""), Theme::Dark);
    assert_eq!(Theme::from_cookie("DARK"), Theme::Dark);
}

#[test]
fn theme_as_str_roundtrips() {
    assert_eq!(Theme::Dark.as_str(), "dark");
    assert_eq!(Theme::Light.as_str(), "light");
}

#[test]
fn viewid_path_selects_its_view_again() {
    for v in ViewId::all() {
        assert_eq!(ViewId::from_path(v.path()), *v);
    }
    assert_eq!(ViewId::from_path("/charging/extra"), ViewId::Charging);
}

#[test]
fn theme_roundtrips_through_cookie_value() {
    for t in [Theme::Dark, Theme::Light] {
        assert_eq!(Theme::from_cookie(t.as_str()), t);
    }
}

#[test]
fn theme_cookie_is_found_among_other_cookies() {
    assert_eq!(extract_theme(None), Theme::Dark);
    assert_eq!(extract_theme(Some("session=abc; evcc_theme=light")), Theme::Light);
    assert_eq!(extract_theme(Some("evcc_theme=dark;evcc_theme=light")), Theme::Dark);
    assert_eq!(extract_theme(Some("a=1;b=2")), Theme::Dark);
    assert_eq!(extract_theme(Some("  evcc_theme= light ;x=y")), Theme::Light);
    assert_eq!(extract_theme(Some("xevcc_theme=light")), Theme::Dark);
}

#[test]
fn tabs_mark_exactly_the_active_view() {
    let tabs = build_tabs(ViewId::History);
    assert_eq!(tabs.len(), 5);
    let active: Vec<ViewId> = tabs.iter().filter(|t| t.is_active).map(|t| t.view).collect();
    assert_eq!(active, vec![ViewId::History]);
    let order: Vec<ViewId> = tabs.iter().map(|t| t.view).collect();
    assert_eq!(order, ViewId::all().to_vec());
}

#[test]
fn oob_tabs_render_every_view_once() {
    let html = render_oob_tabs("/dash", ViewId::Compare);
    assert!(html.starts_with(
        "<nav id=\"tab-bar\" class=\"tab-bar\" role=\"tablist\" aria-label=\"Main navigation\" hx-swap-oob=\"true\">"
    ));
    assert!(html.ends_with("</nav>"));
    assert_eq!(html.matches("<a href=").count(), 5);
    assert_eq!(html.matches("aria-selected=\"true\"").count(), 1);
    assert!(html.contains(
        "<a href=\"/dash/compare\" role=\"tab\" aria-selected=\"true\" tabindex=\"0\" class=\"tab-item\" hx-get=\"/dash/compare\""
    ));
    assert!(html.contains("data-testid=\"tab-overview\""));
    assert!(html.contains("<span class=\"tab-label\">Settings</span></a>"));
    assert!(html.contains("aria-selected=\"false\" tabindex=\"-1\""));
}
