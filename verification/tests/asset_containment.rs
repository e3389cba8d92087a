//! External reference detection used by the asset audits.

fn is_external_reference(value: &str) -> bool {
    let trimmed = value.trim();
    if trimmed.is_empty() {
        return false;
    }
    if trimmed.starts_with("//") {
        return true;
    }
    if trimmed.contains("://") {
        return true;
    }
    false
}

#[test]
fn test_is_external_reference_detects_https() {
    assert!(is_external_reference("https://cdn.example.com/lib.js"));
    assert!(is_external_reference("http://fonts.googleapis.com/css"));
}

#[test]
fn test_is_external_reference_detects_protocol_relative() {
    assert!(is_external_reference("//cdn.example.com/lib.js"));
    assert!(is_external_reference("//fonts.gstatic.com/s/font.woff2"));
}

#[test]
fn test_is_external_reference_allows_local() {
    assert!(!is_external_reference("/static/js/htmx.min.js"));
    assert!(!is_external_reference("./assets/style.css"));
    assert!(!is_external_reference("../shared/tokens.css"));
    assert!(!is_external_reference("#fragment"));
    assert!(!is_external_reference("data:image/svg+xml;base64,abc"));
    assert!(!is_external_reference(""));
    assert!(!is_external_reference("   "));
}
