use badge::settings::{setting_value, trim_text};

#[test]
fn quoted_value_is_returned_without_quotes() {
    assert_eq!(setting_value("NAME=\"Bailey\"", "NAME"), Some("Bailey".to_string()));
    assert_eq!(
        setting_value("  WIFI_SSID\t=  'home net'  ", "WIFI_SSID"),
        Some("home net".to_string())
    );
}

#[test]
fn other_keys_are_not_matched() {
    assert_eq!(setting_value("NAME=\"Bailey\"", "DETAILS"), None);
    assert_eq!(setting_value("NAMES=\"x\"", "NAME"), None);
}

#[test]
fn lines_without_exactly_one_equals_are_ignored() {
    assert_eq!(setting_value("NAME \"Bailey\"", "NAME"), None);
    assert_eq!(setting_value("TIME_API=\"https://x/?a=b\"", "TIME_API"), None);
    assert_eq!(setting_value("", "NAME"), None);
}

#[test]
fn short_values_unquote_to_empty() {
    assert_eq!(setting_value("K=x", "K"), Some(String::new()));
    assert_eq!(setting_value("K=", "K"), Some(String::new()));
    assert_eq!(setting_value("K=\"\"", "K"), Some(String::new()));
}

#[test]
fn trim_cuts_unicode_space_at_both_ends() {
    assert_eq!(trim_text(" \t\u{3000}a b\u{a0}\n"), "a b");
    assert_eq!(trim_text("   "), "");
    assert_eq!(trim_text("x"), "x");
}
