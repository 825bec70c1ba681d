use badge::text::{clock_text, format_bssid, push_decimal, top_bar_text, wifi_bar_text};

#[test]
fn clock_text_twelve_hour_dial() {
    assert_eq!(clock_text(0, 0), "12:00 AM");
    assert_eq!(clock_text(9, 7), "09:07 AM");
    assert_eq!(clock_text(12, 45), "12:45 AM");
    assert_eq!(clock_text(13, 5), "01:05 PM");
    assert_eq!(clock_text(23, 59), "11:59 PM");
}

#[test]
fn decimal_text() {
    let mut s = String::new();
    push_decimal(&mut s, 0);
    assert_eq!(s, "0");
    let mut s = String::from("x");
    push_decimal(&mut s, 4294967295);
    assert_eq!(s, "x4294967295");
}

#[test]
fn top_bars() {
    assert_eq!(top_bar_text(72, 45, 123), "72F 45% Wifi found: 123");
    assert_eq!(top_bar_text(0, 0, 0), "0F 0% Wifi found: 0");
    assert_eq!(wifi_bar_text(42), "Wifi found: 42");
}

#[test]
fn bssid_is_colon_separated_hex() {
    assert_eq!(
        format_bssid([0x0a, 0x1b, 0x2c, 0x3d, 0x4e, 0x5f]),
        "0a:1b:2c:3d:4e:5f"
    );
    assert_eq!(format_bssid([0, 0, 0, 0, 0, 0]), "00:00:00:00:00:00");
    assert_eq!(format_bssid([255; 6]), "ff:ff:ff:ff:ff:ff");
}
