use ciphercanvas::{encode_level_h, encode_wifi, wifi_payload, Encryption, Error};

#[test]
fn payload_has_the_wifi_layout() {
    let p = wifi_payload("MyWifi", "WPA", "secret123");
    assert_eq!(p, "WIFI:S:MyWifi;T:WPA;P:secret123;;");
}

#[test]
fn payload_keeps_delimiters_unescaped() {
    let p = wifi_payload("a;b:c", "WEP", "p\\w;");
    assert_eq!(p, "WIFI:S:a;b:c;T:WEP;P:p\\w;;;");
}

#[test]
fn payload_with_empty_fields() {
    assert_eq!(wifi_payload("", "nopass", ""), "WIFI:S:;T:nopass;P:;;");
}

#[test]
fn encryption_labels() {
    assert_eq!(Encryption::Wpa.label(), "WPA");
    assert_eq!(Encryption::Wep.label(), "WEP");
    assert_eq!(Encryption::NoPassword.label(), "nopass");
}

fn is_standard(side: usize) -> bool {
    (21..=177).contains(&side) && (side - 17) % 4 == 0
}

#[test]
fn encoding_gives_a_standard_square_symbol() {
    let m = encode_wifi("MyWifi", "WPA", "secret123").unwrap();
    assert!(is_standard(m.side()));
    // the top-left finder pattern: dark corner, light separator
    assert!(m.is_dark(0, 0));
    assert!(m.is_dark(6, 6));
    assert!(!m.is_dark(7, 7));
    assert!(!m.is_dark(1, 1));
}

#[test]
fn encoding_sides_grow_with_the_payload() {
    let small = encode_level_h("a").unwrap();
    assert_eq!(small.side(), 21);
    let text: String = "x".repeat(500);
    let big = encode_level_h(&text).unwrap();
    assert!(is_standard(big.side()));
    assert!(big.side() > small.side());
}

#[test]
fn encoding_fails_on_a_payload_beyond_level_h() {
    let password: String = "\u{e9}".repeat(2000);
    let r = encode_wifi("MyWifi", "WPA", &password);
    assert!(matches!(r, Err(Error::QrCode(_))));
}
