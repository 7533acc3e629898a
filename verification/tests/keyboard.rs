use xaskpass::config::PangoDirection;
use xaskpass::keyboard::{
    check_support, compose_locale, compose_step, get_direction, key_char, Compose, ComposeStatus,
    Composed,
};

fn compose(accepted: bool, status: ComposeStatus) -> Option<Compose> {
    Some(Compose { accepted, status, sym: 0xe9 })
}

#[test]
fn composing() {
    let plain = Composed::Symbol { sym: 0x65, composed: false };
    assert_eq!(compose_step(0x65, None), plain);
    assert_eq!(compose_step(0x65, compose(false, ComposeStatus::Composed)), plain);
    assert_eq!(compose_step(0x65, compose(true, ComposeStatus::Nothing)), plain);
    assert_eq!(compose_step(0x65, compose(true, ComposeStatus::Composing)), Composed::Wait);
    assert_eq!(compose_step(0x65, compose(true, ComposeStatus::Cancelled)), Composed::Reset);
    assert_eq!(
        compose_step(0x65, compose(true, ComposeStatus::Composed)),
        Composed::Symbol { sym: 0xe9, composed: true }
    );
}

#[test]
fn keyboard_support() {
    assert!(check_support(true, true).is_ok());
    assert_eq!(check_support(false, true).unwrap_err().0, "x11 xkb extension required");
    assert_eq!(check_support(true, false).unwrap_err().message(), "Unsupported: too old xkb?");
}

#[test]
fn characters_of_keys() {
    assert_eq!(key_char(0), None);
    assert_eq!(key_char(0x41), Some('A'));
    assert_eq!(key_char(0xd800), None);
    assert_eq!(key_char(0x110000), None);
    assert_eq!(key_char(0x5d0), Some('\u{5d0}'));
}

#[test]
fn direction_of_the_majority() {
    let (ltr, rtl) = (PangoDirection::Ltr, PangoDirection::Rtl);
    assert_eq!(get_direction(&[]), PangoDirection::Neutral);
    assert_eq!(get_direction(&[ltr, rtl, PangoDirection::Neutral]), PangoDirection::Neutral);
    assert_eq!(get_direction(&[ltr, ltr, rtl]), PangoDirection::WeakLtr);
    assert_eq!(get_direction(&[rtl, rtl, ltr]), PangoDirection::WeakRtl);
    let weak = PangoDirection::WeakRtl;
    assert_eq!(get_direction(&[weak, weak, ltr]), PangoDirection::WeakLtr);
}

#[test]
fn locale_for_composing() {
    let v = |s: &str| Some(s.as_bytes().to_vec());
    assert_eq!(compose_locale(v("a"), v("b"), v("c")), b"a");
    assert_eq!(compose_locale(v(""), v("b"), v("c")), b"b");
    assert_eq!(compose_locale(None, v("x\0y"), v("c")), b"c");
    assert_eq!(compose_locale(None, None, None), b"C");
}

#[test]
fn direction_turned_round() {
    let (ltr, rtl) = (PangoDirection::Ltr, PangoDirection::Rtl);
    assert_eq!(get_direction(&[ltr, PangoDirection::Neutral]), PangoDirection::WeakLtr);
    assert_eq!(get_direction(&[rtl, PangoDirection::Neutral]), PangoDirection::WeakRtl);
}
