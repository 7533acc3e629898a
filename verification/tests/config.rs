use xaskpass::config::{
    is_explicit_none, is_none_word, option_explicit_none, option_explicit_serialize, strings,
    Asterisk, ColorError, Config, Custom, Disco, HexError, PangoAlignment, Rgba, Setting,
    StringsError, NAME,
};

fn rgba(red: u8, green: u8, blue: u8, alpha: u8) -> Rgba {
    Rgba { red, green, blue, alpha }
}

#[test]
fn color_with_six_digits_is_opaque() {
    assert_eq!(Rgba::from_str("#5c616c"), Ok(rgba(0x5c, 0x61, 0x6c, 255)));
}

#[test]
fn color_with_eight_digits_has_opacity() {
    assert_eq!(Rgba::from_str("#f5f6f7ee"), Ok(rgba(0xf5, 0xf6, 0xf7, 0xee)));
}

#[test]
fn color_prefix_may_be_missing_or_repeated() {
    assert_eq!(Rgba::from_str("CFd6E6"), Ok(rgba(0xcf, 0xd6, 0xe6, 255)));
    assert_eq!(Rgba::from_str("###ffffff"), Ok(rgba(255, 255, 255, 255)));
}

#[test]
fn color_of_wrong_length() {
    assert_eq!(Rgba::from_str("#fff"), Err(ColorError::Length(3)));
    assert_eq!(Rgba::from_str(""), Err(ColorError::Length(0)));
    assert_eq!(Rgba::from_str("#1234567"), Err(ColorError::Length(7)));
    // the length counts bytes
    assert_eq!(Rgba::from_str("#12345\u{e9}"), Err(ColorError::Length(7)));
}

#[test]
fn color_with_a_wrong_digit() {
    assert_eq!(
        Rgba::from_str("#12g45z"),
        Err(ColorError::Hex(HexError::InvalidHexCharacter { c: 'g', index: 2 }))
    );
    assert_eq!(
        Rgba::from_str("#1234567x"),
        Err(ColorError::Hex(HexError::InvalidHexCharacter { c: 'x', index: 7 }))
    );
}

#[test]
fn color_text_leaves_out_full_opacity() {
    assert_eq!(rgba(0x5c, 0x61, 0x6c, 255).to_text(), "#5c616c");
    assert_eq!(rgba(0x0a, 0xff, 0x00, 0x7f).to_text(), "#0aff007f");
}

#[test]
fn color_round_trip() {
    for c in [rgba(0, 1, 2, 3), rgba(255, 254, 253, 255), rgba(16, 15, 160, 0)] {
        assert_eq!(Rgba::from_str(&c.to_text()), Ok(c));
    }
}

#[test]
fn color_errors_in_words() {
    let words = |s: &str| Rgba::from_str(s).unwrap_err().message();
    assert_eq!(words("#fff"), "invalid hex color length: 3");
    assert_eq!(words("#0123456789"), "invalid hex color length: 10");
    assert_eq!(words("#12g45z"), "color: Invalid character 'g' at position 2");
    assert_eq!(words("#12'456"), "color: Invalid character '\\'' at position 2");
    assert_eq!(ColorError::Hex(HexError::OddLength).message(), "color: Odd number of digits");
    assert_eq!(
        ColorError::Hex(HexError::InvalidStringLength).message(),
        "color: Invalid string length"
    );
}

fn number(setting: Setting<u64>) -> Result<u64, String> {
    match setting {
        Setting::Text(text) => Err(text),
        Setting::Other(n) => Ok(n),
    }
}

fn text(setting: Setting<u64>) -> Result<String, String> {
    match setting {
        Setting::Text(text) => Ok(text),
        Setting::Other(_) => Err("no text".to_string()),
    }
}

#[test]
fn missing_values_are_written_and_read() {
    match option_explicit_serialize::<u64>(None) {
        Setting::Text(text) => assert_eq!(text, "none"),
        Setting::Other(_) => unreachable!(),
    }
    let none = option_explicit_serialize::<u64>(None);
    assert_eq!(option_explicit_none(none, number), Ok(None));
    let seven = option_explicit_serialize(Some(Setting::Other(7)));
    assert_eq!(option_explicit_none(seven, number), Ok(Some(7)));
    let sans = option_explicit_serialize(Some(Setting::Text("Sans".to_string())));
    assert_eq!(option_explicit_none(sans, text), Ok(Some("Sans".to_string())));
    // a text that is the word for a missing value is not told from one
    let word = option_explicit_serialize(Some(Setting::Text("None".to_string())));
    assert_eq!(option_explicit_none(word, text), Ok(None));
}

#[test]
fn what_cannot_be_read_is_not_missing() {
    let setting = Setting::Text("seven".to_string());
    assert_eq!(option_explicit_none(setting, number), Err("seven".to_string()));
    let setting = Setting::Other(7);
    assert_eq!(option_explicit_none(setting, text), Err("no text".to_string()));
}

#[test]
fn none_in_any_case() {
    assert!(is_explicit_none("none"));
    assert!(is_explicit_none("NONE"));
    assert!(!is_explicit_none("non\u{c9}"));
    assert!(!is_explicit_none(""));
    assert!(is_explicit_none("NoNe"));
    assert!(!is_explicit_none("no"));
    assert!(!is_explicit_none(" none"));
    assert!(is_none_word(&"none".to_string()));
    assert!(!is_none_word(&"None".to_string()));
}

#[test]
fn two_strings_are_needed() {
    assert!(matches!(strings(vec!["a".to_string()]), Err(StringsError::TooFew)));
    assert!(matches!(strings(Vec::new()), Err(StringsError::TooFew)));
    let two = vec!["a".to_string(), "b".to_string()];
    assert_eq!(strings(two.clone()).unwrap(), two);
    assert_eq!(StringsError::TooFew.message(), "strings should have at least 2 elements");
}

#[test]
fn defaults() {
    let custom = Custom::default();
    assert_eq!(custom.alignment, PangoAlignment::Center);
    assert!(!custom.justify);
    assert!(custom.randomize);
    assert_eq!(custom.strings.len(), 5);
    assert_eq!(custom.strings[0], "pasted \u{1f92f}");
    assert_eq!(
        Disco::default(),
        Disco { min_count: 3, max_count: 3, three_states: false }
    );
    let asterisk = Asterisk::default();
    assert_eq!(asterisk.asterisk, "*");
    assert_eq!((asterisk.min_count, asterisk.max_count), (10, 20));
    let config = Config::default();
    assert_eq!(config.title, NAME);
    assert_eq!(config.title, "xaskpass");
    assert_eq!(config.depth, 32);
    assert!(!config.grab_keyboard && !config.show_hostname && !config.resizable);
}
