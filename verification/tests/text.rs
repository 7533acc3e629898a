use xaskpass::text::{byte_index, char_index, decimal, len_utf8, repeat};

#[test]
fn lengths_of_encodings() {
    for c in ['a', '\u{7f}', '\u{80}', '\u{7ff}', '\u{800}', '\u{ffff}', '\u{10000}', '\u{10ffff}'] {
        assert_eq!(len_utf8(c), c.len_utf8());
    }
}

#[test]
fn characters_before_a_byte() {
    let s = "a\u{e9}\u{20ac}b";
    assert_eq!(char_index(s, 0), Some(0));
    assert_eq!(char_index(s, 1), Some(1));
    assert_eq!(char_index(s, 2), None);
    assert_eq!(char_index(s, 3), Some(2));
    assert_eq!(char_index(s, 6), Some(3));
    assert_eq!(char_index(s, 7), None);
    assert_eq!(char_index("", 0), None);
}

#[test]
fn bytes_before_a_character() {
    let s = "a\u{e9}\u{20ac}b";
    assert_eq!(byte_index(s, 0), Some(0));
    assert_eq!(byte_index(s, 2), Some(3));
    assert_eq!(byte_index(s, 4), Some(7));
    assert_eq!(byte_index(s, 5), None);
}

#[test]
fn repeating() {
    assert_eq!(repeat("ab", 3), "ababab");
    assert_eq!(repeat("ab", 0), "");
}

#[test]
fn decimal_numbers() {
    assert_eq!(decimal(0), "0");
    assert_eq!(decimal(10), "10");
    assert_eq!(decimal(u64::MAX), "18446744073709551615");
}
