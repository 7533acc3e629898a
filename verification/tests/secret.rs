use xaskpass::secret::{Passphrase, SecBuf};

#[test]
fn secret() {
    let mut buf = SecBuf::new(vec!['X'; 20]);
    buf.buf.unsecure_mut()[0] = 'a';
    buf.len = 1;
    assert_eq!(buf.unsecure(), ['a']);
    buf.len = 2;
    assert_eq!(buf.unsecure(), ['a', 'X']);
}

fn filled(capacity: usize, text: &str) -> SecBuf<char> {
    let mut buf = SecBuf::new(vec!['X'; capacity]);
    for c in text.chars() {
        assert!(buf.push(c));
    }
    buf
}

#[test]
fn push_stops_when_full() {
    let mut buf = filled(2, "ab");
    assert!(!buf.push('c'));
    assert_eq!(buf.unsecure(), ['a', 'b']);
}

#[test]
fn delete_moves_the_rest_up() {
    let mut buf = filled(4, "abcd");
    buf.delete(1);
    assert_eq!(buf.unsecure(), ['a', 'c', 'd']);
    buf.delete(2);
    assert_eq!(buf.unsecure(), ['a', 'c']);
}

#[test]
fn insert_many_in_the_middle() {
    let mut buf = filled(6, "ad");
    assert_eq!(buf.insert_many(1, "bc"), 2);
    assert_eq!(buf.unsecure(), ['a', 'b', 'c', 'd']);
}

#[test]
fn insert_many_takes_what_fits() {
    let mut buf = filled(4, "ad");
    assert_eq!(buf.insert_many(1, "b\u{e9}xyz"), 2);
    assert_eq!(buf.unsecure(), ['a', 'b', '\u{e9}', 'd']);
    assert_eq!(buf.insert_many(0, "q"), 0);
}

#[test]
fn insert_then_delete_gives_the_secret_back() {
    let mut buf = filled(8, "hello");
    buf.insert_many(2, "XY");
    buf.delete(3);
    buf.delete(2);
    assert_eq!(buf.unsecure(), ['h', 'e', 'l', 'l', 'o']);
}

#[test]
fn line_is_utf8_with_newline() {
    let pass = Passphrase(filled(10, "a\u{e9}\u{20ac}\u{1f92f}"));
    let line = pass.encode_line();
    assert_eq!(line.unsecure(), "a\u{e9}\u{20ac}\u{1f92f}\n".as_bytes());
}

#[test]
fn line_of_nothing_is_a_newline() {
    assert_eq!(Passphrase(filled(3, "")).encode_line().unsecure(), b"\n");
}

#[test]
fn reading_the_line_gives_the_passphrase() {
    let line = Passphrase(filled(9, "p\u{df} \u{3042}")).encode_line();
    let bytes = line.unsecure();
    let text = std::str::from_utf8(&bytes[..bytes.len() - 1]).unwrap();
    assert_eq!(text, "p\u{df} \u{3042}");
}

#[test]
fn plain_encoding_has_no_newline() {
    let buf = filled(4, "\u{20ac}1");
    assert_eq!(buf.encode().unsecure(), "\u{20ac}1".as_bytes());
}
