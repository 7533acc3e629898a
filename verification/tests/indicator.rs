use xaskpass::config;
use xaskpass::dialog::indicator::strings::{
    nearest, CursorPaint, Direction, Ellipsize, Hit, LogAttr, Pointer, Shown,
};
use xaskpass::dialog::indicator::texts::{dancer, Asterisk, Custom, Disco, StringType, SEPARATOR};
use xaskpass::dialog::indicator::{clamp_count, Base, Circle, Classic, Repaint, Strings, Timer};

fn typed(base: &Base) -> String {
    base.pass.unsecure().iter().collect()
}

#[test]
fn clicks_beside_the_text() {
    assert_eq!(nearest(12, 10, 5), 12);
    assert_eq!(nearest(9, 10, 5), 10);
    assert_eq!(nearest(15, 10, 5), 14);
    assert_eq!(nearest(i32::MAX, -3, 4), 0);
    assert_eq!(nearest(i32::MIN, -3, 4), -3);
    // no text at all
    assert_eq!(nearest(0, 10, 0), 9);
    assert_eq!(nearest(20, 10, 0), 9);
}

#[test]
fn base_inserts_and_deletes() {
    let mut base = Base::new(false);
    base.pass_insert("ab\u{e9}", false);
    assert_eq!(typed(&base), "ab\u{e9}");
    assert!(base.dirty());
    base.set_painted();
    assert!(!base.dirty());
    base.pass_delete();
    assert_eq!(typed(&base), "ab");
    base.pass_clear();
    assert_eq!(typed(&base), "");
    base.set_painted();
    base.pass_delete();
    base.pass_clear();
    assert!(!base.dirty());
}

#[test]
fn base_stops_at_its_capacity() {
    let mut base = Base::new(false);
    base.pass_insert(&"x".repeat(600), false);
    assert_eq!(base.pass.len, 512);
    base.set_painted();
    base.pass_insert("y", true);
    assert!(!base.dirty());
    assert!(!base.status.show_selection_do);
}

#[test]
fn blinking() {
    let mut base = Base::new(true);
    assert_eq!(base.take_timeouts(), (Some(800), Some(0)));
    base.set_focused(true);
    assert_eq!(base.take_timeouts(), (Some(800), None));
    assert!(base.blink());
    base.set_painted();
    base.handle_events(Timer::Blink);
    assert!(!base.blink());
    assert!(base.status.dirty_blink && !base.status.dirty);
    assert_eq!(base.take_timeouts(), (Some(400), None));
    base.key_pressed();
    assert!(base.blink());
    assert_eq!(base.take_timeouts(), (Some(800), None));
    base.set_focused(false);
    assert!(!base.awaits(Timer::Blink));
    assert!(!base.requests_events());
    assert_eq!(base.take_timeouts(), (None, None));
}

#[test]
fn pasting_is_shown_for_a_moment() {
    let mut base = Base::new(false);
    base.take_timeouts();
    base.pass_insert("p", true);
    assert!(base.awaits(Timer::ShowSelection));
    assert_eq!(base.take_timeouts(), (None, Some(200)));
    base.set_painted();
    base.handle_events(Timer::ShowSelection);
    assert!(base.status.dirty);
    assert!(!base.requests_events());
}

#[test]
fn init_starts_the_blinking() {
    let mut base = Base::new(true);
    base.take_timeouts();
    base.init_timeouts();
    assert_eq!(base.take_timeouts(), (Some(800), None));
    let mut still = Base::new(false);
    still.take_timeouts();
    still.init_timeouts();
    assert_eq!(still.take_timeouts(), (None, None));
}

#[test]
fn ring_lights() {
    let mut ring = Circle::new(true, 3, true, false);
    assert_eq!(ring.paint(), vec![false, false, false]);
    ring.pass_insert("ab", false);
    assert_eq!(ring.paint(), vec![false, true, false]);
    ring.pass_insert("cd", false);
    assert_eq!(ring.paint(), vec![true, false, false]);
    ring.pass_insert("e", true);
    assert_eq!(ring.paint(), vec![true, true, true]);
    let mut turning = Circle::new(true, 3, true, true);
    turning.pass_insert("ab", false);
    assert_eq!(turning.paint(), vec![false, true, false]);
    turning.pass_delete();
    assert_eq!(turning.paint(), vec![false, false, true]);
    let mut dark = Circle::new(true, 3, false, true);
    dark.pass_insert("a", true);
    assert_eq!(dark.paint(), vec![false, false, false]);
}

#[test]
fn ring_turns() {
    let mut ring = Circle::new(false, 3, true, true);
    assert_eq!(ring.init_rotation(), None);
    ring.pass_insert("abc", false);
    assert_eq!(ring.init_rotation(), Some(3));
    assert_eq!(ring.init_rotation(), None);
    assert!(ring.start_rotation(true));
    assert!(!ring.start_rotation(true));
    ring.set_painted();
    assert!(ring.set_next_frame(true));
    assert!(ring.base.status.dirty);
    ring.set_painted();
    assert!(!ring.set_next_frame(false));
    ring.pass_clear();
    assert_eq!(ring.init_rotation(), Some(-3));
    let mut still = Circle::new(false, 3, true, false);
    still.pass_insert("abc", false);
    assert_eq!(still.init_rotation(), None);
}

#[test]
fn ring_without_blinking_has_no_cursor() {
    let mut ring = Circle::new(false, 3, true, true);
    ring.base.set_focused(true);
    assert!(!ring.base.blink());
    assert_eq!(ring.repaint(), Repaint::Whole);
    ring.set_painted();
    assert_eq!(ring.repaint(), Repaint::Nothing);
}

#[test]
fn counts_within_limits() {
    assert_eq!(clamp_count(5, 3, 10), 5);
    assert_eq!(clamp_count(1, 3, 10), 3);
    assert_eq!(clamp_count(50, 3, 10), 10);
    // the upper limit wins
    assert_eq!(clamp_count(5, 8, 4), 4);
}

#[test]
fn row_lights() {
    let mut row = Classic::new(3, 3);
    assert_eq!(row.for_width(9), 3);
    assert_eq!(row.paint(), vec![false, false, false]);
    row.base.pass_insert("abcd", false);
    assert_eq!(row.paint(), vec![true, false, false]);
    row.base.pass_insert("e", true);
    assert_eq!(row.paint(), vec![true, true, true]);
    assert_eq!(row.repaint(), Repaint::Whole);
    assert_eq!(row.into_pass().0.unsecure(), ['a', 'b', 'c', 'd', 'e']);
}

fn custom(randomize: bool) -> config::Custom {
    let strings = ["p", "1", "2", "3"].iter().map(|s| s.to_string()).collect();
    config::Custom {
        alignment: config::PangoAlignment::Left,
        justify: false,
        randomize,
        strings,
    }
}

#[test]
fn custom_strings_take_turns() {
    let c = Custom::new(custom(false));
    let shown: Vec<String> = (0..6).map(|n| c.set_text(n, false)).collect();
    assert_eq!(shown, vec!["", "1", "2", "3", "1", "2"]);
    assert_eq!(c.set_text(4, true), "p");
    assert_eq!(c.set_text(0, true), "");
}

#[test]
fn shuffling_keeps_the_first_string() {
    let mut others = false;
    for _ in 0..50 {
        let c = Custom::new(custom(true));
        assert_eq!(c.strings[0], "p");
        others = others || c.strings[1] != "1";
        let mut rest = c.strings[1..].to_vec();
        rest.sort();
        assert_eq!(rest, vec!["1", "2", "3"]);
    }
    assert!(others);
}

#[test]
fn dancers() {
    let mut disco = Disco::new(config::Disco { min_count: 2, max_count: 3, three_states: false });
    disco.for_width(2);
    assert_eq!(disco.dancer_count, 2);
    let two = |i: usize| [dancer(i), SEPARATOR, dancer(i)].concat();
    assert_eq!(disco.set_text(0, true), "");
    assert_eq!(disco.set_text(1, false), two(2));
    assert_eq!(disco.set_text(2, false), two(1));
    assert_eq!(disco.set_text(2, true), two(0));
    assert_eq!(disco.widths(), vec!["".to_string(), two(2), two(1)]);
    let mut three = Disco::new(config::Disco { min_count: 1, max_count: 1, three_states: true });
    three.for_width(9);
    assert_eq!(three.set_text(2, false), dancer(3));
    assert_eq!(three.widths().len(), 4);
    assert_eq!(dancer(0), "\u{2517}(\u{ff65}o\u{ff65})\u{251b}");
    assert_eq!(SEPARATOR, " \u{266a} ");
}

fn stars() -> StringType {
    StringType::new(config::StringType::Asterisk { asterisk: config::Asterisk::default() })
}

#[test]
fn asterisks() {
    let mut a = Asterisk::new(config::Asterisk::default());
    assert_eq!(a.for_width(12), "************");
    assert_eq!(a.set_text(3), "***");
    assert_eq!(a.set_text(0), "");
    let mut kind = stars();
    assert_eq!(kind.for_width(1), vec!["**********"]);
    assert!(kind.use_cursor());
    let mut own = StringType::new(config::StringType::Custom { custom: custom(false) });
    assert_eq!(own.for_width(1), vec!["p", "1", "2", "3"]);
    assert!(!own.use_cursor());
}

fn attr(backspace: bool, cursor: bool) -> LogAttr {
    LogAttr { backspace_deletes_character: backspace, is_cursor_position: cursor }
}

fn hidden(i: &mut Strings) -> String {
    match i.take_text() {
        Some(Shown::Hidden(s)) => s,
        _ => panic!("hidden text expected"),
    }
}

#[test]
fn strings_insert_at_the_cursor() {
    let mut i = Strings::new(false, stars());
    i.pass_insert("ad", false);
    assert_eq!(i.state.cursor, 2);
    assert_eq!(hidden(&mut i), "**");
    assert!(i.take_text().is_none());
    assert_eq!(i.state.ellipsize, Some(Ellipsize::Start));
    assert!(i.set_cursor(Hit::Place(1)));
    i.pass_insert("bc", false);
    assert_eq!(typed(&i.base), "abcd");
    assert_eq!(i.state.cursor, 3);
}

#[test]
fn strings_delete_a_character_or_a_cluster() {
    let mut i = Strings::new(false, stars());
    i.pass_insert("abcd", false);
    let attrs = [
        attr(true, true),
        attr(true, true),
        attr(false, false),
        attr(false, false),
        attr(false, true),
    ];
    i.pass_delete(&attrs);
    assert_eq!(typed(&i.base), "a");
    assert_eq!(i.state.cursor, 1);
    i.pass_delete(&attrs);
    assert_eq!(typed(&i.base), "");
    i.base.set_painted();
    i.pass_delete(&attrs);
    assert!(!i.base.dirty());
}

#[test]
fn strings_delete_what_was_inserted() {
    let mut i = Strings::new(false, stars());
    i.pass_insert("xyz", false);
    i.set_cursor(Hit::Place(2));
    i.pass_insert("Q", false);
    i.pass_delete(&[attr(true, true); 5]);
    assert_eq!(typed(&i.base), "xyz");
    assert_eq!(i.state.cursor, 2);
}

#[test]
fn strings_in_plain_text() {
    let mut i = Strings::new(false, stars());
    i.pass_insert("a\u{e9}", false);
    i.toggle_plaintext();
    assert_eq!(i.state.ellipsize, Some(Ellipsize::Middle));
    match i.take_text() {
        Some(Shown::Plain(b)) => assert_eq!(b.unsecure(), "a\u{e9}".as_bytes()),
        _ => panic!("plain text expected"),
    }
    i.toggle_plaintext();
    assert_eq!(hidden(&mut i), "**");
    assert_eq!(i.into_pass().0.unsecure(), ['a', '\u{e9}']);
}

#[test]
fn strings_show_only_the_length() {
    let mut a = Strings::new(false, stars());
    let mut b = Strings::new(false, stars());
    a.pass_insert("secret", false);
    b.pass_insert("public", false);
    assert_eq!(hidden(&mut a), hidden(&mut b));
}

#[test]
fn strings_paste_and_timeout() {
    let mut i = Strings::new(
        false,
        StringType::new(config::StringType::Custom { custom: custom(false) }),
    );
    i.pass_insert("ab", true);
    assert_eq!(hidden(&mut i), "p");
    i.handle_events(Timer::ShowSelection);
    assert_eq!(hidden(&mut i), "2");
    i.pass_clear();
    assert_eq!(hidden(&mut i), "");
    assert_eq!(i.state.cursor, 0);
}

#[test]
fn strings_move_the_cursor() {
    let mut i = Strings::new(true, stars());
    i.pass_insert("abc", false);
    assert_eq!(i.cursor_bytes("***"), Some(3));
    i.move_cursor(2, 0, "***");
    assert_eq!(i.state.cursor, 2);
    i.move_cursor(-1, 0, "***");
    i.move_cursor(i32::MAX, 0, "***");
    assert_eq!(i.state.cursor, 2);
    i.move_cursor(2, 1, "***");
    assert_eq!(i.state.cursor, 3);
    assert_eq!(i.cursor_bytes("**"), None);
    assert_eq!(Direction::Left.step(), -1);
    assert_eq!(Direction::Right.step(), 1);
}

#[test]
fn places_in_the_text() {
    let s = "a\u{e9}b";
    assert_eq!(Strings::cursor_chars(0, 0, s), Some(0));
    assert_eq!(Strings::cursor_chars(1, 1, s), Some(2));
    assert_eq!(Strings::cursor_chars(2, 0, s), None);
    assert_eq!(Strings::cursor_chars(-1, 0, s), None);
    assert_eq!(Strings::cursor_chars(3, -1, s), None);
}

#[test]
fn clicks_beside_the_text_are_not_taken() {
    let mut i = Strings::new(false, stars());
    assert!(!i.set_cursor(Hit::Outside));
    assert!(!i.set_cursor(Hit::Beside));
    let mut fixed = Strings::new(
        false,
        StringType::new(config::StringType::Disco { disco: config::Disco::default() }),
    );
    assert!(!fixed.set_cursor(Hit::Place(0)));
}

#[test]
fn pointer_over_the_text() {
    let mut i = Strings::new(false, stars());
    assert_eq!(i.set_hover(true), Some(Pointer::Input));
    assert_eq!(i.set_hover(true), None);
    assert_eq!(i.set_hover(false), Some(Pointer::Default));
    let mut fixed = Strings::new(
        false,
        StringType::new(config::StringType::Disco { disco: config::Disco::default() }),
    );
    assert_eq!(fixed.set_hover(true), None);
}

#[test]
fn painting_the_cursor() {
    let mut i = Strings::new(true, stars());
    assert_eq!(i.blink(), CursorPaint::Hidden);
    i.base.set_focused(true);
    assert_eq!(i.blink(), CursorPaint::AtCursor);
    i.base.set_painted();
    i.handle_events(Timer::Blink);
    assert_eq!(i.repaint(), Repaint::Cursor);
    assert_eq!(i.blink(), CursorPaint::Hidden);
    let mut fixed = Strings::new(
        true,
        StringType::new(config::StringType::Disco { disco: config::Disco::default() }),
    );
    fixed.base.set_focused(true);
    assert_eq!(fixed.blink(), CursorPaint::AtStart);
}
