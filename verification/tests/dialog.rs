use xaskpass::config::{self, Rgba};
use xaskpass::dialog::indicator::strings::{Direction, Hit, LogAttr, Pointer};
use xaskpass::dialog::indicator::texts::StringType;
use xaskpass::dialog::indicator::{Circle, Classic, Repaint, Strings, Timer};
use xaskpass::dialog::layout::{
    center_offset, font_size, screen_scale, text_units, wrap_width, Layout, Parts,
};
use xaskpass::dialog::{
    button_action, Action, Button, Dialog, Face, Indicator, Key, KeyStep, Paint, Place, Sizing,
};
use xaskpass::keyboard::{Compose, ComposeStatus};

const BACKGROUND: Rgba = Rgba { red: 1, green: 2, blue: 3, alpha: 200 };

fn stars() -> Indicator {
    Indicator::Strings(Strings::new(
        false,
        StringType::new(config::StringType::Asterisk { asterisk: config::Asterisk::default() }),
    ))
}

fn dialog(layout: Layout, indicator: Indicator) -> Dialog {
    let mut d = Dialog::new(layout, indicator, BACKGROUND, Some(30));
    d.init_events();
    d
}

fn ring() -> Dialog {
    dialog(Layout::Center, Indicator::Circle(Circle::new(true, 3, true, true)))
}

fn at(d: &Dialog, button: Option<usize>) -> Place {
    Place {
        buttons: (0..d.buttons.len()).map(|i| Some(i) == button).collect(),
        indicator: false,
        dialog: true,
        hit: Hit::Outside,
    }
}

fn text(d: &Dialog) -> String {
    let pass = match &d.indicator {
        Indicator::Strings(i) => &i.base.pass,
        Indicator::Circle(i) => &i.base.pass,
        Indicator::Classic(i) => &i.base.pass,
    };
    pass.unsecure().iter().collect()
}

fn type_in(d: &mut Dialog, s: &str) {
    let mut buf = Dialog::key_buffer();
    for b in s.bytes() {
        assert!(buf.push(b));
    }
    d.handle_key_text(&buf);
}

#[test]
fn clicks_and_moves_stay_within_the_passphrase() {
    let mut i = stars();
    let place = |i: &Indicator| match i {
        Indicator::Strings(i) => i.state.cursor,
        _ => 0,
    };
    i.pass_insert("abc", false);
    assert!(i.set_cursor(Hit::Place(0)));
    assert_eq!(place(&i), 0);
    i.move_visually(2, 1, "***");
    assert_eq!(place(&i), 3);
    // there is no place further on
    i.move_visually(i32::MAX, 0, "***");
    assert_eq!(place(&i), 3);
    i.toggle_plaintext();
    i.set_hover(true);
    i.for_width(5);
    i.set_painted();
    assert_eq!(place(&i), 3);
    i.move_visually(0, 1, "abc");
    i.pass_insert("-", true);
    assert_eq!(i.into_pass().0.unsecure(), ['a', '-', 'b', 'c']);
}

#[test]
fn buttons_of_the_layouts() {
    assert_eq!(dialog(Layout::Center, stars()).buttons.len(), 4);
    assert_eq!(ring().buttons.len(), 3);
    assert_eq!(dialog(Layout::TopRight, stars()).buttons.len(), 2);
    assert_eq!(
        Layout::Center.parts(&Indicator::Classic(Classic::new(3, 3))),
        Parts { indicator_label: false, clipboard_button: true, plaintext_button: false }
    );
    assert!(Layout::Center.parts(&ring().indicator).indicator_label);
    assert!(!Layout::BottomLeft.parts(&ring().indicator).indicator_label);
    assert!(dialog(Layout::TopRight, stars()).uses_cursor);
    assert!(!ring().uses_cursor);
}

#[test]
fn press_and_release_on_a_button() {
    for (i, action) in [Action::Accept, Action::Cancel, Action::PasteClipboard].iter().enumerate() {
        let mut d = ring();
        let place = at(&d, Some(i));
        assert_eq!(d.handle_button_press(1, &place, false), Action::Nothing);
        assert!(d.buttons[i].pressed && d.button_pressed);
        assert_eq!(d.handle_button_press(1, &place, true), *action);
        assert!(!d.buttons[i].pressed && !d.button_pressed);
        assert_eq!(button_action(i), *action);
    }
}

#[test]
fn release_elsewhere_does_nothing() {
    let mut d = ring();
    let (on, off) = (at(&d, Some(0)), at(&d, Some(1)));
    d.handle_button_press(1, &on, false);
    assert_eq!(d.handle_button_press(1, &off, true), Action::Nothing);
    assert!(!d.buttons[0].pressed && !d.buttons[1].pressed);
}

#[test]
fn plaintext_button_switches() {
    let mut d = dialog(Layout::Center, stars());
    let place = at(&d, Some(3));
    d.handle_button_press(1, &place, false);
    assert_eq!(d.handle_button_press(1, &place, true), Action::Nothing);
    assert!(d.buttons[3].toggled);
    match &d.indicator {
        Indicator::Strings(i) => assert!(i.state.show_plain),
        _ => panic!("text expected"),
    }
}

#[test]
fn middle_button_pastes() {
    let mut d = ring();
    let inside = at(&d, None);
    let mut outside = at(&d, None);
    outside.dialog = false;
    assert_eq!(d.handle_button_press(2, &inside, true), Action::Nothing);
    assert_eq!(d.handle_button_press(2, &inside, false), Action::Nothing);
    assert_eq!(d.handle_button_press(2, &inside, true), Action::PastePrimary);
    d.handle_button_press(2, &inside, false);
    assert_eq!(d.handle_button_press(2, &outside, true), Action::Nothing);
    assert!(!d.mouse_middle_pressed);
    assert_eq!(d.handle_button_press(3, &inside, false), Action::Nothing);
}

#[test]
fn click_on_the_text_moves_the_cursor() {
    let mut d = dialog(Layout::Center, stars());
    type_in(&mut d, "abc");
    let mut place = at(&d, Some(0));
    place.hit = Hit::Place(1);
    d.handle_button_press(1, &place, false);
    assert!(!d.buttons[0].pressed);
    type_in(&mut d, "X");
    assert_eq!(text(&d), "aXbc");
}

#[test]
fn one_button_hovers() {
    let mut d = ring();
    let mut place = at(&d, Some(1));
    place.buttons[2] = true;
    assert_eq!(d.handle_motion(&place), None);
    let hover: Vec<bool> = d.buttons.iter().map(|b| b.hover).collect();
    assert_eq!(hover, vec![false, true, false]);
}

#[test]
fn held_button_keeps_others_from_hovering() {
    let mut d = ring();
    let (first, second) = (at(&d, Some(0)), at(&d, Some(1)));
    d.handle_button_press(1, &first, false);
    d.handle_motion(&second);
    assert!(!d.buttons[1].hover);
    d.handle_motion(&first);
    assert!(d.buttons[0].hover);
}

#[test]
fn pointer_over_the_indicator() {
    let mut d = dialog(Layout::Center, stars());
    let mut place = at(&d, None);
    place.indicator = true;
    assert_eq!(d.handle_motion(&place), Some(Pointer::Input));
    let button = at(&d, Some(0));
    assert_eq!(d.handle_motion(&button), Some(Pointer::Default));
    let mut r = ring();
    let mut over = at(&r, None);
    over.indicator = true;
    assert_eq!(r.handle_motion(&over), None);
}

#[test]
fn faces_of_a_button() {
    let mut b = Button::new();
    assert!(b.dirty);
    assert_eq!(b.paint(), (Face::Normal, false));
    b.toggle();
    assert_eq!(b.paint(), (Face::Pressed, false));
    b.set_hover(true);
    assert_eq!(b.paint(), (Face::Hover, false));
    b.set_pressed(true);
    assert_eq!(b.paint(), (Face::Pressed, true));
    b.set_painted();
    b.set_pressed(true);
    assert!(!b.dirty);
}

fn key(sym: u32, ctrl: bool, shift: bool) -> Key {
    Key { sym, compose: None, ctrl, shift }
}

#[test]
fn keys() {
    let cases = [
        (0xff0d, false, false, KeyStep::Done(Action::Accept)),
        (0xff8d, false, false, KeyStep::Done(Action::Accept)),
        (0x6a, true, false, KeyStep::Done(Action::Accept)),
        (0x6d, true, false, KeyStep::Done(Action::Accept)),
        (0x6d, false, false, KeyStep::Text { composed: false }),
        (0xff1b, false, false, KeyStep::Done(Action::Cancel)),
        (0xff08, false, false, KeyStep::Delete { word: false }),
        (0xff08, true, false, KeyStep::Delete { word: true }),
        (0x68, true, false, KeyStep::Delete { word: false }),
        (0x68, false, false, KeyStep::Text { composed: false }),
        (0x76, true, false, KeyStep::Done(Action::PasteClipboard)),
        (0xff51, false, false, KeyStep::Move { direction: Direction::Left, word: false }),
        (0xff53, true, false, KeyStep::Move { direction: Direction::Right, word: true }),
        (0xff63, false, true, KeyStep::Done(Action::PastePrimary)),
        (0xff63, false, false, KeyStep::Text { composed: false }),
    ];
    for (sym, ctrl, shift, step) in cases {
        let mut d = ring();
        let mut k = key(sym, ctrl, shift);
        assert_eq!(d.handle_key_press(&mut k), step);
        assert_eq!(k.sym, 0);
    }
}

#[test]
fn control_u_clears() {
    let mut d = ring();
    type_in(&mut d, "abc");
    assert_eq!(d.handle_key_press(&mut key(0x75, true, false)), KeyStep::Done(Action::Nothing));
    assert_eq!(text(&d), "");
}

#[test]
fn composed_keys() {
    let mut d = ring();
    let mut with = |status| {
        let mut k = key(0x65, false, false);
        k.compose = Some(Compose { accepted: true, status, sym: 0xff0d });
        (d.handle_key_press(&mut k), k.compose.unwrap().sym)
    };
    assert_eq!(with(ComposeStatus::Composing), (KeyStep::Done(Action::Nothing), 0xff0d));
    assert_eq!(with(ComposeStatus::Cancelled), (KeyStep::ResetCompose, 0xff0d));
    assert_eq!(with(ComposeStatus::Nothing), (KeyStep::Text { composed: false }, 0));
    assert_eq!(with(ComposeStatus::Composed), (KeyStep::Done(Action::Accept), 0));
}

#[test]
fn text_of_keys() {
    let mut d = ring();
    type_in(&mut d, "\u{e9}");
    type_in(&mut d, "");
    type_in(&mut d, "x");
    assert_eq!(text(&d), "\u{e9}x");
}

#[test]
fn deleting_undoes_typing() {
    let attrs = [LogAttr { backspace_deletes_character: true, is_cursor_position: true }; 8];
    for mut d in [ring(), dialog(Layout::Center, stars())] {
        type_in(&mut d, "ab");
        type_in(&mut d, "c");
        d.indicator.pass_delete(&attrs);
        assert_eq!(text(&d), "ab");
    }
}

#[test]
fn what_is_entered_is_written() {
    let mut d = ring();
    type_in(&mut d, "p\u{20ac}ss");
    let line = d.indicator.into_pass().encode_line();
    assert_eq!(line.unsecure(), "p\u{20ac}ss\n".as_bytes());
}

#[test]
fn painting_everything_and_parts() {
    let mut d = ring();
    assert!(d.dirty());
    match d.repaint() {
        Paint::Parts { indicator, buttons } => {
            assert_eq!(indicator, Repaint::Nothing);
            assert_eq!(buttons, vec![true, true, true]);
        }
        Paint::Everything => panic!("parts expected"),
    }
    d.set_painted();
    assert!(!d.dirty());
    type_in(&mut d, "a");
    match d.repaint() {
        Paint::Parts { indicator, buttons } => {
            assert_eq!(indicator, Repaint::Whole);
            assert_eq!(buttons, vec![false, false, false]);
        }
        Paint::Everything => panic!("parts expected"),
    }
    d.set_transparency(false);
    assert!(matches!(d.repaint(), Paint::Everything));
}

#[test]
fn transparency_comes_and_goes() {
    let mut d = ring();
    d.set_painted();
    d.set_transparency(true);
    assert!(!d.dirty());
    d.set_transparency(false);
    assert_eq!(d.background, Rgba { alpha: 255, ..BACKGROUND });
    d.set_transparency(true);
    assert_eq!(d.background, BACKGROUND);
    let opaque = Rgba { alpha: 255, ..BACKGROUND };
    let mut o = Dialog::new(Layout::Center, stars(), opaque, None);
    o.set_painted();
    o.set_transparency(false);
    assert!(!o.dirty());
    assert_eq!(o.background, opaque);
}

#[test]
fn input_timeout() {
    let mut d = ring();
    assert_eq!(d.take_input_timeout(), Some(30));
    assert_eq!(d.take_input_timeout(), None);
    d.handle_key_press(&mut key(0x61, false, false));
    assert_eq!(d.take_input_timeout(), Some(30));
    assert!(d.awaits_input_timeout());
    assert_eq!(d.handle_events(None), Action::Cancel);
    assert!(d.indicator.awaits(Timer::Blink));
    assert_eq!(d.handle_events(Some(Timer::Blink)), Action::Nothing);
    let mut none = Dialog::new(Layout::Center, stars(), BACKGROUND, None);
    none.init_events();
    assert_eq!(none.take_input_timeout(), Some(0));
    assert!(!none.awaits_input_timeout());
    none.handle_key_press(&mut key(0x61, false, false));
    assert_eq!(none.take_input_timeout(), None);
}

#[test]
fn wrapping_labels() {
    assert_eq!(wrap_width(300, 20, None), None);
    assert_eq!(wrap_width(300, 20, Some(300)), None);
    // 300x20 -> 150x40
    assert_eq!(wrap_width(300, 20, Some(200)), Some(200));
    // 800x20 -> 400x40 -> 200x80 -> 100x160 is too high
    assert_eq!(wrap_width(800, 20, Some(100)), Some(200));
    assert_eq!(wrap_width(10, 100, Some(4)), Some(10));
    assert_eq!(wrap_width(11, 100, Some(4)), Some(10));
}

#[test]
fn lengths_of_text() {
    assert_eq!(text_units(3), Some(3072));
    assert_eq!(text_units(u32::MAX), None);
    assert_eq!(font_size(0), 11 * 1024);
    assert_eq!(font_size(9216), 9216);
}

#[test]
fn centering() {
    assert_eq!(center_offset(101, 50), 25);
    assert_eq!(center_offset(50, 50), 0);
    assert_eq!(center_offset(40, 50), 0);
}

#[test]
fn scale_on_high_screens() {
    assert_eq!(screen_scale(1080), None);
    assert_eq!(screen_scale(2160), Some((2160, 1080)));
}

#[test]
fn widths_of_indicators() {
    let mut row = Indicator::Classic(Classic::new(2, 5));
    assert!(matches!(row.for_width(4), Sizing::Elements(4)));
    assert!(matches!(ring().indicator.for_width(4), Sizing::Fixed));
    match stars().for_width(11) {
        Sizing::Texts(texts) => assert_eq!(texts, vec!["***********"]),
        _ => panic!("texts expected"),
    }
}

#[test]
fn ring_has_no_plaintext() {
    let d = ring();
    assert!(!d.indicator.has_plaintext());
    assert!(d.buttons.len() < 4);
}

#[test]
fn cursor_stays_within_the_passphrase() {
    let attrs = [LogAttr { backspace_deletes_character: false, is_cursor_position: true }; 8];
    let mut d = dialog(Layout::Center, stars());
    let cursor = |d: &Dialog| match &d.indicator {
        Indicator::Strings(i) => (i.state.cursor, i.base.pass.len),
        _ => panic!("text expected"),
    };
    type_in(&mut d, "abc");
    assert_eq!(cursor(&d), (3, 3));
    d.indicator.pass_delete(&attrs);
    assert_eq!(cursor(&d), (2, 2));
    d.indicator.pass_clear();
    assert_eq!(cursor(&d), (0, 0));
    type_in(&mut d, "x");
    assert_eq!(text(&d), "x");
}
