use xaskpass::backbuffer::{Backbuffer, XcbSurface};
use xaskpass::config::{self, Rgba};
use xaskpass::dialog::indicator::strings::{Direction, Hit, Pointer};
use xaskpass::dialog::indicator::texts::StringType;
use xaskpass::dialog::indicator::Strings;
use xaskpass::dialog::layout::Layout;
use xaskpass::dialog::{Action, Dialog, Indicator, Key, Place};
use xaskpass::errors::fallback::Builder;
use xaskpass::event::{
    after_timer, finish, Atoms, Config, Event, Outcome, Request, Selected, SelectionReply, State,
    XContext,
};

const ATOMS: Atoms = Atoms {
    WM_PROTOCOLS: 201,
    WM_DELETE_WINDOW: 202,
    NET_WM_PING: 203,
    UTF8_STRING: 204,
    CLIPBOARD: 205,
    XSEL_DATA: 206,
    INCR: 207,
};

fn config() -> Config {
    Config {
        backbuffer: Backbuffer::new(true, 9, XcbSurface { width: 10, height: 10 }).unwrap(),
        window: 9,
        root: 5,
        atoms: ATOMS,
        width: 10,
        height: 10,
        grab_keyboard: true,
        input_cursor: true,
        compositor_atom: Some(77),
        cycle_deadline: 100,
    }
}

fn setup() -> (XContext, Dialog) {
    let stars = StringType::new(config::StringType::Asterisk {
        asterisk: config::Asterisk::default(),
    });
    let background = Rgba { red: 0, green: 0, blue: 0, alpha: 9 };
    let mut d = Dialog::new(
        Layout::Center,
        Indicator::Strings(Strings::new(true, stars)),
        background,
        Some(5),
    );
    d.init_events();
    (XContext::new(config(), true).unwrap(), d)
}

fn go(request: Request) -> Outcome {
    Outcome { state: State::Continue, request }
}

fn place(d: &Dialog, button: Option<usize>) -> Place {
    Place {
        buttons: (0..d.buttons.len()).map(|i| Some(i) == button).collect(),
        indicator: false,
        dialog: true,
        hit: Hit::Outside,
    }
}

fn key(sym: u32, ctrl: bool) -> Event {
    Event::KeyPress { key: Key { sym, compose: None, ctrl, shift: false } }
}

fn pass(d: &Dialog) -> String {
    match &d.indicator {
        Indicator::Strings(i) => i.base.pass.unsecure().iter().collect(),
        _ => panic!("text expected"),
    }
}

#[test]
fn xfixes_is_required_for_a_compositor() {
    let err = XContext::new(config(), false).unwrap_err();
    assert_eq!(err.0, "x11 xfixes extension required");
    let mut plain = config();
    plain.compositor_atom = None;
    assert!(XContext::new(plain, false).is_ok());
}

#[test]
fn errors_are_handed_back() {
    let (mut x, mut d) = setup();
    let err = Builder::new().from("Window".to_string(), 1, 2, 3, 4);
    let back = x.handle_event(&mut d, Event::Error(err)).unwrap_err();
    assert_eq!(back.bad_value, 3);
}

#[test]
fn expose_grabs_the_keyboard() {
    let (mut x, mut d) = setup();
    assert_eq!(x.handle_event(&mut d, Event::Expose { count: 1 }).unwrap(), go(Request::Nothing));
    assert!(!x.first_expose_received);
    let grab = go(Request::GrabKeyboard);
    assert_eq!(x.handle_event(&mut d, Event::Expose { count: 0 }).unwrap(), grab);
    assert!(x.first_expose_received && x.config.backbuffer.visible);
    x.handle_event(&mut d, Event::FocusIn { mode: 1 }).unwrap();
    assert!(x.keyboard_grabbed);
    assert_eq!(x.handle_event(&mut d, Event::Expose { count: 0 }).unwrap(), go(Request::Nothing));
    x.handle_event(&mut d, Event::FocusOut { mode: 2 }).unwrap();
    assert!(!x.keyboard_grabbed);
}

#[test]
fn new_size_is_requested_once() {
    let (mut x, mut d) = setup();
    x.handle_event(&mut d, Event::ConfigureNotify { width: 10, height: 10 }).unwrap();
    assert_eq!(x.config.backbuffer.resize_requested, None);
    x.handle_event(&mut d, Event::ConfigureNotify { width: 20, height: 10 }).unwrap();
    assert_eq!(x.config.backbuffer.resize_requested, Some((20, 10)));
    assert_eq!((x.config.width, x.config.height), (20, 10));
}

#[test]
fn mouse_over_the_text() {
    let (mut x, mut d) = setup();
    let mut over = place(&d, None);
    over.indicator = true;
    let ev = Event::MotionNotify { same_screen: true, place: over };
    assert_eq!(x.handle_event(&mut d, ev).unwrap(), go(Request::SetPointer(Pointer::Input)));
    let away = place(&d, None);
    let ev = Event::MotionNotify { same_screen: true, place: away };
    assert_eq!(x.handle_event(&mut d, ev).unwrap(), go(Request::SetPointer(Pointer::Default)));
    x.config.input_cursor = false;
    let mut over = place(&d, None);
    over.indicator = true;
    let ev = Event::MotionNotify { same_screen: true, place: over };
    assert_eq!(x.handle_event(&mut d, ev).unwrap(), go(Request::Nothing));
}

#[test]
fn click_on_buttons() {
    let (mut x, mut d) = setup();
    let mut click = |x: &mut XContext, i: usize| {
        let ev = Event::ButtonPress { detail: 1, same_screen: true, place: place(&d, Some(i)) };
        x.handle_event(&mut d, ev).unwrap();
        let ev = Event::ButtonRelease { detail: 1, same_screen: true, place: place(&d, Some(i)) };
        x.handle_event(&mut d, ev).unwrap()
    };
    assert_eq!(click(&mut x, 0), Outcome { state: State::Ready, request: Request::Nothing });
    assert_eq!(click(&mut x, 1), Outcome { state: State::Cancelled, request: Request::Nothing });
    let convert = Request::ConvertSelection { selection: 205, target: 204, property: 206 };
    assert_eq!(click(&mut x, 2), go(convert));
    // while the selection is waited for, no other is asked for
    assert_eq!(click(&mut x, 2), go(Request::Nothing));
    assert_eq!(click(&mut x, 3), go(Request::Nothing));
}

#[test]
fn other_screens_do_not_count() {
    let (mut x, mut d) = setup();
    let p = place(&d, Some(0));
    let ev = Event::ButtonPress { detail: 1, same_screen: false, place: p };
    assert_eq!(x.handle_event(&mut d, ev).unwrap(), go(Request::Nothing));
    assert!(!d.buttons[0].pressed);
    let p = place(&d, Some(0));
    x.handle_event(&mut d, Event::MotionNotify { same_screen: false, place: p }).unwrap();
    assert!(!d.buttons[0].hover);
}

#[test]
fn keys_become_requests() {
    let (mut x, mut d) = setup();
    let ready = Outcome { state: State::Ready, request: Request::Nothing };
    assert_eq!(x.handle_event(&mut d, key(0xff0d, false)).unwrap(), ready);
    let delete = go(Request::Delete { word: true });
    assert_eq!(x.handle_event(&mut d, key(0xff08, true)).unwrap(), delete);
    let left = go(Request::Move { direction: Direction::Left, word: false });
    assert_eq!(x.handle_event(&mut d, key(0xff51, false)).unwrap(), left);
    let text = go(Request::KeyText { composed: false });
    assert_eq!(x.handle_event(&mut d, key(0x61, false)).unwrap(), text);
    let convert = Request::ConvertSelection { selection: 205, target: 204, property: 206 };
    assert_eq!(x.handle_event(&mut d, key(0x76, true)).unwrap(), go(convert));
}

#[test]
fn selections() {
    let (mut x, mut d) = setup();
    let convert = Request::ConvertSelection { selection: 1, target: 204, property: 206 };
    assert_eq!(x.paste_primary(), convert);
    let ev = Event::SelectionNotify { requestor: 3, property: 0 };
    assert_eq!(x.handle_event(&mut d, ev).unwrap(), go(Request::Nothing));
    assert!(!x.xsel_in_progress);
    x.paste_clipboard();
    let ev = Event::SelectionNotify { requestor: 3, property: 206 };
    let get = go(Request::GetProperty { requestor: 3, property: 206 });
    assert_eq!(x.handle_event(&mut d, ev).unwrap(), get);
    let reply = |format: u8, type_: u32, value: &[u8]| SelectionReply {
        format,
        type_,
        value: value.to_vec(),
    };
    let mut other = reply(16, 204, b"x");
    assert_eq!(x.handle_selection(&mut d, &mut other), Selected::InvalidFormat);
    assert!(!x.xsel_in_progress);
    assert_eq!(other.value, b"x");
    let mut part = reply(8, 207, b"x");
    assert_eq!(x.handle_selection(&mut d, &mut part), Selected::TooBig);
    assert_eq!(part.value, b"x");
    let mut binary = reply(8, 204, b"\xff");
    assert_eq!(x.handle_selection(&mut d, &mut binary), Selected::NotUtf8);
    assert!(binary.value.is_empty());
    assert_eq!(pass(&d), "");
    let mut text = reply(8, 204, "a\u{e9}".as_bytes());
    assert_eq!(x.handle_selection(&mut d, &mut text), Selected::Pasted);
    assert!(text.value.is_empty());
    assert_eq!((text.format, text.type_), (8, 204));
    assert_eq!(pass(&d), "a\u{e9}");
}

#[test]
fn focus() {
    let (mut x, mut d) = setup();
    let focused = |d: &Dialog| match &d.indicator {
        Indicator::Strings(i) => i.base.status.has_focus,
        _ => false,
    };
    x.handle_event(&mut d, Event::FocusIn { mode: 0 }).unwrap();
    assert!(focused(&d));
    x.handle_event(&mut d, Event::FocusOut { mode: 1 }).unwrap();
    assert!(focused(&d) && x.keyboard_grabbed);
    x.handle_event(&mut d, Event::FocusOut { mode: 3 }).unwrap();
    assert!(focused(&d));
    x.handle_event(&mut d, Event::FocusOut { mode: 0 }).unwrap();
    assert!(!focused(&d));
}

#[test]
fn messages_of_the_window_manager() {
    let (mut x, mut d) = setup();
    let message = |type_: u32, format: u8, data: u32| Event::ClientMessage { type_, format, data };
    let cancelled = Outcome { state: State::Cancelled, request: Request::Nothing };
    assert_eq!(x.handle_event(&mut d, message(201, 32, 202)).unwrap(), cancelled);
    let pong = go(Request::Pong { root: 5 });
    assert_eq!(x.handle_event(&mut d, message(201, 32, 203)).unwrap(), pong);
    assert_eq!(x.handle_event(&mut d, message(201, 8, 202)).unwrap(), go(Request::Nothing));
    assert_eq!(x.handle_event(&mut d, message(200, 32, 202)).unwrap(), go(Request::Nothing));
}

#[test]
fn other_events() {
    let (mut x, mut d) = setup();
    assert_eq!(x.handle_event(&mut d, Event::XkbStateNotify).unwrap(), go(Request::UpdateMask));
    let reload = go(Request::ReloadKeymap);
    assert_eq!(x.handle_event(&mut d, Event::XkbMapNotify).unwrap(), reload);
    assert_eq!(x.handle_event(&mut d, Event::XkbNewKeyboardNotify).unwrap(), reload);
    assert_eq!(x.handle_event(&mut d, Event::Ignored).unwrap(), go(Request::Nothing));
    x.handle_event(&mut d, Event::XfixesSelectionNotify { subtype: 1 }).unwrap();
    assert_eq!(d.background.alpha, 255);
    x.handle_event(&mut d, Event::XfixesSelectionNotify { subtype: 0 }).unwrap();
    assert_eq!(d.background.alpha, 9);
    x.handle_event(&mut d, Event::Expose { count: 0 }).unwrap();
    x.handle_event(&mut d, Event::UnmapNotify).unwrap();
    assert!(!x.config.backbuffer.visible);
    x.config.backbuffer.vsync_completed = false;
    x.config.backbuffer.backbuffer_idle = false;
    x.handle_event(&mut d, Event::PresentCompleteNotify { serial: 0 }).unwrap();
    x.handle_event(&mut d, Event::PresentIdleNotify { serial: 0 }).unwrap();
    assert!(x.config.backbuffer.vsync_completed && x.config.backbuffer.backbuffer_idle);
}

#[test]
fn requests_are_sent_after_the_last_event() {
    let (mut x, mut d) = setup();
    assert!(x.xcb_dirty());
    x.poll();
    assert!(!x.polled(true));
    assert!(!x.xcb_dequeue(true));
    x.poll();
    assert!(x.polled(false));
    x.flush(&mut d, false);
    assert_eq!(x.x_unflushed_count, 0);
    assert!(x.xcb_dequeue(false));
    x.poll();
    assert!(!x.polled(false));
    assert!(!x.xcb_dirty());
    x.readable();
    assert!(x.xcb_dirty());
}

#[test]
fn requests_are_sent_after_many_events() {
    let (mut x, _) = setup();
    for _ in 0..10 {
        assert!(!x.polled(true));
    }
    assert!(x.polled(true));
}

#[test]
fn cycles_are_timed() {
    let (mut x, _) = setup();
    assert_eq!(x.stopwatch_stop(50), (true, false));
    assert_eq!(x.stopwatch_stop(40), (false, false));
    assert_eq!(x.stopwatch_stop(101), (true, true));
    assert_eq!(x.max_work_time, 101);
}

#[test]
fn teardown_undoes_the_setup() {
    let (mut x, mut d) = setup();
    assert_eq!(x.teardown(), (false, Some((9, 77))));
    x.handle_event(&mut d, Event::FocusIn { mode: 1 }).unwrap();
    assert!(x.teardown().0);
}

#[test]
fn ends_of_the_dialog() {
    assert_eq!(after_timer(Action::Cancel), State::Cancelled);
    assert_eq!(after_timer(Action::Nothing), State::Continue);
    let (_, mut d) = setup();
    d.indicator.pass_insert("ok", false);
    let p = finish(State::Ready, d).unwrap();
    assert_eq!(p.0.unsecure(), ['o', 'k']);
    let (_, d) = setup();
    assert!(finish(State::Cancelled, d).is_none());
}

#[test]
fn events_keep_the_passphrase_and_the_counts() {
    let (mut x, mut d) = setup();
    d.indicator.pass_insert("abc", false);
    x.polled(true);
    x.stopwatch_stop(7);
    let p = place(&d, Some(1));
    let events = vec![
        Event::Expose { count: 0 },
        Event::FocusIn { mode: 0 },
        Event::ButtonPress { detail: 1, same_screen: true, place: p },
        Event::XfixesSelectionNotify { subtype: 1 },
        Event::ConfigureNotify { width: 1, height: 1 },
        key(0xff51, false),
    ];
    for ev in events {
        assert_eq!(x.handle_event(&mut d, ev).unwrap().state, State::Continue);
        assert_eq!(pass(&d), "abc");
        assert_eq!((x.x_unflushed_count, x.max_work_time), (1, 7));
    }
    x.handle_event(&mut d, key(0x75, true)).unwrap();
    assert_eq!(pass(&d), "");
}
