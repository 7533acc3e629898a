use xaskpass::backbuffer::{
    xcb_visualtype_t, Backbuffer, Painting, State, Visualtype, XcbSurface,
};
use xaskpass::config::Rgba;
use xaskpass::dialog::indicator::Circle;
use xaskpass::dialog::layout::Layout;
use xaskpass::dialog::{Dialog, Indicator, Paint};

fn ring_dialog() -> Dialog {
    let background = Rgba { red: 0, green: 0, blue: 0, alpha: 255 };
    let ring = Indicator::Circle(Circle::new(false, 3, true, true));
    Dialog::new(Layout::Center, ring, background, None)
}

fn shown() -> (Backbuffer, Dialog) {
    let mut d = ring_dialog();
    let mut b = Backbuffer::new(true, 1, XcbSurface { width: 1, height: 1 }).unwrap();
    b.init(7, 9, 100, 50, &mut d);
    b.set_exposed();
    (b, d)
}

#[test]
fn present_extension_is_required() {
    let err = Backbuffer::new(false, 1, XcbSurface { width: 1, height: 1 }).unwrap_err();
    assert_eq!(err.0, "x11 present extension required");
}

#[test]
fn init_paints_the_dialog() {
    let (b, d) = shown();
    assert!(!d.dirty());
    assert_eq!(b.surface, XcbSurface { width: 100, height: 50 });
    assert_eq!(b.dirty, State::Dirty);
    assert_eq!(b.teardown(), Some((7, 9)));
}

#[test]
fn one_frame_at_a_time() {
    let (mut b, mut d) = shown();
    let c = b.commit(&mut d, false);
    assert!(c.painting.is_none());
    assert_eq!(c.present, Some(1));
    d.indicator.pass_insert("a", false);
    // the server still reads the picture
    let c = b.commit(&mut d, false);
    assert!(c.painting.is_none());
    assert_eq!(c.present, None);
    b.on_idle_notify(0);
    assert!(!b.backbuffer_idle);
    b.on_idle_notify(1);
    // the frame before has not been shown
    let c = b.commit(&mut d, false);
    assert!(matches!(c.painting, Some(Painting::Repaint(Paint::Parts { .. }))));
    assert_eq!(c.present, None);
    b.on_vsync_completed(1);
    let c = b.commit(&mut d, false);
    assert!(c.painting.is_none());
    assert_eq!(c.present, Some(2));
}

#[test]
fn nothing_happens_while_invisible() {
    let mut d = ring_dialog();
    let mut b = Backbuffer::new(true, 1, XcbSurface { width: 1, height: 1 }).unwrap();
    let c = b.commit(&mut d, true);
    assert!(c.painting.is_none() && c.present.is_none() && !c.animate);
    assert!(d.dirty());
}

#[test]
fn serial_numbers_wrap() {
    let (mut b, mut d) = shown();
    b.serial = u32::MAX;
    assert_eq!(b.commit(&mut d, false).present, Some(0));
}

#[test]
fn moving_ring_asks_for_the_next_step() {
    let (mut b, mut d) = shown();
    let c = b.commit(&mut d, true);
    assert!(c.animate);
    assert!(d.dirty());
}

#[test]
fn resizing_makes_a_larger_picture() {
    let (mut b, mut d) = shown();
    b.resize_requested = Some((150, 40));
    let c = b.commit(&mut d, false);
    match c.painting {
        Some(Painting::Resize { width, height, new_picture }) => {
            assert_eq!((width, height, new_picture), (150, 40, true));
        }
        _ => panic!("resize expected"),
    }
    assert_eq!(b.surface, XcbSurface { width: 200, height: 50 });
    assert_eq!(b.resize_requested, None);
}

#[test]
fn pictures_double_and_never_shrink() {
    let mut s = XcbSurface { width: 100, height: 50 };
    assert!(!s.resize(100, 50));
    assert!(!s.resize(1, 1));
    assert!(s.resize(101, 500));
    assert_eq!(s, XcbSurface { width: 200, height: 500 });
    let mut big = XcbSurface { width: 40000, height: 1 };
    assert!(big.resize(50000, 1));
    assert_eq!(big, XcbSurface { width: 50000, height: 1 });
}

#[test]
fn exposing_a_window_in_sync() {
    let (mut b, mut d) = shown();
    b.commit(&mut d, false);
    b.set_exposed();
    assert_eq!(b.dirty, State::Sync);
    b.on_vsync_completed(1);
    b.set_exposed();
    assert_eq!(b.dirty, State::Exposed);
    assert_eq!(b.commit(&mut d, false).present, Some(2));
}

#[test]
fn visualtype_for_drawing() {
    let v = Visualtype {
        visual_id: 1,
        class: 4,
        bits_per_rgb_value: 8,
        colormap_entries: 256,
        red_mask: 0xff0000,
        green_mask: 0xff00,
        blue_mask: 0xff,
    };
    let x = xcb_visualtype_t::from(v);
    assert_eq!((x.visual_id, x.class, x.bits_per_rgb_value, x.colormap_entries), (1, 4, 8, 256));
    assert_eq!((x.red_mask, x.green_mask, x.blue_mask), (0xff0000, 0xff00, 0xff));
    assert_eq!(x.pad0, [0, 0, 0, 0]);
}
