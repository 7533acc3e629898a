use xaskpass::backbuffer::Visualtype;
use xaskpass::config::PangoDirection;
use xaskpass::window::{
    choose_visual, compositor_name, exit_code, find_xcb_visualtype, has_compositor, icon_bytes,
    icon_data,
    log_level, needs_colormap, size_hints, text_direction, verbosity, window_properties,
    window_title, window_visual, wm_class, DirectFormat, End, Level, PictFormat, PictVisual, PropertyData, WindowAtoms,
};

fn argb32(id: u32) -> PictFormat {
    PictFormat {
        id,
        direct: true,
        depth: 32,
        format: DirectFormat {
            red_shift: 16,
            red_mask: 0xff,
            green_shift: 8,
            green_mask: 0xff,
            blue_shift: 0,
            blue_mask: 0xff,
            alpha_shift: 24,
            alpha_mask: 0xff,
        },
    }
}

#[test]
fn visual_with_opacity_is_chosen() {
    let mut other = argb32(7);
    other.format.alpha_mask = 0;
    let mut indexed = argb32(8);
    indexed.direct = false;
    let formats = vec![other, indexed, argb32(9), argb32(10)];
    let depths = vec![
        vec![PictVisual { visual: 1, format: 7 }],
        vec![PictVisual { visual: 2, format: 8 }, PictVisual { visual: 3, format: 9 }],
        vec![PictVisual { visual: 4, format: 9 }],
    ];
    assert_eq!(choose_visual(Some((formats, depths)), (24, 99)), (32, 3));
}

#[test]
fn visual_of_the_screen_is_the_fallback() {
    assert_eq!(choose_visual(None, (24, 99)), (24, 99));
    assert_eq!(choose_visual(Some((Vec::new(), Vec::new())), (24, 99)), (24, 99));
    let depths = vec![vec![PictVisual { visual: 1, format: 5 }]];
    assert_eq!(choose_visual(Some((vec![argb32(9)], depths)), (24, 99)), (24, 99));
    assert_eq!(window_visual(24, (32, 3), (24, 99)), (24, 99));
    assert_eq!(window_visual(32, (32, 3), (24, 99)), (32, 3));
}

fn visualtype(visual_id: u32, class: u8) -> Visualtype {
    Visualtype {
        visual_id,
        class,
        bits_per_rgb_value: 8,
        colormap_entries: 256,
        red_mask: 1,
        green_mask: 2,
        blue_mask: 3,
    }
}

#[test]
fn visual_is_found_by_its_number() {
    let depths = vec![
        vec![visualtype(1, 4)],
        Vec::new(),
        vec![visualtype(2, 4), visualtype(3, 4)],
        vec![visualtype(3, 5)],
    ];
    assert_eq!(find_xcb_visualtype(&depths, 3), Some(visualtype(3, 4)));
    assert_eq!(find_xcb_visualtype(&depths, 9), None);
    assert!(needs_colormap(3, 1));
    assert!(!needs_colormap(1, 1));
}

#[test]
fn compositor() {
    assert_eq!(compositor_name(32, 0).unwrap(), "_NET_WM_CM_S0");
    assert_eq!(compositor_name(32, 12).unwrap(), "_NET_WM_CM_S12");
    assert_eq!(compositor_name(24, 0), None);
    assert!(has_compositor(Some(5)));
    assert!(!has_compositor(Some(0)));
    assert!(!has_compositor(None));
}

#[test]
fn titles() {
    assert_eq!(window_title("t".to_string(), false, "host"), "t");
    assert_eq!(window_title("t".to_string(), true, "host"), "t@host");
    assert_eq!(wm_class("me"), b"me\0SshAskpass");
}

#[test]
fn properties_in_order() {
    let atoms = WindowAtoms {
        UTF8_STRING: 300,
        WM_PROTOCOLS: 301,
        WM_DELETE_WINDOW: 302,
        NET_WM_NAME: 303,
        NET_WM_ICON_NAME: 304,
        NET_WM_PID: 305,
        NET_WM_WINDOW_TYPE: 306,
        NET_WM_WINDOW_TYPE_DIALOG: 307,
        NET_WM_STATE: 308,
        NET_WM_STATE_ABOVE: 309,
    };
    let list = window_properties(atoms, "t\u{e9}", "me", b"host".to_vec(), 42);
    let names: Vec<(u32, u32)> = list.iter().map(|p| (p.name, p.type_)).collect();
    assert_eq!(
        names,
        vec![
            (39, 31),
            (37, 31),
            (303, 300),
            (304, 300),
            (67, 31),
            (36, 31),
            (305, 6),
            (306, 4),
            (308, 4),
            (301, 4)
        ]
    );
    let numbers: Vec<u32> = list
        .iter()
        .filter_map(|p| match p.data {
            PropertyData::Number(n) => Some(n),
            PropertyData::Bytes(_) => None,
        })
        .collect();
    assert_eq!(numbers, vec![42, 307, 309, 302]);
    match &list[2].data {
        PropertyData::Bytes(b) => assert_eq!(b, "t\u{e9}".as_bytes()),
        PropertyData::Number(_) => panic!("bytes expected"),
    }
    match &list[5].data {
        PropertyData::Bytes(b) => assert_eq!(b, b"host"),
        PropertyData::Number(_) => panic!("bytes expected"),
    }
}

#[test]
fn icons() {
    let (data, count) = icon_data(0x01020304, 2, &[9, 8, 7, 6]);
    assert_eq!(&data[..4], 0x01020304u32.to_ne_bytes());
    assert_eq!(&data[4..8], 2u32.to_ne_bytes());
    assert_eq!(&data[8..], [9, 8, 7, 6]);
    assert_eq!(count, 3);
    let (data, count) = icon_bytes([1, 2, 3, 4], [5, 6, 7, 8], &[9, 10, 11, 12, 13]);
    assert_eq!(data, [1, 2, 3, 4, 5, 6, 7, 8, 9, 10, 11, 12, 13]);
    assert_eq!(count, 3);
    assert_eq!(icon_bytes([0; 4], [1; 4], &[]), (vec![0, 0, 0, 0, 1, 1, 1, 1], 2));
}

#[test]
fn hints_for_the_size() {
    let fixed = size_hints(300, 65535, false);
    assert_eq!(fixed.size, (300, 65535));
    assert_eq!(fixed.min_size, (300, 65535));
    assert_eq!(fixed.max_size, Some((300, 65535)));
    assert_eq!(size_hints(3, 4, true).max_size, None);
}

#[test]
fn ends_of_the_program() {
    assert_eq!(exit_code(End::ConfigWritten), 0);
    assert_eq!(exit_code(End::Passphrase), 0);
    assert_eq!(exit_code(End::Cancelled), 1);
    assert_eq!(exit_code(End::Signal), 1);
    assert_eq!(exit_code(End::Failed), 2);
}

#[test]
fn more_flags_log_more() {
    assert_eq!(verbosity(0), 2);
    assert_eq!(verbosity(1), 3);
    assert_eq!(log_level(0), Level::Info);
    assert_eq!(log_level(1), Level::Debug);
    assert_eq!(log_level(2), Level::Trace);
    assert_eq!(log_level(3), Level::Trace);
    assert_eq!(log_level(usize::MAX - 2), Level::Trace);
}

#[test]
fn directions() {
    assert_eq!(text_direction(None, PangoDirection::WeakRtl), PangoDirection::WeakRtl);
    assert_eq!(
        text_direction(Some(PangoDirection::Ltr), PangoDirection::WeakRtl),
        PangoDirection::Ltr
    );
}
