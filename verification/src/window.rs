//! The window of the dialog: the kind of its pixels, and what the window manager is told.
use vstd::prelude::*;
use vstd::utf8::*;

use crate::backbuffer::{Visualtype, XId};
use crate::config::PangoDirection;

verus! {

/// The class of the window.
pub const CLASS: &'static str = "SshAskpass";

/// Where the parts of a colour are in a pixel.
#[derive(Clone, Copy, Debug, PartialEq, Eq, Structural)]
pub struct DirectFormat {
    pub red_shift: u16,
    pub red_mask: u16,
    pub green_shift: u16,
    pub green_mask: u16,
    pub blue_shift: u16,
    pub blue_mask: u16,
    pub alpha_shift: u16,
    pub alpha_mask: u16,
}

/// A format of pixels. `direct` where a pixel holds its colour itself.
#[derive(Clone, Copy, Debug, PartialEq, Eq, Structural)]
pub struct PictFormat {
    pub id: XId,
    pub direct: bool,
    pub depth: u8,
    pub format: DirectFormat,
}

/// A kind of pixels and its format.
#[derive(Clone, Copy, Debug, PartialEq, Eq, Structural)]
pub struct PictVisual {
    pub visual: XId,
    pub format: XId,
}

/// A pixel has 32 bits: from the top, eight each for the opacity, red, green and blue.
pub open spec fn is_argb32(f: PictFormat) -> bool {
    &&& f.direct
    &&& f.depth == 32
    &&& f.format == (DirectFormat {
        red_shift: 16,
        red_mask: 0xff,
        green_shift: 8,
        green_mask: 0xff,
        blue_shift: 0,
        blue_mask: 0xff,
        alpha_shift: 24,
        alpha_mask: 0xff,
    })
}

/// The first format with opacity.
pub open spec fn first_argb32(formats: Seq<PictFormat>) -> Option<PictFormat>
    decreases formats.len(),
{
    if formats.len() == 0 {
        None
    } else if is_argb32(formats[0]) {
        Some(formats[0])
    } else {
        first_argb32(formats.drop_first())
    }
}

/// The first of `visuals` with the given format.
pub open spec fn first_of_format(visuals: Seq<PictVisual>, format: XId) -> Option<PictVisual>
    decreases visuals.len(),
{
    if visuals.len() == 0 {
        None
    } else if visuals[0].format == format {
        Some(visuals[0])
    } else {
        first_of_format(visuals.drop_first(), format)
    }
}

/// The first with the given format in the first of `depths` that has one.
pub open spec fn first_in_depths(depths: Seq<Vec<PictVisual>>, format: XId) -> Option<PictVisual>
    decreases depths.len(),
{
    if depths.len() == 0 {
        None
    } else {
        match first_of_format(depths[0]@, format) {
            Some(v) => Some(v),
            None => first_in_depths(depths.drop_first(), format),
        }
    }
}

fn find_argb32(formats: &Vec<PictFormat>) -> (r: Option<PictFormat>)
    ensures
        r == first_argb32(formats@),
{
    let mut i: usize = 0;
    assert(formats@.skip(0) =~= formats@);
    while i < formats.len()
        invariant
            i <= formats@.len(),
            first_argb32(formats@) == first_argb32(formats@.skip(i as int)),
        decreases formats@.len() - i,
    {
        let f = formats[i];
        let d = f.format;
        if f.direct && f.depth == 32 && d.red_mask == 0xff && d.green_mask == 0xff && d.blue_mask
            == 0xff && d.alpha_mask == 0xff && d.red_shift == 16 && d.green_shift == 8
            && d.blue_shift == 0 && d.alpha_shift == 24 {
            return Some(f);
        }
        assert(formats@.skip(i as int).drop_first() =~= formats@.skip(i + 1));
        i += 1;
    }
    None
}

fn find_of_format(visuals: &Vec<PictVisual>, format: XId) -> (r: Option<PictVisual>)
    ensures
        r == first_of_format(visuals@, format),
{
    let mut i: usize = 0;
    assert(visuals@.skip(0) =~= visuals@);
    while i < visuals.len()
        invariant
            i <= visuals@.len(),
            first_of_format(visuals@, format) == first_of_format(visuals@.skip(i as int), format),
        decreases visuals@.len() - i,
    {
        if visuals[i].format == format {
            return Some(visuals[i]);
        }
        assert(visuals@.skip(i as int).drop_first() =~= visuals@.skip(i + 1));
        i += 1;
    }
    None
}

fn find_in_depths(depths: &Vec<Vec<PictVisual>>, format: XId) -> (r: Option<PictVisual>)
    ensures
        r == first_in_depths(depths@, format),
{
    let mut i: usize = 0;
    assert(depths@.skip(0) =~= depths@);
    while i < depths.len()
        invariant
            i <= depths@.len(),
            first_in_depths(depths@, format) == first_in_depths(depths@.skip(i as int), format),
        decreases depths@.len() - i,
    {
        let found = find_of_format(&depths[i], format);
        if found.is_some() {
            return found;
        }
        assert(depths@.skip(i as int).drop_first() =~= depths@.skip(i + 1));
        i += 1;
    }
    None
}

/// The depth and the kind of pixels with opacity, where the server has one for the formats
/// `formats` and the kinds `depths` of the screen, else those of the screen.
pub open spec fn chosen_visual(
    formats: Seq<PictFormat>,
    depths: Seq<Vec<PictVisual>>,
    root: (u8, XId),
) -> (u8, XId) {
    match first_argb32(formats) {
        Some(f) => match first_in_depths(depths, f.id) {
            Some(v) => (f.depth, v.visual),
            None => root,
        },
        None => root,
    }
}

/// Chooses the kind of pixels. `render` is what the server tells of formats and of the kinds
/// of pixels of the screen, where it can.
pub fn choose_visual(
    render: Option<(Vec<PictFormat>, Vec<Vec<PictVisual>>)>,
    root: (u8, XId),
) -> (r: (u8, XId))
    ensures
        r == (match render {
            Some((formats, depths)) => chosen_visual(formats@, depths@, root),
            None => root,
        }),
{
    match render {
        None => root,
        Some((formats, depths)) => match find_argb32(&formats) {
            None => root,
            Some(f) => match find_in_depths(&depths, f.id) {
                None => root,
                Some(v) => (f.depth, v.visual),
            },
        },
    }
}

/// The first of `visuals` with the given number.
pub open spec fn first_with_id(visuals: Seq<Visualtype>, id: XId) -> Option<Visualtype>
    decreases visuals.len(),
{
    if visuals.len() == 0 {
        None
    } else if visuals[0].visual_id == id {
        Some(visuals[0])
    } else {
        first_with_id(visuals.drop_first(), id)
    }
}

/// The first with the given number in the first of `depths` that has one.
pub open spec fn first_with_id_in(depths: Seq<Vec<Visualtype>>, id: XId) -> Option<Visualtype>
    decreases depths.len(),
{
    if depths.len() == 0 {
        None
    } else {
        match first_with_id(depths[0]@, id) {
            Some(v) => Some(v),
            None => first_with_id_in(depths.drop_first(), id),
        }
    }
}

fn find_with_id(visuals: &Vec<Visualtype>, id: XId) -> (r: Option<Visualtype>)
    ensures
        r == first_with_id(visuals@, id),
{
    let mut i: usize = 0;
    assert(visuals@.skip(0) =~= visuals@);
    while i < visuals.len()
        invariant
            i <= visuals@.len(),
            first_with_id(visuals@, id) == first_with_id(visuals@.skip(i as int), id),
        decreases visuals@.len() - i,
    {
        if visuals[i].visual_id == id {
            return Some(visuals[i]);
        }
        assert(visuals@.skip(i as int).drop_first() =~= visuals@.skip(i + 1));
        i += 1;
    }
    None
}

/// Finds a kind of pixels by its number. `depths` are the kinds of all screens, by their
/// depths, in the order of the screens.
pub fn find_xcb_visualtype(depths: &Vec<Vec<Visualtype>>, visual_id: u32) -> (r: Option<Visualtype>)
    ensures
        r == first_with_id_in(depths@, visual_id),
{
    let mut i: usize = 0;
    assert(depths@.skip(0) =~= depths@);
    while i < depths.len()
        invariant
            i <= depths@.len(),
            first_with_id_in(depths@, visual_id) == first_with_id_in(
                depths@.skip(i as int),
                visual_id,
            ),
        decreases depths@.len() - i,
    {
        let found = find_with_id(&depths[i], visual_id);
        if found.is_some() {
            return found;
        }
        assert(depths@.skip(i as int).drop_first() =~= depths@.skip(i + 1));
        i += 1;
    }
    None
}

/// What is found by its number has that number.
pub proof fn lemma_found_has_id(depths: Seq<Vec<Visualtype>>, id: XId)
    ensures
        first_with_id_in(depths, id) matches Some(v) ==> v.visual_id == id,
    decreases depths.len(),
{
    if depths.len() > 0 {
        lemma_first_has_id(depths[0]@, id);
        lemma_found_has_id(depths.drop_first(), id);
    }
}

proof fn lemma_first_has_id(visuals: Seq<Visualtype>, id: XId)
    ensures
        first_with_id(visuals, id) matches Some(v) ==> v.visual_id == id,
    decreases visuals.len(),
{
    if visuals.len() > 0 {
        lemma_first_has_id(visuals.drop_first(), id);
    }
}

/// The depth of the window is that of the screen, or one with opacity.
pub proof fn lemma_chosen_depth(
    formats: Seq<PictFormat>,
    depths: Seq<Vec<PictVisual>>,
    root: (u8, XId),
)
    ensures
        chosen_visual(formats, depths, root) == root || chosen_visual(formats, depths, root).0
            == 32,
    decreases formats.len(),
{
    lemma_first_is_argb32(formats);
}

proof fn lemma_first_is_argb32(formats: Seq<PictFormat>)
    ensures
        first_argb32(formats) matches Some(f) ==> is_argb32(f),
    decreases formats.len(),
{
    if formats.len() > 0 {
        lemma_first_is_argb32(formats.drop_first());
    }
}

/// The depth with opacity.
pub const ALPHA_DEPTH: u8 = 32;

/// The depth and the kind of pixels of the window: chosen only where the settings ask for
/// opacity.
pub fn window_visual(configured_depth: u8, chosen: (u8, XId), root: (u8, XId)) -> (r: (u8, XId))
    ensures
        r == (if configured_depth == ALPHA_DEPTH {
            chosen
        } else {
            root
        }),
{
    if configured_depth == ALPHA_DEPTH {
        chosen
    } else {
        root
    }
}

/// The name of the selection that a compositor of the screen owns, where the window has
/// opacity so that this matters.
pub fn compositor_name(depth: u8, screen_num: u64) -> (r: Option<String>)
    ensures
        match r {
            Some(name) => depth == ALPHA_DEPTH && name@ == "_NET_WM_CM_S"@
                + crate::text::decimal_digits(screen_num as nat),
            None => depth != ALPHA_DEPTH,
        },
{
    if depth == ALPHA_DEPTH {
        Some(String::from_str("_NET_WM_CM_S").concat(crate::text::decimal(screen_num).as_str()))
    } else {
        None
    }
}

/// Whether something shows through the window: there is a compositor, which owns its
/// selection.
pub fn has_compositor(owner: Option<XId>) -> (r: bool)
    ensures
        r == (owner matches Some(o) && o != crate::event::NONE),
{
    match owner {
        Some(o) => o != crate::event::NONE,
        None => false,
    }
}

/// Whether the window needs colours of its own: its pixels are not those of the screen.
pub fn needs_colormap(visual_id: XId, root_visual: XId) -> (r: bool)
    ensures
        r == (visual_id != root_visual),
{
    visual_id != root_visual
}

/// The direction of text: the one that was configured, else that of the keyboard.
pub fn text_direction(configured: Option<PangoDirection>, keyboard: PangoDirection) -> (r:
    PangoDirection)
    ensures
        r == (match configured {
            Some(direction) => direction,
            None => keyboard,
        }),
{
    match configured {
        Some(direction) => direction,
        None => keyboard,
    }
}

/// The title of the window.
pub open spec fn title_text(title: Seq<char>, show_hostname: bool, hostname: Seq<char>) -> Seq<
    char,
> {
    if show_hostname {
        title + seq!['@'] + hostname
    } else {
        title
    }
}

/// The title of the window, with the name of the machine where the settings ask for it.
pub fn window_title(title: String, show_hostname: bool, hostname: &str) -> (r: String)
    ensures
        r@ == title_text(title@, show_hostname, hostname@),
{
    let mut title = title;
    if show_hostname {
        let ghost before = title@;
        title.push('@');
        assert(title@ =~= before + seq!['@']);
        title.append(hostname);
    }
    title
}

/// The name of the program and the class of the window, with a zero byte between them.
pub open spec fn class_bytes(instance: Seq<char>) -> Seq<u8> {
    encode_utf8(instance).push(0u8) + encode_utf8(CLASS@)
}

fn append_bytes(to: &mut Vec<u8>, bytes: &[u8])
    ensures
        final(to)@ == old(to)@ + bytes@,
{
    let ghost before = to@;
    for i in 0..bytes.len()
        invariant
            to@ == before + bytes@.take(i as int),
    {
        to.push(bytes[i]);
        assert(to@ =~= before + bytes@.take(i + 1));
    }
    assert(to@ =~= before + bytes@);
}

/// The name of the program and the class of the window, with a zero byte between them.
pub fn wm_class(instance: &str) -> (r: Vec<u8>)
    ensures
        r@ == class_bytes(instance@),
{
    let mut r: Vec<u8> = Vec::new();
    append_bytes(&mut r, instance.as_bytes());
    r.push(0u8);
    append_bytes(&mut r, CLASS.as_bytes());
    assert(r@ =~= class_bytes(instance@));
    r
}

fn bytes_of(text: &str) -> (r: Vec<u8>)
    ensures
        r@ == encode_utf8(text@),
{
    let mut r: Vec<u8> = Vec::new();
    append_bytes(&mut r, text.as_bytes());
    assert(r@ =~= encode_utf8(text@));
    r
}

/// Names that every server has.
pub const ATOM: XId = 4;

pub const CARDINAL: XId = 6;

pub const STRING: XId = 31;

pub const WM_CLIENT_MACHINE: XId = 36;

pub const WM_ICON_NAME: XId = 37;

pub const WM_NAME: XId = 39;

pub const WM_CLASS: XId = 67;

/// Names that the server is asked for.
#[derive(Clone, Copy, Debug)]
#[allow(non_snake_case)]
pub struct WindowAtoms {
    pub UTF8_STRING: XId,
    pub WM_PROTOCOLS: XId,
    pub WM_DELETE_WINDOW: XId,
    pub NET_WM_NAME: XId,
    pub NET_WM_ICON_NAME: XId,
    pub NET_WM_PID: XId,
    pub NET_WM_WINDOW_TYPE: XId,
    pub NET_WM_WINDOW_TYPE_DIALOG: XId,
    pub NET_WM_STATE: XId,
    pub NET_WM_STATE_ABOVE: XId,
}

/// The value of a property.
pub enum PropertyData {
    Bytes(Vec<u8>),
    Number(u32),
}

/// A property of the window.
pub struct Property {
    pub name: XId,
    pub type_: XId,
    pub data: PropertyData,
}

impl Property {
    /// The property has this name and this type, and these bytes.
    pub open spec fn is_bytes(self, name: XId, type_: XId, bytes: Seq<u8>) -> bool {
        &&& self.name == name
        &&& self.type_ == type_
        &&& self.data matches PropertyData::Bytes(b) && b@ == bytes
    }

    /// The property has this name and this type, and this number.
    pub open spec fn is_number(self, name: XId, type_: XId, number: u32) -> bool {
        self == (Property { name, type_, data: PropertyData::Number(number) })
    }
}

fn bytes_property(name: XId, type_: XId, bytes: Vec<u8>) -> (r: Property)
    ensures
        r.is_bytes(name, type_, bytes@),
{
    Property { name, type_, data: PropertyData::Bytes(bytes) }
}

fn number_property(name: XId, type_: XId, number: u32) -> (r: Property)
    ensures
        r.is_number(name, type_, number),
{
    Property { name, type_, data: PropertyData::Number(number) }
}

/// `properties` is what the window manager is told, in this order: the title in the old and
/// in the new form, for the window and for its icon, the class, the machine, the process,
/// that it is a dialog, that it is above others, and that it can be asked to close.
pub open spec fn tells(
    properties: Seq<Property>,
    atoms: WindowAtoms,
    title: Seq<char>,
    instance: Seq<char>,
    hostname: Seq<u8>,
    pid: u32,
) -> bool {
    &&& properties.len() == 10
    &&& properties[0].is_bytes(WM_NAME, STRING, encode_utf8(title))
    &&& properties[1].is_bytes(WM_ICON_NAME, STRING, encode_utf8(title))
    &&& properties[2].is_bytes(atoms.NET_WM_NAME, atoms.UTF8_STRING, encode_utf8(title))
    &&& properties[3].is_bytes(atoms.NET_WM_ICON_NAME, atoms.UTF8_STRING, encode_utf8(title))
    &&& properties[4].is_bytes(WM_CLASS, STRING, class_bytes(instance))
    &&& properties[5].is_bytes(WM_CLIENT_MACHINE, STRING, hostname)
    &&& properties[6].is_number(atoms.NET_WM_PID, CARDINAL, pid)
    &&& properties[7].is_number(
        atoms.NET_WM_WINDOW_TYPE,
        ATOM,
        atoms.NET_WM_WINDOW_TYPE_DIALOG,
    )
    &&& properties[8].is_number(atoms.NET_WM_STATE, ATOM, atoms.NET_WM_STATE_ABOVE)
    &&& properties[9].is_number(atoms.WM_PROTOCOLS, ATOM, atoms.WM_DELETE_WINDOW)
}

/// What the window manager is told, in this order.
pub fn window_properties(
    atoms: WindowAtoms,
    title: &str,
    instance: &str,
    hostname: Vec<u8>,
    pid: u32,
) -> (r: Vec<Property>)
    ensures
        tells(r@, atoms, title@, instance@, hostname@, pid),
{
    let mut r: Vec<Property> = Vec::new();
    r.push(bytes_property(WM_NAME, STRING, bytes_of(title)));
    r.push(bytes_property(WM_ICON_NAME, STRING, bytes_of(title)));
    r.push(bytes_property(atoms.NET_WM_NAME, atoms.UTF8_STRING, bytes_of(title)));
    r.push(bytes_property(atoms.NET_WM_ICON_NAME, atoms.UTF8_STRING, bytes_of(title)));
    r.push(bytes_property(WM_CLASS, STRING, wm_class(instance)));
    r.push(bytes_property(WM_CLIENT_MACHINE, STRING, hostname));
    r.push(number_property(atoms.NET_WM_PID, CARDINAL, pid));
    r.push(
        number_property(atoms.NET_WM_WINDOW_TYPE, ATOM, atoms.NET_WM_WINDOW_TYPE_DIALOG),
    );
    r.push(number_property(atoms.NET_WM_STATE, ATOM, atoms.NET_WM_STATE_ABOVE));
    r.push(number_property(atoms.WM_PROTOCOLS, ATOM, atoms.WM_DELETE_WINDOW));
    r
}

/// The bytes of a number, the lowest first.
pub open spec fn le_bytes(n: u32) -> Seq<u8> {
    seq![
        (n % 0x100) as u8,
        ((n / 0x100) % 0x100) as u8,
        ((n / 0x1_0000) % 0x100) as u8,
        (n / 0x100_0000) as u8,
    ]
}

/// `u32::to_ne_bytes`: the bytes of a number, the lowest or the highest first. Which of the
/// two is up to the machine.
#[verifier::external_body]
fn to_ne_bytes(n: u32) -> (r: [u8; 4])
    ensures
        r@ == le_bytes(n) || r@ == le_bytes(n).reverse(),
{
    n.to_ne_bytes()
}

/// The bytes of a number in the order of some machine.
pub open spec fn native_bytes(n: u32, bytes: Seq<u8>) -> bool {
    bytes == le_bytes(n) || bytes == le_bytes(n).reverse()
}

/// The data of an icon: the bytes of its width and of its height, and its pixels. The second
/// value is its length in numbers of four bytes.
pub fn icon_bytes(width: [u8; 4], height: [u8; 4], data: &[u8]) -> (r: (Vec<u8>, u32))
    requires
        (data@.len() + 8) / 4 <= u32::MAX,
        data@.len() + 8 <= usize::MAX,
    ensures
        r.0@ == width@ + height@ + data@,
        r.1 == (data@.len() + 8) / 4,
{
    let mut icon: Vec<u8> = Vec::new();
    append_bytes(&mut icon, &width);
    append_bytes(&mut icon, &height);
    append_bytes(&mut icon, data);
    assert(icon@ =~= width@ + height@ + data@);
    let count: u32 = (icon.len() / 4) as u32;
    (icon, count)
}

/// The data of an icon: its width and its height in the order of the machine, and its
/// pixels. The second value is its length in numbers of four bytes. That the two stand in
/// the same order is left unsaid, as the order is the machine's.
pub fn icon_data(width: u32, height: u32, data: &[u8]) -> (r: (Vec<u8>, u32))
    requires
        (data@.len() + 8) / 4 <= u32::MAX,
        data@.len() + 8 <= usize::MAX,
    ensures
        native_bytes(width, r.0@.take(4)),
        native_bytes(height, r.0@.subrange(4, 8)),
        r.0@.skip(8) == data@,
        r.1 == (data@.len() + 8) / 4,
{
    let first = to_ne_bytes(width);
    let second = to_ne_bytes(height);
    let r = icon_bytes(first, second, data);
    assert(r.0@.take(4) =~= first@);
    assert(r.0@.subrange(4, 8) =~= second@);
    assert(r.0@.skip(8) =~= data@);
    r
}

/// The sizes that the window manager may give to the window.
#[derive(Clone, Copy, Debug, PartialEq, Eq)]
pub struct SizeHints {
    pub size: (i32, i32),
    pub min_size: (i32, i32),
    pub max_size: Option<(i32, i32)>,
}

/// The window is at least as large as the dialog, and no larger unless the settings allow it.
pub fn size_hints(width: u16, height: u16, resizable: bool) -> (r: SizeHints)
    ensures
        r.size == (width as i32, height as i32),
        r.min_size == (width as i32, height as i32),
        r.max_size == (if resizable {
            None
        } else {
            Some((width as i32, height as i32))
        }),
{
    let size: (i32, i32) = (width as i32, height as i32);
    SizeHints {
        size,
        min_size: size,
        max_size: if resizable {
            None
        } else {
            Some(size)
        },
    }
}

/// How the program ends.
#[derive(Clone, Copy, Debug, PartialEq, Eq, Structural)]
pub enum End {
    /// The default settings have been written.
    ConfigWritten,
    /// The passphrase has been written.
    Passphrase,
    Cancelled,
    Signal,
    Failed,
}

/// What the program returns.
pub open spec fn code_of(end: End) -> int {
    match end {
        End::ConfigWritten | End::Passphrase => 0,
        End::Cancelled | End::Signal => 1,
        End::Failed => 2,
    }
}

/// What the program returns: zero where it has written what it was asked for, one where it
/// was stopped, two after an error.
pub fn exit_code(end: End) -> (r: i32)
    ensures
        r == code_of(end),
        r == (match end {
            End::ConfigWritten | End::Passphrase => 0int,
            End::Cancelled | End::Signal => 1int,
            End::Failed => 2int,
        }),
{
    match end {
        End::ConfigWritten | End::Passphrase => 0,
        End::Cancelled | End::Signal => 1,
        End::Failed => 2,
    }
}

/// How detailed a message is: from errors to traces of every step.
#[derive(Clone, Copy, Debug, PartialEq, Eq, Structural)]
pub enum Level {
    Off,
    Error,
    Warn,
    Info,
    Debug,
    Trace,
}

impl Level {
    /// The place of the level among all of them, the most detailed last.
    pub open spec fn rank(self) -> int {
        match self {
            Level::Off => 0,
            Level::Error => 1,
            Level::Warn => 2,
            Level::Info => 3,
            Level::Debug => 4,
            Level::Trace => 5,
        }
    }
}

/// The most detailed level that is logged for a number.
pub open spec fn level_of(number: nat) -> Level {
    if number == 0 {
        Level::Error
    } else if number == 1 {
        Level::Warn
    } else if number == 2 {
        Level::Info
    } else if number == 3 {
        Level::Debug
    } else {
        Level::Trace
    }
}

/// `stderrlog::LogLevelNum::from` on a number: from 0 for errors to 4 and more for traces.
#[verifier::external_body]
fn number_to_level(number: usize) -> (r: Level)
    ensures
        r == level_of(number as nat),
{
    match stderrlog::LogLevelNum::from(number) {
        stderrlog::LogLevelNum::Off => Level::Off,
        stderrlog::LogLevelNum::Error => Level::Error,
        stderrlog::LogLevelNum::Warn => Level::Warn,
        stderrlog::LogLevelNum::Info => Level::Info,
        stderrlog::LogLevelNum::Debug => Level::Debug,
        stderrlog::LogLevelNum::Trace => Level::Trace,
    }
}

/// How much is logged, as a number: that of information, and one more for each time that
/// more is asked for.
pub fn verbosity(verbose: usize) -> (r: usize)
    requires
        verbose + 2 <= usize::MAX,
    ensures
        r == verbose + 2,
{
    verbose + 2
}

/// The most detailed level that is logged where more is asked for `verbose` times.
pub fn log_level(verbose: usize) -> (r: Level)
    requires
        verbose + 2 <= usize::MAX,
    ensures
        r == level_of((verbose + 2) as nat),
{
    number_to_level(verbosity(verbose))
}

/// Information is always logged; asking once logs what is for debugging too, and asking twice
/// logs everything. Asking more often never logs less, and beyond twice changes nothing.
pub proof fn lemma_log_levels(verbose: nat, more: nat)
    requires
        verbose <= more,
    ensures
        verbose == 0 ==> level_of(verbose + 2) == Level::Info,
        verbose == 1 ==> level_of(verbose + 2) == Level::Debug,
        verbose >= 2 ==> level_of(verbose + 2) == Level::Trace,
        level_of(verbose + 2).rank() <= level_of(more + 2).rank(),
{
}

/// A pixel of a format with opacity is 32 bits: the opacity above red, red above green, green
/// above blue, eight bits each.
pub proof fn lemma_what_has_opacity(f: PictFormat)
    ensures
        is_argb32(f) <==> {
            &&& f.direct
            &&& f.depth == 32
            &&& f.format.blue_shift == 0
            &&& f.format.green_shift == f.format.blue_shift + 8
            &&& f.format.red_shift == f.format.green_shift + 8
            &&& f.format.alpha_shift == f.format.red_shift + 8
            &&& f.format.alpha_mask == 255 && f.format.red_mask == 255
            &&& f.format.green_mask == 255 && f.format.blue_mask == 255
        },
{
}

/// The format that is taken is the first with opacity, and one is found where there is any.
pub proof fn lemma_first_with_opacity(formats: Seq<PictFormat>)
    ensures
        match first_argb32(formats) {
            Some(f) => exists|i: int|
                0 <= i < formats.len() && #[trigger] formats[i] == f && is_argb32(f) && forall|
                    j: int,
                |
                    0 <= j < i ==> !is_argb32(#[trigger] formats[j]),
            None => forall|j: int| 0 <= j < formats.len() ==> !is_argb32(#[trigger] formats[j]),
        },
    decreases formats.len(),
{
    if formats.len() > 0 {
        if is_argb32(formats[0]) {
            assert(formats[0] == first_argb32(formats)->0);
        } else {
            let rest = formats.drop_first();
            lemma_first_with_opacity(rest);
            match first_argb32(rest) {
                Some(f) => {
                    let i = choose|i: int|
                        0 <= i < rest.len() && #[trigger] rest[i] == f && is_argb32(f) && forall|
                            j: int,
                        |
                            0 <= j < i ==> !is_argb32(#[trigger] rest[j]);
                    assert(formats[i + 1] == f);
                    assert forall|j: int| 0 <= j < i + 1 implies !is_argb32(
                        #[trigger] formats[j],
                    ) by {
                        if j > 0 {
                            assert(formats[j] == rest[j - 1]);
                        }
                    }
                },
                None => {
                    assert forall|j: int| 0 <= j < formats.len() implies !is_argb32(
                        #[trigger] formats[j],
                    ) by {
                        if j > 0 {
                            assert(formats[j] == rest[j - 1]);
                        }
                    }
                },
            }
        }
    }
}

proof fn lemma_first_of_format(visuals: Seq<PictVisual>, format: XId)
    ensures
        match first_of_format(visuals, format) {
            Some(v) => v.format == format && exists|i: int|
                0 <= i < visuals.len() && #[trigger] visuals[i] == v && forall|j: int|
                    0 <= j < i ==> (#[trigger] visuals[j]).format != format,
            None => forall|j: int|
                0 <= j < visuals.len() ==> (#[trigger] visuals[j]).format != format,
        },
    decreases visuals.len(),
{
    if visuals.len() > 0 {
        if visuals[0].format == format {
            assert(visuals[0] == first_of_format(visuals, format)->0);
        } else {
            let rest = visuals.drop_first();
            lemma_first_of_format(rest, format);
            match first_of_format(rest, format) {
                Some(v) => {
                    let i = choose|i: int|
                        0 <= i < rest.len() && #[trigger] rest[i] == v && forall|j: int|
                            0 <= j < i ==> (#[trigger] rest[j]).format != format;
                    assert(visuals[i + 1] == v);
                    assert forall|j: int| 0 <= j < i + 1 implies (
                    #[trigger] visuals[j]).format != format by {
                        if j > 0 {
                            assert(visuals[j] == rest[j - 1]);
                        }
                    }
                },
                None => {
                    assert forall|j: int| 0 <= j < visuals.len() implies (
                    #[trigger] visuals[j]).format != format by {
                        if j > 0 {
                            assert(visuals[j] == rest[j - 1]);
                        }
                    }
                },
            }
        }
    }
}

/// The kind of pixels that is taken is the first of its format in the first depth that has one
/// of it, and one is found where there is any.
pub proof fn lemma_first_in_depths(depths: Seq<Vec<PictVisual>>, format: XId)
    ensures
        match first_in_depths(depths, format) {
            Some(v) => v.format == format && exists|d: int, i: int|
                #![trigger depths[d]@[i]]
                {
                    &&& 0 <= d < depths.len()
                    &&& 0 <= i < depths[d]@.len()
                    &&& depths[d]@[i] == v
                    &&& forall|j: int| 0 <= j < i ==> (#[trigger] depths[d]@[j]).format != format
                    &&& forall|e: int, j: int|
                        0 <= e < d && 0 <= j < depths[e]@.len() ==> (
                        #[trigger] depths[e]@[j]).format != format
                },
            None => forall|e: int, j: int|
                0 <= e < depths.len() && 0 <= j < depths[e]@.len() ==> (
                #[trigger] depths[e]@[j]).format != format,
        },
    decreases depths.len(),
{
    if depths.len() > 0 {
        lemma_first_of_format(depths[0]@, format);
        match first_of_format(depths[0]@, format) {
            Some(v) => {
                let i = choose|i: int|
                    0 <= i < depths[0]@.len() && #[trigger] depths[0]@[i] == v && forall|j: int|
                        0 <= j < i ==> (#[trigger] depths[0]@[j]).format != format;
                assert(depths[0]@[i] == v);
            },
            None => {
                let rest = depths.drop_first();
                lemma_first_in_depths(rest, format);
                if let Some(v) = first_in_depths(rest, format) {
                    let (d, i) = choose|d: int, i: int|
                        #![trigger rest[d]@[i]]
                        {
                            &&& 0 <= d < rest.len()
                            &&& 0 <= i < rest[d]@.len()
                            &&& rest[d]@[i] == v
                            &&& forall|j: int|
                                0 <= j < i ==> (#[trigger] rest[d]@[j]).format != format
                            &&& forall|e: int, j: int|
                                0 <= e < d && 0 <= j < rest[e]@.len() ==> (
                                #[trigger] rest[e]@[j]).format != format
                        };
                    assert(depths[d + 1]@[i] == v);
                    assert forall|j: int| 0 <= j < i implies (
                    #[trigger] depths[d + 1]@[j]).format != format by {
                        assert(rest[d]@[j].format != format);
                    }
                    assert forall|e: int, j: int|
                        0 <= e < d + 1 && 0 <= j < depths[e]@.len() implies (
                    #[trigger] depths[e]@[j]).format != format by {
                        if e > 0 {
                            assert(rest[e - 1]@[j].format != format);
                        }
                    }
                } else {
                    assert forall|e: int, j: int|
                        0 <= e < depths.len() && 0 <= j < depths[e]@.len() implies (
                    #[trigger] depths[e]@[j]).format != format by {
                        if e > 0 {
                            assert(rest[e - 1]@[j].format != format);
                        }
                    }
                }
            },
        }
    }
}

/// The window gets opacity wherever the server has a format with it and a kind of pixels of the
/// first such format; then that kind is used, with its depth, else what the screen has.
pub proof fn lemma_opacity_where_there_is_any(
    formats: Seq<PictFormat>,
    depths: Seq<Vec<PictVisual>>,
    root: (u8, XId),
    i: int,
    d: int,
    k: int,
)
    requires
        0 <= i < formats.len(),
        is_argb32(formats[i]),
        forall|j: int| 0 <= j < i ==> !is_argb32(#[trigger] formats[j]),
        0 <= d < depths.len(),
        0 <= k < depths[d]@.len(),
        depths[d]@[k].format == formats[i].id,
        forall|j: int| 0 <= j < k ==> (#[trigger] depths[d]@[j]).format != formats[i].id,
        forall|e: int, j: int|
            0 <= e < d && 0 <= j < depths[e]@.len() ==> (#[trigger] depths[e]@[j]).format
                != formats[i].id,
    ensures
        chosen_visual(formats, depths, root) == (32u8, depths[d]@[k].visual),
{
    lemma_first_with_opacity(formats);
    let f = first_argb32(formats)->0;
    assert(first_argb32(formats) is Some);
    let fi = choose|fi: int|
        0 <= fi < formats.len() && #[trigger] formats[fi] == f && is_argb32(f) && forall|j: int|
            0 <= j < fi ==> !is_argb32(#[trigger] formats[j]);
    assert(fi == i) by {
        if fi < i {
            assert(!is_argb32(formats[fi]));
        } else if i < fi {
            assert(!is_argb32(formats[i]));
        }
    }
    let id = formats[i].id;
    lemma_first_in_depths(depths, id);
    assert(depths[d]@[k].format == id);
    assert(first_in_depths(depths, id) is Some);
    let v = first_in_depths(depths, id)->0;
    let (e, j) = choose|e: int, j: int|
        #![trigger depths[e]@[j]]
        {
            &&& 0 <= e < depths.len()
            &&& 0 <= j < depths[e]@.len()
            &&& depths[e]@[j] == v
            &&& forall|l: int| 0 <= l < j ==> (#[trigger] depths[e]@[l]).format != id
            &&& forall|c: int, l: int|
                0 <= c < e && 0 <= l < depths[c]@.len() ==> (#[trigger] depths[c]@[l]).format != id
        };
    assert(depths[e]@[j].format == id);
    assert(e == d);
    assert(j == k);
}

/// Without a format with opacity, or without pixels of it, the window is as the screen is.
pub proof fn lemma_no_opacity_elsewhere(
    formats: Seq<PictFormat>,
    depths: Seq<Vec<PictVisual>>,
    root: (u8, XId),
)
    requires
        (forall|j: int| 0 <= j < formats.len() ==> !is_argb32(#[trigger] formats[j])) || (forall|
            i: int,
            e: int,
            j: int,
        |
            #![trigger formats[i], depths[e]@[j]]
            0 <= i < formats.len() && is_argb32(formats[i]) && 0 <= e < depths.len() && 0 <= j
                < depths[e]@.len() ==> depths[e]@[j].format != formats[i].id),
    ensures
        chosen_visual(formats, depths, root) == root,
{
    lemma_first_with_opacity(formats);
    if let Some(f) = first_argb32(formats) {
        lemma_first_in_depths(depths, f.id);
    }
}

proof fn lemma_first_with_id(visuals: Seq<Visualtype>, id: XId)
    ensures
        match first_with_id(visuals, id) {
            Some(v) => v.visual_id == id && visuals.contains(v),
            None => forall|j: int|
                0 <= j < visuals.len() ==> (#[trigger] visuals[j]).visual_id != id,
        },
    decreases visuals.len(),
{
    if visuals.len() > 0 {
        let rest = visuals.drop_first();
        lemma_first_with_id(rest, id);
        if visuals[0].visual_id == id {
            assert(visuals.contains(visuals[0]));
        } else if let Some(v) = first_with_id(rest, id) {
            let i = choose|i: int| 0 <= i < rest.len() && rest[i] == v;
            assert(visuals[i + 1] == v);
        } else {
            assert forall|j: int| 0 <= j < visuals.len() implies (
            #[trigger] visuals[j]).visual_id != id by {
                if j > 0 {
                    assert(visuals[j] == rest[j - 1]);
                }
            }
        }
    }
}

/// A kind of pixels is found by its number on whatever screen it is, where there is one, and
/// what is found is one of those that the server has.
pub proof fn lemma_found_wherever_it_is(depths: Seq<Vec<Visualtype>>, id: XId)
    ensures
        match first_with_id_in(depths, id) {
            Some(v) => v.visual_id == id && exists|d: int|
                0 <= d < depths.len() && (#[trigger] depths[d])@.contains(v),
            None => forall|d: int, j: int|
                0 <= d < depths.len() && 0 <= j < depths[d]@.len() ==> (
                #[trigger] depths[d]@[j]).visual_id != id,
        },
    decreases depths.len(),
{
    if depths.len() > 0 {
        let rest = depths.drop_first();
        lemma_first_with_id(depths[0]@, id);
        lemma_found_wherever_it_is(rest, id);
        if first_with_id(depths[0]@, id) is None {
            if let Some(v) = first_with_id_in(rest, id) {
                let d = choose|d: int| 0 <= d < rest.len() && (#[trigger] rest[d])@.contains(v);
                assert(depths[d + 1]@.contains(v));
            } else {
                assert forall|d: int, j: int|
                    0 <= d < depths.len() && 0 <= j < depths[d]@.len() implies (
                #[trigger] depths[d]@[j]).visual_id != id by {
                    if d > 0 {
                        assert(rest[d - 1]@[j].visual_id != id);
                    }
                }
            }
        }
    }
}

/// The title is the one that was configured, with an `@` and the name of the machine behind it
/// where that is asked for.
pub proof fn lemma_title(title: Seq<char>, show_hostname: bool, hostname: Seq<char>)
    ensures
        title_text(title, show_hostname, hostname).take(title.len() as int) == title,
        !show_hostname ==> title_text(title, show_hostname, hostname).len() == title.len(),
        show_hostname ==> title_text(title, show_hostname, hostname)[title.len() as int] == '@'
            && title_text(title, show_hostname, hostname).skip(title.len() as int + 1) == hostname,
{
    assert(title_text(title, show_hostname, hostname).take(title.len() as int) =~= title);
    if show_hostname {
        assert(title_text(title, show_hostname, hostname).skip(title.len() as int + 1) =~= hostname);
    }
}

/// The class of the window is told behind the name of the program, with a zero byte between.
pub proof fn lemma_class(instance: Seq<char>)
    ensures
        ({
            let bytes = class_bytes(instance);
            let at = encode_utf8(instance).len() as int;
            &&& bytes.take(at) == encode_utf8(instance)
            &&& bytes[at] == 0
            &&& bytes.skip(at + 1) == encode_utf8("SshAskpass"@)
        }),
{
    let bytes = class_bytes(instance);
    let at = encode_utf8(instance).len() as int;
    assert(bytes.take(at) =~= encode_utf8(instance));
    assert(bytes.skip(at + 1) =~= encode_utf8(CLASS@));
}

/// The window manager is told each thing under its name: the title under the old names and the
/// new ones, the class, the machine, the process, and that the window is a dialog, is above
/// others and can be asked to close.
pub proof fn lemma_manager_is_told(
    properties: Seq<Property>,
    atoms: WindowAtoms,
    title: Seq<char>,
    instance: Seq<char>,
    hostname: Seq<u8>,
    pid: u32,
)
    requires
        tells(properties, atoms, title, instance, hostname, pid),
    ensures
        properties.len() == 10,
        tells_bytes(properties, 39, 31, encode_utf8(title)),
        tells_bytes(properties, 37, 31, encode_utf8(title)),
        tells_bytes(properties, atoms.NET_WM_NAME, atoms.UTF8_STRING, encode_utf8(title)),
        tells_bytes(properties, atoms.NET_WM_ICON_NAME, atoms.UTF8_STRING, encode_utf8(title)),
        tells_bytes(properties, 67, 31, class_bytes(instance)),
        tells_bytes(properties, 36, 31, hostname),
        tells_number(properties, atoms.NET_WM_PID, 6, pid),
        tells_number(properties, atoms.NET_WM_WINDOW_TYPE, 4, atoms.NET_WM_WINDOW_TYPE_DIALOG),
        tells_number(properties, atoms.NET_WM_STATE, 4, atoms.NET_WM_STATE_ABOVE),
        tells_number(properties, atoms.WM_PROTOCOLS, 4, atoms.WM_DELETE_WINDOW),
{
    assert(properties[0].name == 39);
    assert(properties[1].name == 37);
    assert(properties[2].name == atoms.NET_WM_NAME);
    assert(properties[3].name == atoms.NET_WM_ICON_NAME);
    assert(properties[4].name == 67);
    assert(properties[5].name == 36);
    assert(properties[6].name == atoms.NET_WM_PID);
    assert(properties[7].name == atoms.NET_WM_WINDOW_TYPE);
    assert(properties[8].name == atoms.NET_WM_STATE);
    assert(properties[9].name == atoms.WM_PROTOCOLS);
}

/// One of the properties has this name, this type and these bytes.
pub open spec fn tells_bytes(
    properties: Seq<Property>,
    name: XId,
    type_: XId,
    bytes: Seq<u8>,
) -> bool {
    exists|i: int|
        {
            &&& 0 <= i < properties.len()
            &&& (#[trigger] properties[i]).name == name
            &&& properties[i].type_ == type_
            &&& properties[i].data matches PropertyData::Bytes(b) && b@ == bytes
        }
}

/// One of the properties has this name, this type and this number.
pub open spec fn tells_number(
    properties: Seq<Property>,
    name: XId,
    type_: XId,
    number: u32,
) -> bool {
    exists|i: int|
        {
            &&& 0 <= i < properties.len()
            &&& (#[trigger] properties[i]).name == name
            &&& properties[i].type_ == type_
            &&& properties[i].data == PropertyData::Number(number)
        }
}

/// The bytes of a number make it up, and each counts 256 times the one before it.
pub proof fn lemma_bytes_make_the_number(n: u32)
    ensures
        le_bytes(n).len() == 4,
        n == le_bytes(n)[0] + 0x100 * le_bytes(n)[1] + 0x1_0000 * le_bytes(n)[2] + 0x100_0000
            * le_bytes(n)[3],
{
}

/// Who runs the program learns from what it returns whether something was written, and if not,
/// whether that was wanted.
pub proof fn lemma_exit_codes(end: End)
    ensures
        code_of(end) == 0 <==> end == End::ConfigWritten || end == End::Passphrase,
        code_of(end) == 1 <==> end == End::Cancelled || end == End::Signal,
        code_of(end) == 2 <==> end == End::Failed,
{
}

} // verus!
