//! The picture of the dialog that is kept beside the window, and when it is painted and
//! handed over to the server.
use vstd::prelude::*;

use crate::dialog::{Dialog, Indicator, Paint};
use crate::errors::Unsupported;

verus! {

/// A number that the server gives to a resource.
pub type XId = u32;

/// How the window and the picture differ.
#[derive(Clone, Copy, Debug, PartialEq, Eq, Structural)]
pub enum State {
    Sync,
    /// The window has lost its contents.
    Exposed,
    /// The picture has changed.
    Dirty,
}

/// The size of the picture, which may be larger than the window.
#[derive(Clone, Copy, Debug, PartialEq, Eq, Structural)]
pub struct XcbSurface {
    pub width: u16,
    pub height: u16,
}

/// The length of a picture of the length `length` after it has been made to hold `wanted`:
/// it doubles where that is enough.
pub open spec fn grown(length: u16, wanted: u16) -> u16 {
    if wanted <= length {
        length
    } else if wanted <= 2 * length <= u16::MAX {
        (2 * length) as u16
    } else {
        wanted
    }
}

/// A picture that is made to hold something holds it, and never gets smaller.
pub proof fn lemma_grown_holds(length: u16, wanted: u16)
    ensures
        grown(length, wanted) >= wanted,
        grown(length, wanted) >= length,
        wanted <= length ==> grown(length, wanted) == length,
{
}

fn grow(length: u16, wanted: u16) -> (r: u16)
    ensures
        r == grown(length, wanted),
{
    if wanted <= length {
        return length;
    }
    match length.checked_mul(2) {
        Some(doubled) => if wanted > doubled {
            wanted
        } else {
            doubled
        },
        None => wanted,
    }
}

impl XcbSurface {
    /// The picture after it has been made to hold a window of the given size.
    pub open spec fn resized(self, width: u16, height: u16) -> XcbSurface {
        XcbSurface { width: grown(self.width, width), height: grown(self.height, height) }
    }

    /// Makes the picture large enough for a window. Whether it is a new one, of which
    /// nothing has been painted.
    pub fn resize(&mut self, width: u16, height: u16) -> (r: bool)
        ensures
            *final(self) == old(self).resized(width, height),
            r == (width > old(self).width || height > old(self).height),
    {
        if width <= self.width && height <= self.height {
            return false;
        }
        let new_width: u16 = grow(self.width, width);
        let new_height: u16 = grow(self.height, height);
        self.setup_pixmap(new_width, new_height);
        true
    }

    /// A new picture takes the place of the old one.
    pub fn setup_pixmap(&mut self, new_width: u16, new_height: u16)
        ensures
            *final(self) == (XcbSurface { width: new_width, height: new_height }),
    {
        self.width = new_width;
        self.height = new_height;
    }
}

/// What is to be painted into the picture.
pub enum Painting {
    /// The whole dialog for a window of this size. `new_picture` where the picture is a new
    /// one, of the size that the buffer has now.
    Resize { width: u16, height: u16, new_picture: bool },
    /// Parts of the dialog.
    Repaint(Paint),
}

/// What is to be done so that the window shows the dialog as it is, in this order.
pub struct Commit {
    pub painting: Option<Painting>,
    /// The picture is to be handed over under this serial number.
    pub present: Option<u32>,
    /// The next step of the turning of the indicator is to be made.
    pub animate: bool,
}

/// The picture, and what the server has of it.
#[derive(Clone, Copy, Debug)]
pub struct Backbuffer {
    pub window: XId,
    /// The number under which events on the picture are asked for.
    pub eid: Option<XId>,
    /// The number of the frame that was last handed over.
    pub serial: u32,
    /// That frame has been shown.
    pub vsync_completed: bool,
    pub dirty: State,
    /// The server does not read the picture now.
    pub backbuffer_idle: bool,
    pub surface: XcbSurface,
    pub resize_requested: Option<(u16, u16)>,
    pub visible: bool,
}

impl Backbuffer {
    /// A picture that has not been handed over yet. The server must be able to take it.
    pub fn new(extension_present: bool, window: XId, surface: XcbSurface) -> (r: Result<
        Backbuffer,
        Unsupported,
    >)
        ensures
            match r {
                Err(e) => !extension_present && e.0@ == "x11 present extension required"@,
                Ok(b) => extension_present && b == (Backbuffer {
                    window,
                    eid: None,
                    serial: 0,
                    vsync_completed: true,
                    dirty: State::Sync,
                    backbuffer_idle: true,
                    surface,
                    resize_requested: None,
                    visible: false,
                }),
            },
    {
        if !extension_present {
            return Err(Unsupported(String::from_str("x11 present extension required")));
        }
        Ok(
            Backbuffer {
                window,
                eid: None,
                serial: 0,
                vsync_completed: true,
                dirty: State::Sync,
                backbuffer_idle: true,
                surface,
                resize_requested: None,
                visible: false,
            },
        )
    }

    /// The window has lost its contents.
    pub fn set_exposed(&mut self)
        ensures
            *final(self) == old(self).exposed(),
    {
        self.visible = true;
        if self.vsync_completed && self.dirty == State::Sync {
            self.dirty = State::Exposed;
        }
    }

    /// The buffer after the window has lost its contents.
    pub open spec fn exposed(self) -> Backbuffer {
        Backbuffer {
            visible: true,
            dirty: if self.vsync_completed && self.dirty == State::Sync {
                State::Exposed
            } else {
                self.dirty
            },
            ..self
        }
    }

    /// The buffer after the dialog has been painted for the first time.
    pub open spec fn prepared(self, eid: XId, window: XId, width: u16, height: u16) -> Backbuffer {
        Backbuffer {
            eid: Some(eid),
            window,
            surface: XcbSurface { width, height },
            dirty: State::Dirty,
            ..self
        }
    }

    /// The dialog is painted for the first time, for `window`, which is as large as the
    /// dialog.
    pub fn init(
        &mut self,
        eid: XId,
        window: XId,
        width: u16,
        height: u16,
        dialog: &mut Dialog,
    )
        requires
            old(dialog).wf(),
        ensures
            *final(self) == (Backbuffer {
                eid: Some(eid),
                window,
                surface: XcbSurface { width, height },
                dirty: State::Dirty,
                ..*old(self)
            }),
            *final(self) == old(self).prepared(eid, window, width, height),
            final(dialog).wf(),
            old(dialog).paints(*final(dialog)),
            final(dialog).is_painted(),
    {
        self.eid = Some(eid);
        self.window = window;
        self.surface.setup_pixmap(width, height);
        dialog.set_painted();
        self.dirty = State::Dirty;
    }

    /// Whether the dialog is painted.
    pub open spec fn repaints(self, dialog: Dialog) -> bool {
        &&& self.visible
        &&& !dialog.is_painted() || self.resize_requested is Some
        &&& self.backbuffer_idle
    }

    /// Whether the picture is handed over: not while the last frame has not been shown.
    pub open spec fn presents(self, dialog: Dialog) -> bool {
        &&& self.visible
        &&& self.dirty != State::Sync || self.repaints(dialog)
        &&& self.vsync_completed
    }

    /// A ring that turns has been painted before its picture is handed over.
    pub open spec fn can_commit(self, dialog: Dialog) -> bool {
        self.presents(dialog) && !self.repaints(dialog) && dialog.indicator is Circle ==> {
            &&& !dialog.indicator.status().dirty
            &&& !dialog.indicator.status().dirty_blink
        }
    }

    /// The buffer after the window has been brought up to date.
    pub open spec fn committed(self, dialog: Dialog) -> Backbuffer {
        let painted = if self.repaints(dialog) {
            Backbuffer {
                dirty: State::Dirty,
                surface: match self.resize_requested {
                    Some((width, height)) => self.surface.resized(width, height),
                    None => self.surface,
                },
                resize_requested: None,
                ..self
            }
        } else {
            self
        };
        if self.presents(dialog) {
            Backbuffer {
                serial: next_serial(self.serial),
                backbuffer_idle: false,
                dirty: State::Sync,
                vsync_completed: false,
                ..painted
            }
        } else {
            painted
        }
    }

    /// `painting` is what is to be painted before the picture is handed over.
    pub open spec fn paints_as(self, dialog: Dialog, painting: Option<Painting>) -> bool {
        match painting {
            None => !self.repaints(dialog),
            Some(Painting::Resize { width, height, new_picture }) => {
                &&& self.repaints(dialog)
                &&& self.resize_requested == Some((width, height))
                &&& new_picture == (width > self.surface.width || height > self.surface.height)
            },
            Some(Painting::Repaint(paint)) => {
                &&& self.repaints(dialog)
                &&& self.resize_requested is None
                &&& dialog.needs(paint)
            },
        }
    }

    /// The dialog after the window has been brought up to date, before the next step of a
    /// turning.
    pub open spec fn indicator_after(self, dialog: Dialog) -> Indicator {
        if self.repaints(dialog) {
            dialog.indicator.painted()
        } else {
            dialog.indicator
        }
    }

    /// `r` is what is to be done to bring the window up to date, with the dialog `new` after
    /// it.
    pub open spec fn commits(self, dialog: Dialog, moving: bool, r: Commit, new: Dialog) -> bool {
        let indicator = self.indicator_after(dialog);
        &&& self.paints_as(dialog, r.painting)
        &&& r.present == (if self.presents(dialog) {
            Some(next_serial(self.serial))
        } else {
            None
        })
        &&& r.animate == (self.presents(dialog) && dialog.indicator is Circle && moving)
        &&& new.indicator == (if self.presents(dialog) {
            indicator.with_next_frame(moving)
        } else {
            indicator
        })
        &&& if self.repaints(dialog) {
            dialog.paints(Dialog { indicator, ..new })
        } else {
            new == (Dialog { indicator: new.indicator, ..dialog })
        }
    }

    /// Brings the window up to date: what is to be painted, and whether the picture is to be
    /// handed over. `moving` where the indicator is turning.
    pub fn commit(&mut self, dialog: &mut Dialog, moving: bool) -> (r: Commit)
        requires
            old(dialog).wf(),
            old(self).can_commit(*old(dialog)),
        ensures
            final(dialog).wf(),
            *final(self) == old(self).committed(*old(dialog)),
            old(self).commits(*old(dialog), moving, r, *final(dialog)),
    {
        if !self.visible {
            return Commit { painting: None, present: None, animate: false };
        }
        let mut painting = None;
        if dialog.dirty() || self.resize_requested.is_some() {
            if self.backbuffer_idle {
                self.dirty = State::Dirty;
                match self.resize_requested {
                    Some((width, height)) => {
                        let new_picture = self.surface.resize(width, height);
                        self.resize_requested = None;
                        painting = Some(Painting::Resize { width, height, new_picture });
                    },
                    None => {
                        painting = Some(Painting::Repaint(dialog.repaint()));
                    },
                }
                dialog.set_painted();
            }
        }
        let mut present = None;
        let mut animate = false;
        if self.dirty != State::Sync {
            if self.vsync_completed {
                self.serial = self.get_next_serial();
                present = Some(self.serial);
                self.backbuffer_idle = false;
                self.dirty = State::Sync;
                self.vsync_completed = false;
                animate = dialog.set_next_frame(moving);
            }
        }
        Commit { painting, present, animate }
    }

    /// The server no longer reads the picture of the frame `serial`.
    pub fn on_idle_notify(&mut self, serial: u32)
        ensures
            *final(self) == old(self).idle(serial),
    {
        if serial == self.serial {
            self.backbuffer_idle = true;
        }
    }

    /// The buffer after that: only the last frame matters.
    pub open spec fn idle(self, serial: u32) -> Backbuffer {
        Backbuffer { backbuffer_idle: self.backbuffer_idle || serial == self.serial, ..self }
    }

    /// The frame that was last handed over has been shown.
    pub fn on_vsync_completed(&mut self, serial: u32)
        requires
            serial == old(self).serial,
        ensures
            *final(self) == (Backbuffer { vsync_completed: true, ..*old(self) }),
    {
        self.vsync_completed = true;
    }

    fn get_next_serial(&self) -> (r: u32)
        ensures
            r == next_serial(self.serial),
    {
        self.serial.wrapping_add(1)
    }

    /// The numbers under which events are no longer asked for when the buffer is dropped.
    pub fn teardown(&self) -> (r: Option<(XId, XId)>)
        ensures
            r == (match self.eid {
                Some(eid) => Some((eid, self.window)),
                None => None,
            }),
    {
        match self.eid {
            Some(eid) => Some((eid, self.window)),
            None => None,
        }
    }
}

/// The number of the frame after the frame `serial`.
pub open spec fn next_serial(serial: u32) -> u32 {
    if serial == u32::MAX {
        0
    } else {
        (serial + 1) as u32
    }
}

/// No frame is handed over before the one before it has been shown, nor to a window that
/// cannot be seen; then one is pending, so that the next one has to wait.
pub proof fn lemma_one_frame_pending(buffer: Backbuffer, dialog: Dialog, later: Dialog)
    requires
        buffer.presents(dialog),
    ensures
        buffer.visible,
        buffer.vsync_completed,
        !buffer.committed(dialog).presents(later),
{
}

/// The picture is never painted while the server reads it: what is handed over is not
/// painted again until the server has said that it is done with that frame.
pub proof fn lemma_not_painted_while_read(
    buffer: Backbuffer,
    dialog: Dialog,
    later: Dialog,
    serial: u32,
)
    requires
        buffer.presents(dialog),
        serial != buffer.committed(dialog).serial,
    ensures
        !buffer.committed(dialog).repaints(later),
        !buffer.committed(dialog).idle(serial).repaints(later),
{
}

/// After a commit with the picture free, nothing of a visible dialog has been left unpainted:
/// the picture follows the dialog.
pub proof fn lemma_commit_paints(buffer: Backbuffer, dialog: Dialog)
    requires
        buffer.visible,
        buffer.backbuffer_idle,
    ensures
        !dialog.is_painted() ==> buffer.repaints(dialog),
        buffer.resize_requested matches Some((w, h)) ==> buffer.committed(dialog).surface.width
            >= w && buffer.committed(dialog).surface.height >= h,
        buffer.committed(dialog).resize_requested is None,
{
}

/// A kind of pixels as the server describes it.
#[derive(Clone, Copy, Debug, PartialEq, Eq, Structural)]
pub struct Visualtype {
    pub visual_id: u32,
    pub class: u8,
    pub bits_per_rgb_value: u8,
    pub colormap_entries: u16,
    pub red_mask: u32,
    pub green_mask: u32,
    pub blue_mask: u32,
}

/// The number of a kind of pixels.
#[allow(non_camel_case_types)]
pub type xcb_visualid_t = u32;

/// A kind of pixels as the library for drawing takes it.
#[allow(non_camel_case_types)]
#[derive(Clone, Copy, Debug)]
pub struct xcb_visualtype_t {
    pub visual_id: xcb_visualid_t,
    pub class: u8,
    pub bits_per_rgb_value: u8,
    pub colormap_entries: u16,
    pub red_mask: u32,
    pub green_mask: u32,
    pub blue_mask: u32,
    pub pad0: [u8; 4],
}

impl From<Visualtype> for xcb_visualtype_t {
    /// The same kind of pixels, with zeros for padding.
    fn from(value: Visualtype) -> (r: xcb_visualtype_t) {
        xcb_visualtype_t {
            visual_id: value.visual_id,
            class: value.class,
            bits_per_rgb_value: value.bits_per_rgb_value,
            colormap_entries: value.colormap_entries,
            red_mask: value.red_mask,
            green_mask: value.green_mask,
            blue_mask: value.blue_mask,
            pad0: [0u8, 0u8, 0u8, 0u8],
        }
    }
}

impl vstd::std_specs::convert::FromSpecImpl<Visualtype> for xcb_visualtype_t {
    open spec fn obeys_from_spec() -> bool {
        true
    }

    open spec fn from_spec(value: Visualtype) -> xcb_visualtype_t {
        xcb_visualtype_t {
            visual_id: value.visual_id,
            class: value.class,
            bits_per_rgb_value: value.bits_per_rgb_value,
            colormap_entries: value.colormap_entries,
            red_mask: value.red_mask,
            green_mask: value.green_mask,
            blue_mask: value.blue_mask,
            pad0: [0u8, 0u8, 0u8, 0u8],
        }
    }
}

/// Something of the dialog has to be painted.
pub open spec fn out_of_date(dialog: Dialog) -> bool {
    ||| dialog.dirty
    ||| dialog.indicator.base().status.dirty
    ||| dialog.indicator.base().status.dirty_blink
    ||| exists|i: int| 0 <= i < dialog.buttons@.len() && (#[trigger] dialog.buttons@[i]).dirty
}

/// A window that has lost its contents gets them back: with no frame pending, the next commit
/// hands the picture over, whatever of the dialog has to be painted and whether or not the
/// server reads the picture. Where a frame is pending, its picture is about to be shown.
pub proof fn lemma_exposed_is_shown_again(
    buffer: Backbuffer,
    dialog: Dialog,
    moving: bool,
    r: Commit,
    new: Dialog,
)
    requires
        buffer.vsync_completed,
        buffer.exposed().commits(dialog, moving, r, new),
    ensures
        r.present is Some,
        buffer.exposed().presents(dialog),
{
}

/// An exposure makes the window visible, and changes nothing else of the buffer but what is
/// known to differ; a change of the picture that was not shown yet is not forgotten.
pub proof fn lemma_exposure_keeps_the_rest(buffer: Backbuffer)
    ensures
        buffer.exposed().visible,
        buffer.exposed() == (Backbuffer {
            visible: true,
            dirty: buffer.exposed().dirty,
            ..buffer
        }),
        buffer.dirty != State::Sync ==> buffer.exposed().dirty == buffer.dirty,
        buffer.exposed().exposed() == buffer.exposed(),
{
}

/// What has changed is painted as soon as the window can be seen and the server does not read
/// the picture, and never else. A new size is painted as a whole, and the rest in parts.
pub proof fn lemma_changes_are_painted(
    buffer: Backbuffer,
    dialog: Dialog,
    moving: bool,
    r: Commit,
    new: Dialog,
)
    requires
        buffer.commits(dialog, moving, r, new),
    ensures
        r.painting is Some <==> buffer.visible && buffer.backbuffer_idle && (out_of_date(dialog)
            || buffer.resize_requested is Some),
        r.painting is Some ==> (buffer.resize_requested is Some <==> r.painting->0 is Resize),
        r.painting matches Some(Painting::Resize { width, height, new_picture })
            ==> buffer.resize_requested == Some((width, height)) && (new_picture <==> width
            > buffer.surface.width || height > buffer.surface.height),
        r.painting matches Some(Painting::Repaint(paint)) ==> dialog.needs(paint),
        r.painting is None ==> new == (Dialog { indicator: new.indicator, ..dialog }),
        new.indicator.base().pass == dialog.indicator.base().pass,
        r.painting is Some && !(r.animate) ==> !out_of_date(new),
        r.painting is None && r.present is None ==> new == dialog,
{
    crate::dialog::laws::lemma_what_is_out_of_date(dialog);
    if r.painting is Some {
        let painted = Dialog { indicator: buffer.indicator_after(dialog), ..new };
        assert forall|i: int| 0 <= i < new.buttons@.len() implies !(
        #[trigger] new.buttons@[i]).dirty by {
            assert(painted.buttons@[i] == (crate::dialog::Button {
                dirty: false,
                ..dialog.buttons@[i]
            }));
        }
    }
}

/// A picture that differs from what the window shows is handed over as soon as the window can
/// be seen and the last frame has been shown, and never else. It gets the number after that of
/// the last frame, and until the server tells otherwise it reads the picture and has not shown
/// it.
pub proof fn lemma_changes_are_shown(
    buffer: Backbuffer,
    dialog: Dialog,
    moving: bool,
    r: Commit,
    new: Dialog,
)
    requires
        buffer.commits(dialog, moving, r, new),
    ensures
        r.present is Some <==> buffer.visible && buffer.vsync_completed && (buffer.dirty
            != State::Sync || r.painting is Some),
        r.present matches Some(serial) ==> {
            let after = buffer.committed(dialog);
            &&& serial == (buffer.serial + 1) % 0x1_0000_0000
            &&& after.serial == serial
            &&& !after.backbuffer_idle
            &&& !after.vsync_completed
            &&& after.dirty == State::Sync
        },
        r.present is None ==> {
            let after = buffer.committed(dialog);
            &&& after.serial == buffer.serial
            &&& after.backbuffer_idle == buffer.backbuffer_idle
            &&& after.vsync_completed == buffer.vsync_completed
            &&& r.painting is Some ==> after.dirty == State::Dirty
            &&& r.painting is None ==> after == buffer
        },
        r.animate <==> r.present is Some && moving && dialog.indicator is Circle,
        buffer.committed(dialog).visible == buffer.visible,
        buffer.committed(dialog).window == buffer.window,
        buffer.committed(dialog).eid == buffer.eid,
{
}

/// A change that is painted while a frame is pending is shown once that frame has been: the
/// next commit hands the picture over, with nothing more to paint.
pub proof fn lemma_painted_is_shown_later(
    buffer: Backbuffer,
    dialog: Dialog,
    moving: bool,
    r: Commit,
    new: Dialog,
    later: Commit,
    last: Dialog,
)
    requires
        !buffer.vsync_completed,
        buffer.commits(dialog, moving, r, new),
        r.painting is Some,
        (Backbuffer { vsync_completed: true, ..buffer.committed(dialog) }).commits(
            new,
            moving,
            later,
            last,
        ),
    ensures
        r.present is None,
        later.present is Some,
        later.painting is None,
{
    lemma_changes_are_painted(buffer, dialog, moving, r, new);
    crate::dialog::laws::lemma_what_is_out_of_date(new);
}

/// A change that cannot be painted while the server reads the picture is painted once it does
/// not: nothing is forgotten, neither of the dialog nor of a new size.
pub proof fn lemma_unpainted_is_painted_later(
    buffer: Backbuffer,
    dialog: Dialog,
    r: Commit,
    new: Dialog,
    later: Commit,
    last: Dialog,
)
    requires
        buffer.visible,
        !buffer.backbuffer_idle,
        out_of_date(dialog) || buffer.resize_requested is Some,
        buffer.commits(dialog, false, r, new),
        buffer.committed(dialog).idle(buffer.committed(dialog).serial).commits(
            new,
            false,
            later,
            last,
        ),
    ensures
        r.painting is None,
        later.painting is Some,
        buffer.resize_requested matches Some((w, h)) ==> (
        later.painting matches Some(Painting::Resize { width, height, .. }) && width == w && height
            == h),
{
    lemma_changes_are_painted(buffer, dialog, false, r, new);
    let next = buffer.committed(dialog).idle(buffer.committed(dialog).serial);
    lemma_changes_are_painted(next, new, false, later, last);
    if out_of_date(dialog) && buffer.resize_requested is None {
        assert(out_of_date(new)) by {
            if exists|i: int| 0 <= i < dialog.buttons@.len() && (
            #[trigger] dialog.buttons@[i]).dirty {
                let i = choose|i: int| 0 <= i < dialog.buttons@.len() && (
                #[trigger] dialog.buttons@[i]).dirty;
                assert(new.buttons@[i].dirty);
            }
        }
    }
}

/// The server frees the picture only with the number of the last frame; with any other nothing
/// changes.
pub proof fn lemma_only_the_last_frame_frees(buffer: Backbuffer, serial: u32)
    ensures
        serial == buffer.serial ==> buffer.idle(serial) == (Backbuffer {
            backbuffer_idle: true,
            ..buffer
        }),
        serial != buffer.serial ==> buffer.idle(serial) == buffer,
{
}

/// A picture grows only where it has to: to twice its length where that is enough, else to what
/// is wanted. Its width and its height grow apart.
pub proof fn lemma_picture_grows(surface: XcbSurface, width: u16, height: u16)
    ensures
        ({
            let r = surface.resized(width, height);
            &&& width <= surface.width ==> r.width == surface.width
            &&& height <= surface.height ==> r.height == surface.height
            &&& width > surface.width && width <= 2 * surface.width <= 0xffff ==> r.width == 2
                * surface.width
            &&& height > surface.height && height <= 2 * surface.height <= 0xffff ==> r.height
                == 2 * surface.height
            &&& width > 2 * surface.width || (width > surface.width && 2 * surface.width > 0xffff)
                ==> r.width == width
            &&& height > 2 * surface.height || (height > surface.height && 2 * surface.height
                > 0xffff) ==> r.height == height
        }),
{
}

/// After a commit that paints, the picture holds a window of the size that was asked for, and
/// no size is asked for any more; without one the picture keeps its size.
pub proof fn lemma_picture_follows_the_window(buffer: Backbuffer, dialog: Dialog)
    requires
        buffer.visible,
        buffer.backbuffer_idle,
    ensures
        buffer.resize_requested matches Some((w, h)) ==> buffer.committed(dialog).surface
            == buffer.surface.resized(w, h),
        buffer.resize_requested is None ==> buffer.committed(dialog).surface == buffer.surface,
        buffer.committed(dialog).resize_requested is None,
{
}

/// The first picture is as large as the window, and is handed over for it as soon as the window
/// is there.
pub proof fn lemma_first_picture_is_shown(
    buffer: Backbuffer,
    eid: XId,
    window: XId,
    width: u16,
    height: u16,
    dialog: Dialog,
    moving: bool,
    r: Commit,
    new: Dialog,
)
    requires
        buffer.vsync_completed,
        buffer.prepared(eid, window, width, height).exposed().commits(dialog, moving, r, new),
    ensures
        r.present is Some,
        ({
            let ready = buffer.prepared(eid, window, width, height);
            &&& ready.surface.width == width && ready.surface.height == height
            &&& ready.window == window && ready.eid == Some(eid)
            &&& ready.serial == buffer.serial && ready.visible == buffer.visible
            &&& ready.backbuffer_idle == buffer.backbuffer_idle && ready.resize_requested
                == buffer.resize_requested
        }),
{
}

} // verus!
