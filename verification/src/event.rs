//! How events from the server change the dialog, and what is asked of the server in answer.
use vstd::prelude::*;
use vstd::utf8::*;

use crate::backbuffer::{Backbuffer, Commit, XId};
use crate::dialog::indicator::strings::{Direction, Pointer};
use crate::dialog::{Action, Dialog, Key, KeyStep, Place};
use crate::errors::fallback::XError;
use crate::errors::Unsupported;
use crate::secret::Passphrase;

verus! {

/// How far the dialog has come.
#[derive(Clone, Copy, Debug, PartialEq, Eq, Structural)]
pub enum State {
    Continue,
    Ready,
    Cancelled,
}

/// The names of the server that events are compared with.
#[derive(Clone, Copy, Debug)]
#[allow(non_snake_case)]
pub struct Atoms {
    pub WM_PROTOCOLS: XId,
    pub WM_DELETE_WINDOW: XId,
    pub NET_WM_PING: XId,
    pub UTF8_STRING: XId,
    pub CLIPBOARD: XId,
    pub XSEL_DATA: XId,
    pub INCR: XId,
}

/// No resource, and no name.
pub const NONE: XId = 0;

/// The name of the selection that is made with the mouse.
pub const PRIMARY: XId = 1;

/// The focus changes because the keyboard is grabbed.
pub const NOTIFY_MODE_GRAB: u8 = 1;

/// The focus changes because the keyboard is no longer grabbed.
pub const NOTIFY_MODE_UNGRAB: u8 = 2;

/// The focus changes while the keyboard is grabbed.
pub const NOTIFY_MODE_WHILE_GRABBED: u8 = 3;

/// The kind of a change of a selection in which it gets an owner.
pub const SET_SELECTION_OWNER: u8 = 0;

/// An event from the server.
pub enum Event {
    Error(XError),
    /// `count` more such events follow.
    Expose { count: u16 },
    ConfigureNotify { width: u16, height: u16 },
    MotionNotify { same_screen: bool, place: Place },
    ButtonPress { detail: u8, same_screen: bool, place: Place },
    ButtonRelease { detail: u8, same_screen: bool, place: Place },
    KeyPress { key: Key },
    SelectionNotify { requestor: XId, property: XId },
    FocusIn { mode: u8 },
    FocusOut { mode: u8 },
    /// `data` is the first number in it.
    ClientMessage { type_: XId, format: u8, data: u32 },
    PresentIdleNotify { serial: u32 },
    PresentCompleteNotify { serial: u32 },
    XkbStateNotify,
    XkbNewKeyboardNotify,
    XkbMapNotify,
    XfixesSelectionNotify { subtype: u8 },
    UnmapNotify,
    /// One that asks for nothing.
    Ignored,
}

/// What is asked of the server, of the keyboard or of the text that is shown.
#[derive(Clone, Copy, Debug, PartialEq, Eq, Structural)]
pub enum Request {
    Nothing,
    GrabKeyboard,
    SetPointer(Pointer),
    ConvertSelection { selection: XId, target: XId, property: XId },
    GetProperty { requestor: XId, property: XId },
    /// To send the message that has come on to the root window.
    Pong { root: XId },
    UpdateMask,
    ReloadKeymap,
    ResetCompose,
    Delete { word: bool },
    Move { direction: Direction, word: bool },
    KeyText { composed: bool },
}

/// What comes of an event.
#[derive(Clone, Copy, Debug, PartialEq, Eq, Structural)]
pub struct Outcome {
    pub state: State,
    pub request: Request,
}

/// What a selection holds.
pub struct SelectionReply {
    pub format: u8,
    pub type_: XId,
    pub value: Vec<u8>,
}

/// What became of a selection.
#[derive(Clone, Copy, Debug, PartialEq, Eq, Structural)]
pub enum Selected {
    InvalidFormat,
    /// It would have to be read in parts.
    TooBig,
    NotUtf8,
    Pasted,
}

/// What does not change with the events, and the picture.
#[derive(Clone, Copy, Debug)]
pub struct Config {
    pub backbuffer: Backbuffer,
    pub window: XId,
    pub root: XId,
    pub atoms: Atoms,
    pub width: u16,
    pub height: u16,
    pub grab_keyboard: bool,
    /// There is a pointer for text.
    pub input_cursor: bool,
    pub compositor_atom: Option<XId>,
    /// The microseconds after which a cycle is too long.
    pub cycle_deadline: u128,
}

/// The state of the connection to the server.
#[derive(Clone, Copy, Debug)]
pub struct XContext {
    pub config: Config,
    pub keyboard_grabbed: bool,
    pub first_expose_received: bool,
    /// A selection has been asked for.
    pub xsel_in_progress: bool,
    /// There was nothing left to read from the server.
    pub xfd_eagain: bool,
    /// There may be events that have been read but not handled.
    pub xcb_events_queued_maybe: bool,
    /// The number of events since requests were last sent off.
    pub x_unflushed_count: u32,
    /// The microseconds of the longest cycle so far.
    pub max_work_time: u128,
}

/// After so many events requests are sent off.
pub const MAX_UNFLUSHED: u32 = 10;

impl XContext {
    /// Requests do not wait for more than so many events.
    pub open spec fn wf(self) -> bool {
        self.x_unflushed_count <= MAX_UNFLUSHED
    }

    /// A connection over which nothing has come yet. To follow the compositor, the server
    /// must be able to tell of it.
    pub fn new(config: Config, xfixes_present: bool) -> (r: Result<XContext, Unsupported>)
        ensures
            match r {
                Err(e) => {
                    &&& config.compositor_atom is Some
                    &&& !xfixes_present
                    &&& e.0@ == "x11 xfixes extension required"@
                },
                Ok(x) => {
                    &&& config.compositor_atom is Some ==> xfixes_present
                    &&& x.wf()
                    &&& x == (XContext {
                        config,
                        keyboard_grabbed: false,
                        first_expose_received: false,
                        xsel_in_progress: false,
                        xfd_eagain: false,
                        xcb_events_queued_maybe: true,
                        x_unflushed_count: 0,
                        max_work_time: 0,
                    })
                },
            },
    {
        if config.compositor_atom.is_some() && !xfixes_present {
            return Err(Unsupported(String::from_str("x11 xfixes extension required")));
        }
        Ok(
            XContext {
                config,
                keyboard_grabbed: false,
                first_expose_received: false,
                xsel_in_progress: false,
                xfd_eagain: false,
                xcb_events_queued_maybe: true,
                x_unflushed_count: 0,
                max_work_time: 0,
            },
        )
    }

    /// Whether there may be events to handle.
    pub open spec fn spec_dirty(self) -> bool {
        !self.xfd_eagain || self.xcb_events_queued_maybe
    }

    /// Whether there may be events to handle.
    pub fn xcb_dirty(&self) -> (r: bool)
        ensures
            r == self.spec_dirty(),
    {
        !self.xfd_eagain || self.xcb_events_queued_maybe
    }

    /// The state of the connection while it is asked for an event.
    pub fn poll(&mut self)
        ensures
            *final(self) == (XContext { xcb_events_queued_maybe: true, ..*old(self) }),
    {
        self.xcb_events_queued_maybe = true;
    }

    /// The connection has been asked for an event, which has been `handled` if there was
    /// one. Whether requests are to be sent off now: once there are no more events, and
    /// when there have been many.
    pub fn polled(&mut self, handled: bool) -> (r: bool)
        requires
            old(self).wf(),
        ensures
            *final(self) == old(self).after_poll(handled),
            r == final(self).must_flush(handled),
            !r ==> final(self).wf(),
    {
        if handled {
            self.x_unflushed_count += 1;
        } else {
            self.xfd_eagain = true;
            self.xcb_events_queued_maybe = false;
        }
        (!handled && self.x_unflushed_count > 0) || self.x_unflushed_count > MAX_UNFLUSHED
    }

    /// The state of the connection after it has been asked for an event.
    pub open spec fn after_poll(self, handled: bool) -> XContext {
        if handled {
            XContext { x_unflushed_count: (self.x_unflushed_count + 1) as u32, ..self }
        } else {
            XContext { xfd_eagain: true, xcb_events_queued_maybe: false, ..self }
        }
    }

    /// Whether requests are to be sent off.
    pub open spec fn must_flush(self, handled: bool) -> bool {
        (!handled && self.x_unflushed_count > 0) || self.x_unflushed_count > MAX_UNFLUSHED
    }

    /// Whether to go on asking for events: until one was handled, or there are none.
    pub fn xcb_dequeue(&self, handled: bool) -> (r: bool)
        ensures
            r == (!handled && self.spec_dirty()),
    {
        !handled && self.xcb_dirty()
    }

    /// Sends requests off, with the picture of the dialog. Sending may bring events.
    pub fn flush(&mut self, dialog: &mut Dialog, moving: bool) -> (r: Commit)
        requires
            old(dialog).wf(),
            old(self).config.backbuffer.can_commit(*old(dialog)),
        ensures
            final(dialog).wf(),
            final(self).wf(),
            *final(self) == (XContext {
                xcb_events_queued_maybe: true,
                x_unflushed_count: 0,
                config: Config {
                    backbuffer: old(self).config.backbuffer.committed(*old(dialog)),
                    ..old(self).config
                },
                ..*old(self)
            }),
            old(self).config.backbuffer.commits(*old(dialog), moving, r, *final(dialog)),
    {
        self.xcb_events_queued_maybe = true;
        let r = self.config.backbuffer.commit(dialog, moving);
        self.x_unflushed_count = 0;
        r
    }

    /// A cycle of the given number of microseconds is over. Whether it was the longest so
    /// far, and whether it was too long.
    pub fn stopwatch_stop(&mut self, duration: u128) -> (r: (bool, bool))
        ensures
            r == (duration > old(self).max_work_time, duration > old(self).config.cycle_deadline),
            *final(self) == (XContext {
                max_work_time: if duration > old(self).max_work_time {
                    duration
                } else {
                    old(self).max_work_time
                },
                ..*old(self)
            }),
    {
        let longest = duration > self.max_work_time;
        if longest {
            self.max_work_time = duration;
        }
        (longest, duration > self.config.cycle_deadline)
    }

    /// There is something to read from the server.
    pub fn readable(&mut self)
        ensures
            *final(self) == (XContext { xfd_eagain: false, ..*old(self) }),
    {
        self.xfd_eagain = false;
    }

    /// The request for the usual pointer.
    pub fn set_default_cursor(&self) -> (r: Request)
        ensures
            r == Request::SetPointer(Pointer::Default),
    {
        Request::SetPointer(Pointer::Default)
    }

    /// The request for the pointer for text, where there is one.
    pub fn set_input_cursor(&self) -> (r: Request)
        ensures
            r == (if self.config.input_cursor {
                Request::SetPointer(Pointer::Input)
            } else {
                Request::Nothing
            }),
    {
        if self.config.input_cursor {
            Request::SetPointer(Pointer::Input)
        } else {
            Request::Nothing
        }
    }

    /// The request for a change of the pointer.
    pub open spec fn pointer_request(self, pointer: Option<Pointer>) -> Request {
        match pointer {
            Some(Pointer::Default) => Request::SetPointer(Pointer::Default),
            Some(Pointer::Input) if self.config.input_cursor => Request::SetPointer(Pointer::Input),
            _ => Request::Nothing,
        }
    }

    /// The request for a selection. There is none while one is waited for.
    pub open spec fn paste_request(self, selection: XId) -> Request {
        if self.xsel_in_progress {
            Request::Nothing
        } else {
            Request::ConvertSelection {
                selection,
                target: self.config.atoms.UTF8_STRING,
                property: self.config.atoms.XSEL_DATA,
            }
        }
    }

    fn paste(&mut self, selection: XId) -> (r: Request)
        ensures
            r == old(self).paste_request(selection),
            *final(self) == (XContext { xsel_in_progress: true, ..*old(self) }),
    {
        if self.xsel_in_progress {
            return Request::Nothing;
        }
        self.xsel_in_progress = true;
        Request::ConvertSelection {
            selection,
            target: self.config.atoms.UTF8_STRING,
            property: self.config.atoms.XSEL_DATA,
        }
    }

    /// Asks for what was selected with the mouse.
    pub fn paste_primary(&mut self) -> (r: Request)
        ensures
            r == old(self).paste_request(PRIMARY),
            *final(self) == (XContext { xsel_in_progress: true, ..*old(self) }),
    {
        self.paste(PRIMARY)
    }

    /// Asks for what is on the clipboard.
    pub fn paste_clipboard(&mut self) -> (r: Request)
        ensures
            r == old(self).paste_request(old(self).config.atoms.CLIPBOARD),
            *final(self) == (XContext { xsel_in_progress: true, ..*old(self) }),
    {
        let clipboard = self.config.atoms.CLIPBOARD;
        self.paste(clipboard)
    }
}

/// Nothing comes of the event but a change of state.
pub open spec fn go_on(request: Request) -> Outcome {
    Outcome { state: State::Continue, request }
}

impl XContext {
    /// What is left of an action becomes the end of the dialog or a request.
    pub open spec fn after_action(self, action: Action) -> (XContext, Outcome) {
        match action {
            Action::Accept => (self, Outcome { state: State::Ready, request: Request::Nothing }),
            Action::Cancel => (
                self,
                Outcome { state: State::Cancelled, request: Request::Nothing },
            ),
            Action::PastePrimary => (
                XContext { xsel_in_progress: true, ..self },
                go_on(self.paste_request(PRIMARY)),
            ),
            Action::PasteClipboard => (
                XContext { xsel_in_progress: true, ..self },
                go_on(self.paste_request(self.config.atoms.CLIPBOARD)),
            ),
            Action::Nothing | Action::PlainText => (self, go_on(Request::Nothing)),
        }
    }

    /// What is left of a key becomes the end of the dialog or a request.
    pub open spec fn after_key(self, step: KeyStep) -> (XContext, Outcome) {
        match step {
            KeyStep::Done(action) => self.after_action(action),
            KeyStep::ResetCompose => (self, go_on(Request::ResetCompose)),
            KeyStep::Delete { word } => (self, go_on(Request::Delete { word })),
            KeyStep::Move { direction, word } => (
                self,
                go_on(Request::Move { direction, word }),
            ),
            KeyStep::Text { composed } => (self, go_on(Request::KeyText { composed })),
        }
    }

    /// Whether the keyboard is grabbed after the focus has changed.
    pub open spec fn grabbed_after(self, mode: u8) -> bool {
        if mode == NOTIFY_MODE_GRAB {
            true
        } else if mode == NOTIFY_MODE_UNGRAB {
            false
        } else {
            self.keyboard_grabbed
        }
    }

    /// What comes of the window losing its contents, once that has been told of all parts.
    pub open spec fn after_expose(self, count: u16) -> (XContext, Outcome) {
        if count > 0 {
            (self, go_on(Request::Nothing))
        } else {
            (
                XContext {
                    first_expose_received: true,
                    config: Config { backbuffer: self.config.backbuffer.exposed(), ..self.config },
                    ..self
                },
                go_on(
                    if self.config.grab_keyboard && !self.keyboard_grabbed {
                        Request::GrabKeyboard
                    } else {
                        Request::Nothing
                    },
                ),
            )
        }
    }

    /// The state after the window has got a size.
    pub open spec fn after_configure(self, width: u16, height: u16) -> XContext {
        if width == self.config.width && height == self.config.height {
            self
        } else {
            XContext {
                config: Config {
                    width,
                    height,
                    backbuffer: Backbuffer {
                        resize_requested: Some((width, height)),
                        ..self.config.backbuffer
                    },
                    ..self.config
                },
                ..self
            }
        }
    }

    /// What comes of a message from the window manager: it closes the window, or asks
    /// whether the program is alive.
    pub open spec fn after_client_message(self, type_: XId, format: u8, data: u32) -> Outcome {
        let protocol = type_ == self.config.atoms.WM_PROTOCOLS && format == 32;
        if protocol && data == self.config.atoms.WM_DELETE_WINDOW {
            Outcome { state: State::Cancelled, request: Request::Nothing }
        } else if protocol && data == self.config.atoms.NET_WM_PING {
            go_on(Request::Pong { root: self.config.root })
        } else {
            go_on(Request::Nothing)
        }
    }

    /// The event speaks of this dialog and of the frame that was handed over last.
    pub open spec fn event_ok(self, dialog: Dialog, event: Event) -> bool {
        match event {
            Event::MotionNotify { same_screen, place } => same_screen ==> place.buttons@.len()
                == dialog.buttons@.len(),
            Event::ButtonPress { same_screen, place, .. } => same_screen ==> dialog.started()
                && dialog.place_ok(place),
            Event::ButtonRelease { same_screen, place, .. } => same_screen ==> dialog.started()
                && dialog.place_ok(place),
            Event::KeyPress { .. } => dialog.started(),
            Event::PresentCompleteNotify { serial } => serial == self.config.backbuffer.serial,
            _ => true,
        }
    }

    /// What comes of a button of the mouse, with the state `new` and the dialog `shown`
    /// after it.
    pub open spec fn mouse(
        self,
        dialog: Dialog,
        button: u8,
        same_screen: bool,
        place: Place,
        isrelease: bool,
        r: Outcome,
        new: XContext,
        shown: Dialog,
    ) -> bool {
        if same_screen {
            exists|action: Action| #[trigger]
                dialog.handles_click(button, place, isrelease, action, shown) && (new, r)
                    == self.after_action(action)
        } else {
            (new, r) == (self, go_on(Request::Nothing)) && shown == dialog
        }
    }

    /// What comes of a move of the mouse, with the dialog `shown` after it.
    pub open spec fn motion(
        self,
        dialog: Dialog,
        same_screen: bool,
        place: Place,
        r: Outcome,
        shown: Dialog,
    ) -> bool {
        if same_screen {
            exists|pointer: Option<Pointer>| #[trigger]
                dialog.handles_motion(place, pointer, shown) && r == go_on(
                    self.pointer_request(pointer),
                )
        } else {
            r == go_on(Request::Nothing) && shown == dialog
        }
    }

    /// What comes of a key, with the state `new` and the dialog `shown` after it.
    pub open spec fn typed(
        self,
        dialog: Dialog,
        key: Key,
        r: Outcome,
        new: XContext,
        shown: Dialog,
    ) -> bool {
        exists|step: KeyStep| #[trigger]
            dialog.handles_key(key, step, shown) && (new, r) == self.after_key(step)
    }

    /// `r` comes of the event, with the state `new` and the dialog `shown` after it.
    pub open spec fn handles(
        self,
        dialog: Dialog,
        event: Event,
        r: Outcome,
        new: XContext,
        shown: Dialog,
    ) -> bool {
        match event {
            Event::Error(_) => false,
            Event::Expose { count } => shown == dialog && (new, r) == self.after_expose(count),
            Event::ConfigureNotify { width, height } => {
                &&& shown == dialog
                &&& r == go_on(Request::Nothing)
                &&& new == self.after_configure(width, height)
            },
            Event::MotionNotify { same_screen, place } => new == self && self.motion(
                dialog,
                same_screen,
                place,
                r,
                shown,
            ),
            Event::ButtonPress { detail, same_screen, place } => self.mouse(
                dialog,
                detail,
                same_screen,
                place,
                false,
                r,
                new,
                shown,
            ),
            Event::ButtonRelease { detail, same_screen, place } => self.mouse(
                dialog,
                detail,
                same_screen,
                place,
                true,
                r,
                new,
                shown,
            ),
            Event::KeyPress { key } => self.typed(dialog, key, r, new, shown),
            Event::SelectionNotify { requestor, property } => {
                &&& shown == dialog
                &&& if property == NONE {
                    &&& new == (XContext { xsel_in_progress: false, ..self })
                    &&& r == go_on(Request::Nothing)
                } else {
                    &&& new == self
                    &&& r == go_on(Request::GetProperty { requestor, property })
                }
            },
            Event::FocusIn { mode } => {
                &&& r == go_on(Request::Nothing)
                &&& new == (XContext { keyboard_grabbed: self.grabbed_after(mode), ..self })
                &&& shown == (Dialog {
                    indicator: dialog.indicator.with_status(
                        dialog.indicator.status().with_focus(true),
                    ),
                    ..dialog
                })
            },
            Event::FocusOut { mode } => {
                &&& r == go_on(Request::Nothing)
                &&& new == (XContext { keyboard_grabbed: self.grabbed_after(mode), ..self })
                &&& shown == (if mode == NOTIFY_MODE_GRAB || mode == NOTIFY_MODE_WHILE_GRABBED {
                    dialog
                } else {
                    Dialog {
                        indicator: dialog.indicator.with_status(
                            dialog.indicator.status().with_focus(false),
                        ),
                        ..dialog
                    }
                })
            },
            Event::ClientMessage { type_, format, data } => new == self && shown == dialog && r
                == self.after_client_message(type_, format, data),
            Event::PresentIdleNotify { serial } => {
                &&& r == go_on(Request::Nothing)
                &&& shown == dialog
                &&& new == (XContext {
                    config: Config {
                        backbuffer: self.config.backbuffer.idle(serial),
                        ..self.config
                    },
                    ..self
                })
            },
            Event::PresentCompleteNotify { .. } => {
                &&& r == go_on(Request::Nothing)
                &&& shown == dialog
                &&& new == (XContext {
                    config: Config {
                        backbuffer: Backbuffer {
                            vsync_completed: true,
                            ..self.config.backbuffer
                        },
                        ..self.config
                    },
                    ..self
                })
            },
            Event::XkbStateNotify => new == self && shown == dialog && r == go_on(
                Request::UpdateMask,
            ),
            Event::XkbNewKeyboardNotify | Event::XkbMapNotify => new == self && shown == dialog
                && r == go_on(Request::ReloadKeymap),
            Event::XfixesSelectionNotify { subtype } => {
                &&& new == self
                &&& r == go_on(Request::Nothing)
                &&& shown == dialog.with_transparency(subtype == SET_SELECTION_OWNER)
            },
            Event::UnmapNotify => {
                &&& r == go_on(Request::Nothing)
                &&& shown == dialog
                &&& new == (XContext {
                    config: Config {
                        backbuffer: Backbuffer { visible: false, ..self.config.backbuffer },
                        ..self.config
                    },
                    ..self
                })
            },
            Event::Ignored => new == self && shown == dialog && r == go_on(Request::Nothing),
        }
    }

    fn act(&mut self, action: Action) -> (r: Outcome)
        ensures
            (*final(self), r) == old(self).after_action(action),
    {
        match action {
            Action::Accept => Outcome { state: State::Ready, request: Request::Nothing },
            Action::Cancel => Outcome { state: State::Cancelled, request: Request::Nothing },
            Action::PastePrimary => {
                let request = self.paste_primary();
                Outcome { state: State::Continue, request }
            },
            Action::PasteClipboard => {
                let request = self.paste_clipboard();
                Outcome { state: State::Continue, request }
            },
            Action::Nothing | Action::PlainText => Outcome {
                state: State::Continue,
                request: Request::Nothing,
            },
        }
    }

    fn set_grabbed(&mut self, mode: u8)
        ensures
            *final(self) == (XContext {
                keyboard_grabbed: old(self).grabbed_after(mode),
                ..*old(self)
            }),
    {
        if mode == NOTIFY_MODE_GRAB {
            self.keyboard_grabbed = true;
        } else if mode == NOTIFY_MODE_UNGRAB {
            self.keyboard_grabbed = false;
        }
    }

    fn handle_expose(&mut self, count: u16) -> (r: Outcome)
        ensures
            (*final(self), r) == old(self).after_expose(count),
    {
        let mut request = Request::Nothing;
        if count == 0 {
            self.config.backbuffer.set_exposed();
            self.first_expose_received = true;
            if self.config.grab_keyboard && !self.keyboard_grabbed {
                request = Request::GrabKeyboard;
            }
        }
        Outcome { state: State::Continue, request }
    }

    fn handle_configure(&mut self, width: u16, height: u16)
        ensures
            *final(self) == old(self).after_configure(width, height),
    {
        if self.config.width != width || self.config.height != height {
            self.config.width = width;
            self.config.height = height;
            self.config.backbuffer.resize_requested = Some((width, height));
        }
    }

    fn handle_client_message(&self, type_: XId, format: u8, data: u32) -> (r: Outcome)
        ensures
            r == self.after_client_message(type_, format, data),
    {
        let mut state = State::Continue;
        let mut request = Request::Nothing;
        if type_ == self.config.atoms.WM_PROTOCOLS && format == 32 {
            if data == self.config.atoms.WM_DELETE_WINDOW {
                state = State::Cancelled;
            } else if data == self.config.atoms.NET_WM_PING {
                request = Request::Pong { root: self.config.root };
            }
        }
        Outcome { state, request }
    }

    fn handle_motion(&mut self, dialog: &mut Dialog, same_screen: bool, place: Place) -> (r:
        Request)
        requires
            old(dialog).wf(),
            same_screen ==> place.buttons@.len() == old(dialog).buttons@.len(),
        ensures
            final(dialog).wf(),
            *final(self) == *old(self),
            old(self).motion(*old(dialog), same_screen, place, go_on(r), *final(dialog)),
    {
        if !same_screen {
            return Request::Nothing;
        }
        let pointer = dialog.handle_motion(&place);
        assert(old(dialog).handles_motion(place, pointer, *dialog));
        match pointer {
            Some(Pointer::Input) => self.set_input_cursor(),
            Some(Pointer::Default) => self.set_default_cursor(),
            None => Request::Nothing,
        }
    }

    fn handle_button(
        &mut self,
        dialog: &mut Dialog,
        button: u8,
        same_screen: bool,
        place: Place,
        isrelease: bool,
    ) -> (r: Outcome)
        requires
            old(dialog).wf(),
            same_screen ==> old(dialog).started() && old(dialog).place_ok(place),
        ensures
            final(dialog).wf(),
            old(self).mouse(
                *old(dialog),
                button,
                same_screen,
                place,
                isrelease,
                r,
                *final(self),
                *final(dialog),
            ),
    {
        if !same_screen {
            return Outcome { state: State::Continue, request: Request::Nothing };
        }
        let action = dialog.handle_button_press(button, &place, isrelease);
        assert(old(dialog).handles_click(button, place, isrelease, action, *dialog));
        self.act(action)
    }

    fn handle_key(&mut self, dialog: &mut Dialog, key: Key) -> (r: Outcome)
        requires
            old(dialog).wf(),
            old(dialog).started(),
        ensures
            final(dialog).wf(),
            old(self).typed(*old(dialog), key, r, *final(self), *final(dialog)),
    {
        let mut pressed = key;
        let step = dialog.handle_key_press(&mut pressed);
        assert(old(dialog).handles_key(key, step, *dialog));
        let request = match step {
            KeyStep::Done(action) => {
                return self.act(action);
            },
            KeyStep::ResetCompose => Request::ResetCompose,
            KeyStep::Delete { word } => Request::Delete { word },
            KeyStep::Move { direction, word } => Request::Move { direction, word },
            KeyStep::Text { composed } => Request::KeyText { composed },
        };
        Outcome { state: State::Continue, request }
    }

    /// Handles an event. An error from the server is handed back.
    #[verifier::rlimit(30)]
    pub fn handle_event(&mut self, dialog: &mut Dialog, event: Event) -> (r: Result<
        Outcome,
        XError,
    >)
        requires
            old(dialog).wf(),
            old(self).event_ok(*old(dialog), event),
        ensures
            final(dialog).wf(),
            match r {
                Err(err) => event == Event::Error(err) && *final(self) == *old(self)
                    && *final(dialog) == *old(dialog),
                Ok(outcome) => old(self).handles(
                    *old(dialog),
                    event,
                    outcome,
                    *final(self),
                    *final(dialog),
                ),
            },
    {
        match event {
            Event::Error(error) => Err(error),
            Event::Expose { count } => Ok(self.handle_expose(count)),
            Event::ConfigureNotify { width, height } => {
                self.handle_configure(width, height);
                Ok(Outcome { state: State::Continue, request: Request::Nothing })
            },
            Event::MotionNotify { same_screen, place } => {
                let request = self.handle_motion(dialog, same_screen, place);
                Ok(Outcome { state: State::Continue, request })
            },
            Event::ButtonPress { detail, same_screen, place } => Ok(
                self.handle_button(dialog, detail, same_screen, place, false),
            ),
            Event::ButtonRelease { detail, same_screen, place } => Ok(
                self.handle_button(dialog, detail, same_screen, place, true),
            ),
            Event::KeyPress { key } => Ok(self.handle_key(dialog, key)),
            Event::SelectionNotify { requestor, property } => {
                if property == NONE {
                    self.xsel_in_progress = false;
                    return Ok(Outcome { state: State::Continue, request: Request::Nothing });
                }
                Ok(
                    Outcome {
                        state: State::Continue,
                        request: Request::GetProperty { requestor, property },
                    },
                )
            },
            Event::FocusIn { mode } => {
                self.set_grabbed(mode);
                dialog.indicator.set_focused(true);
                Ok(Outcome { state: State::Continue, request: Request::Nothing })
            },
            Event::FocusOut { mode } => {
                self.set_grabbed(mode);
                if mode != NOTIFY_MODE_GRAB && mode != NOTIFY_MODE_WHILE_GRABBED {
                    dialog.indicator.set_focused(false);
                }
                Ok(Outcome { state: State::Continue, request: Request::Nothing })
            },
            Event::ClientMessage { type_, format, data } => Ok(
                self.handle_client_message(type_, format, data),
            ),
            Event::PresentIdleNotify { serial } => {
                self.config.backbuffer.on_idle_notify(serial);
                Ok(Outcome { state: State::Continue, request: Request::Nothing })
            },
            Event::PresentCompleteNotify { serial } => {
                self.config.backbuffer.on_vsync_completed(serial);
                Ok(Outcome { state: State::Continue, request: Request::Nothing })
            },
            Event::XkbStateNotify => Ok(
                Outcome { state: State::Continue, request: Request::UpdateMask },
            ),
            Event::XkbNewKeyboardNotify | Event::XkbMapNotify => Ok(
                Outcome { state: State::Continue, request: Request::ReloadKeymap },
            ),
            Event::XfixesSelectionNotify { subtype } => {
                dialog.set_transparency(subtype == SET_SELECTION_OWNER);
                Ok(Outcome { state: State::Continue, request: Request::Nothing })
            },
            Event::UnmapNotify => {
                self.config.backbuffer.visible = false;
                Ok(Outcome { state: State::Continue, request: Request::Nothing })
            },
            Event::Ignored => Ok(
                Outcome { state: State::Continue, request: Request::Nothing },
            ),
        }
    }

    /// What becomes of a selection.
    pub open spec fn selected(self, reply: SelectionReply) -> Selected {
        if reply.format != 8 {
            Selected::InvalidFormat
        } else if reply.type_ == self.config.atoms.INCR {
            Selected::TooBig
        } else if !valid_utf8(reply.value@) {
            Selected::NotUtf8
        } else {
            Selected::Pasted
        }
    }

    /// `r` becomes of a selection that has come, with the state `new` and the dialog `shown`
    /// after it, and with `left` in the reply.
    pub open spec fn pastes(
        self,
        dialog: Dialog,
        reply: SelectionReply,
        r: Selected,
        new: XContext,
        shown: Dialog,
        left: Seq<u8>,
    ) -> bool {
        &&& r == self.selected(reply)
        &&& new == (XContext { xsel_in_progress: false, ..self })
        &&& if r == Selected::Pasted {
            &&& shown.same_frame(dialog)
            &&& shown.buttons == dialog.buttons
            &&& dialog.indicator.inserts(decode_utf8(reply.value@), true, shown.indicator)
        } else {
            shown == dialog
        }
        &&& left == (if r == Selected::Pasted || r == Selected::NotUtf8 {
            Seq::<u8>::empty()
        } else {
            reply.value@
        })
    }

    /// The selection that was asked for has come. Its text is entered, if it is text and
    /// came in one part. What was read as text is wiped, whether it could be entered or not.
    pub fn handle_selection(&mut self, dialog: &mut Dialog, reply: &mut SelectionReply) -> (r:
        Selected)
        requires
            old(dialog).wf(),
            old(self).selected(*old(reply)) == Selected::Pasted ==> old(
                dialog,
            ).indicator.can_insert(),
        ensures
            final(dialog).wf(),
            *final(self) == (XContext { xsel_in_progress: false, ..*old(self) }),
            r == old(self).selected(*old(reply)),
            if r == Selected::Pasted {
                &&& final(dialog).same_frame(*old(dialog))
                &&& final(dialog).buttons == old(dialog).buttons
                &&& old(dialog).indicator.inserts(
                    decode_utf8(old(reply).value@),
                    true,
                    final(dialog).indicator,
                )
            } else {
                *final(dialog) == *old(dialog)
            },
            final(reply).format == old(reply).format,
            final(reply).type_ == old(reply).type_,
            final(reply).value@ == (if r == Selected::Pasted || r == Selected::NotUtf8 {
                Seq::<u8>::empty()
            } else {
                old(reply).value@
            }),
            old(self).pastes(
                *old(dialog),
                *old(reply),
                r,
                *final(self),
                *final(dialog),
                final(reply).value@,
            ),
    {
        self.xsel_in_progress = false;
        if reply.format != 8 {
            return Selected::InvalidFormat;
        }
        if reply.type_ == self.config.atoms.INCR {
            return Selected::TooBig;
        }
        let r = match crate::secret::utf8_text(reply.value.as_slice()) {
            None => Selected::NotUtf8,
            Some(val) => {
                dialog.indicator.pass_insert(val, true);
                Selected::Pasted
            },
        };
        crate::secret::wipe_bytes(&mut reply.value);
        r
    }

    /// What is undone when the connection is given up: the grab of the keyboard, and the
    /// watch on the compositor.
    pub fn teardown(&self) -> (r: (bool, Option<(XId, XId)>))
        ensures
            r.0 == self.keyboard_grabbed,
            r.1 == (match self.config.compositor_atom {
                Some(atom) => Some((self.config.window, atom)),
                None => None,
            }),
    {
        let watch = match self.config.compositor_atom {
            Some(atom) => Some((self.config.window, atom)),
            None => None,
        };
        (self.keyboard_grabbed, watch)
    }
}

/// The state after a timer of the dialog has fired and asked for `action`.
pub open spec fn timed(action: Action) -> State {
    if action == Action::Cancel {
        State::Cancelled
    } else {
        State::Continue
    }
}

/// The state after a timer of the dialog has fired and asked for `action`.
pub fn after_timer(action: Action) -> (r: State)
    ensures
        r == timed(action),
        r == (if action == Action::Cancel {
            State::Cancelled
        } else {
            State::Continue
        }),
{
    if action == Action::Cancel {
        State::Cancelled
    } else {
        State::Continue
    }
}

/// `r` is what a dialog gives that ends in `state`.
pub open spec fn gives(state: State, dialog: Dialog, r: Option<Passphrase>) -> bool {
    match r {
        Some(pass) => state == State::Ready && pass.0 == dialog.indicator.base().pass,
        None => state == State::Cancelled,
    }
}

/// What the dialog gives in the end: the passphrase, where it was accepted.
pub fn finish(state: State, dialog: Dialog) -> (r: Option<Passphrase>)
    requires
        state != State::Continue,
    ensures
        match r {
            Some(pass) => state == State::Ready && pass.0 == dialog.indicator.base().pass,
            None => state == State::Cancelled,
        },
        gives(state, dialog, r),
{
    match state {
        State::Ready => Some(dialog.indicator.into_pass()),
        State::Continue | State::Cancelled => None,
    }
}

/// While a selection is waited for, no other is asked for.
pub proof fn lemma_one_selection_at_a_time(x: XContext, first: Action, second: Action)
    requires
        first == Action::PastePrimary || first == Action::PasteClipboard,
        second == Action::PastePrimary || second == Action::PasteClipboard,
    ensures
        x.after_action(first).0.after_action(second).1 == go_on(Request::Nothing),
{
}

/// When there was no event and nothing has to be sent off, there is nothing left to read and
/// nothing to handle.
pub proof fn lemma_nothing_found_nothing_left(x: XContext)
    ensures
        !x.after_poll(false).must_flush(false) ==> !x.after_poll(false).spec_dirty(),
{
}

/// Whatever is handled, requests do not wait for more events than they may, and the times of
/// the cycles are kept.
pub proof fn lemma_handling_keeps_counts(
    x: XContext,
    dialog: Dialog,
    event: Event,
    r: Outcome,
    new: XContext,
    shown: Dialog,
)
    requires
        x.wf(),
        x.handles(dialog, event, r, new, shown),
    ensures
        new.wf(),
        new.x_unflushed_count == x.x_unflushed_count,
        new.max_work_time == x.max_work_time,
        new.xfd_eagain == x.xfd_eagain,
        new.xcb_events_queued_maybe == x.xcb_events_queued_maybe,
{
}

/// The dialog is accepted only with a button of the mouse that is released or with a key, and
/// cancelled only with these or by the window manager.
pub proof fn lemma_what_ends_the_dialog(
    x: XContext,
    dialog: Dialog,
    event: Event,
    r: Outcome,
    new: XContext,
    shown: Dialog,
)
    requires
        dialog.wf(),
        x.handles(dialog, event, r, new, shown),
    ensures
        r.state == State::Ready ==> event is ButtonRelease || event is KeyPress,
        r.state == State::Cancelled ==> event is ButtonRelease || event is KeyPress
            || event is ClientMessage,
        r.state != State::Continue ==> r.request == Request::Nothing,
{
}

/// No event but a key changes the passphrase by itself, and a key that does so leaves none of
/// it. What is typed or pasted is asked for, and comes after the event.
pub proof fn lemma_passphrase_kept(
    x: XContext,
    dialog: Dialog,
    event: Event,
    r: Outcome,
    new: XContext,
    shown: Dialog,
)
    requires
        dialog.wf(),
        x.handles(dialog, event, r, new, shown),
    ensures
        shown.indicator.pass() == dialog.indicator.pass() || (event is KeyPress
            && shown.indicator.pass() == Seq::<char>::empty()),
{
}

/// Nothing but `request` comes of the event, and the dialog goes on.
pub open spec fn only_asks(r: Outcome, request: Request) -> bool {
    r.state == State::Continue && r.request == request
}

/// To accept makes the dialog ready and to cancel ends it without a passphrase. To paste asks
/// for the selection as text in UTF-8, once: until it has come, or there is none, no other is
/// asked for. The rest asks for nothing.
pub proof fn lemma_actions(x: XContext, action: Action)
    ensures
        ({
            let (new, r) = x.after_action(action);
            &&& r.state == State::Ready <==> action == Action::Accept
            &&& r.state == State::Cancelled <==> action == Action::Cancel
            &&& action != Action::PastePrimary && action != Action::PasteClipboard ==> new == x
                && r.request == Request::Nothing
            &&& action == Action::PastePrimary || action == Action::PasteClipboard ==> {
                &&& new == (XContext { xsel_in_progress: true, ..x })
                &&& x.xsel_in_progress ==> r.request == Request::Nothing
                &&& !x.xsel_in_progress ==> r.request == (Request::ConvertSelection {
                    selection: if action == Action::PastePrimary {
                        1
                    } else {
                        x.config.atoms.CLIPBOARD
                    },
                    target: x.config.atoms.UTF8_STRING,
                    property: x.config.atoms.XSEL_DATA,
                })
            }
        }),
{
}

/// What a key asks for is done or asked for: it ends the dialog, pastes, or is handed on to the
/// keyboard or to the text.
pub proof fn lemma_key_event(
    x: XContext,
    dialog: Dialog,
    key: Key,
    sym: u32,
    composed: bool,
    r: Outcome,
    new: XContext,
    shown: Dialog,
)
    requires
        crate::dialog::laws::stands_for(key, sym, composed),
        x.handles(dialog, Event::KeyPress { key }, r, new, shown),
    ensures
        r.state == State::Ready <==> sym == 0xff0d || sym == 0xff8d || (key.ctrl && (sym
            == 'j' as u32 || sym == 'm' as u32)),
        r.state == State::Cancelled <==> sym == 0xff1b,
        r.request matches Request::ConvertSelection { selection, .. } ==> (sym == 0xff63
            && key.shift && selection == 1) || (key.ctrl && sym == 'v' as u32 && selection
            == x.config.atoms.CLIPBOARD),
        !x.xsel_in_progress && ((sym == 0xff63 && key.shift) || (key.ctrl && sym == 'v' as u32))
            ==> r.request is ConvertSelection && new.xsel_in_progress,
        r.request is Delete <==> sym == 0xff08 || (key.ctrl && sym == 'h' as u32),
        r.request is Move <==> sym == 0xff51 || sym == 0xff53,
        r.request matches Request::Move { direction, .. } ==> (direction == Direction::Left <==> sym
            == 0xff51),
        r.request matches Request::KeyText { composed: c } ==> c == composed,
        // all that has no meaning of its own is text
        !key.ctrl && sym != 0xff0d && sym != 0xff8d && sym != 0xff1b && sym != 0xff08 && sym
            != 0xff51 && sym != 0xff53 && sym != 0xff63 ==> r.request is KeyText && new == x
            && shown.indicator == dialog.indicator,
        !(key.ctrl && sym == 'u' as u32) ==> shown.indicator == dialog.indicator,
        key.ctrl && sym == 'u' as u32 ==> shown.indicator.pass().len() == 0 && only_asks(
            r,
            Request::Nothing,
        ),
        new == (XContext { xsel_in_progress: new.xsel_in_progress, ..x }),
{
    let step = choose|step: KeyStep| #[trigger]
        dialog.handles_key(key, step, shown) && (new, r) == x.after_key(step);
    crate::dialog::laws::lemma_what_keys_ask_for(dialog, key, sym, composed, step, shown);
}

/// Neither a press of a mouse button nor anything on another screen ends the dialog or asks for
/// anything, and on another screen nothing changes at all.
pub proof fn lemma_press_event(
    x: XContext,
    dialog: Dialog,
    detail: u8,
    same_screen: bool,
    place: Place,
    r: Outcome,
    new: XContext,
    shown: Dialog,
)
    requires
        x.handles(dialog, Event::ButtonPress { detail, same_screen, place }, r, new, shown),
    ensures
        only_asks(r, Request::Nothing),
        new == x,
        shown.indicator.pass() == dialog.indicator.pass(),
        !same_screen ==> shown == dialog,
{
}

/// What comes of a mouse button that is let go. The left one over the button of the dialog that
/// it holds ends the dialog or pastes the clipboard; the middle one over the dialog, after it
/// was pressed, pastes what was selected with the mouse. Every other does nothing.
pub proof fn lemma_release_event(
    x: XContext,
    dialog: Dialog,
    detail: u8,
    same_screen: bool,
    place: Place,
    r: Outcome,
    new: XContext,
    shown: Dialog,
    i: int,
)
    requires
        dialog.wf(),
        same_screen ==> dialog.place_ok(place),
        x.handles(dialog, Event::ButtonRelease { detail, same_screen, place }, r, new, shown),
        0 <= i <= dialog.buttons@.len(),
        i < dialog.buttons@.len() ==> dialog.buttons@[i].pressed,
        forall|j: int| 0 <= j < i ==> !(#[trigger] dialog.buttons@[j]).pressed,
    ensures
        ({
            let on = same_screen && detail == 1 && i < dialog.buttons@.len() && place.buttons@[i];
            let middle = same_screen && detail == 2 && dialog.mouse_middle_pressed && place.dialog;
            &&& r.state == State::Ready <==> on && i == 0
            &&& r.state == State::Cancelled <==> on && i == 1
            &&& !x.xsel_in_progress ==> (r.request is ConvertSelection <==> (on && i == 2)
                || middle)
            &&& r.request matches Request::ConvertSelection { selection, target, property } ==> {
                &&& selection == (if detail == 2 {
                    1
                } else {
                    x.config.atoms.CLIPBOARD
                })
                &&& target == x.config.atoms.UTF8_STRING
                &&& property == x.config.atoms.XSEL_DATA
            }
            &&& !(on && i == 2) && !middle ==> new == x && r.request == Request::Nothing
            &&& shown.indicator.pass() == dialog.indicator.pass()
            &&& !same_screen ==> shown == dialog
        }),
{
    if same_screen {
        let action = choose|action: Action| #[trigger]
            dialog.handles_click(detail, place, true, action, shown) && (new, r)
                == x.after_action(action);
        lemma_actions(x, action);
        if detail == 1 {
            crate::dialog::laws::lemma_left_release(dialog, place, action, shown, i);
            if i < dialog.buttons@.len() && place.buttons@[i] {
                assert(i == 0 || i == 1 || i == 2 || i == 3);
            }
        } else if detail != 2 {
            crate::dialog::laws::lemma_other_mouse_buttons(
                dialog,
                detail,
                place,
                true,
                action,
                shown,
            );
        }
    }
}

/// The pointer over the window is changed only as the mouse comes over the text or leaves it,
/// to the one for text where there is one. A move of the mouse asks for nothing else and
/// changes neither the connection nor the passphrase.
pub proof fn lemma_motion_event(
    x: XContext,
    dialog: Dialog,
    same_screen: bool,
    place: Place,
    r: Outcome,
    new: XContext,
    shown: Dialog,
)
    requires
        x.handles(dialog, Event::MotionNotify { same_screen, place }, r, new, shown),
    ensures
        new == x,
        r.state == State::Continue,
        r.request == Request::Nothing || r.request == Request::SetPointer(Pointer::Default)
            || r.request == Request::SetPointer(Pointer::Input),
        r.request == Request::SetPointer(Pointer::Input) ==> x.config.input_cursor,
        !same_screen ==> r.request == Request::Nothing && shown == dialog,
        same_screen ==> exists|pointer: Option<Pointer>| #[trigger]
            dialog.handles_motion(place, pointer, shown) && {
                &&& r.request == Request::SetPointer(Pointer::Default) <==> pointer == Some(
                    Pointer::Default,
                )
                &&& r.request == Request::SetPointer(Pointer::Input) <==> pointer == Some(
                    Pointer::Input,
                ) && x.config.input_cursor
            },
        shown.indicator.pass() == dialog.indicator.pass(),
{
}

/// A window that has lost its contents is shown anew once all of that has been told, and the
/// keyboard is grabbed then, where that was configured and has not happened. Before that
/// nothing is done.
pub proof fn lemma_expose_event(
    x: XContext,
    dialog: Dialog,
    count: u16,
    r: Outcome,
    new: XContext,
    shown: Dialog,
    moving: bool,
    commit: Commit,
    last: Dialog,
)
    requires
        x.handles(dialog, Event::Expose { count }, r, new, shown),
        new.config.backbuffer.commits(shown, moving, commit, last),
    ensures
        shown == dialog,
        r.state == State::Continue,
        count > 0 ==> new == x && r.request == Request::Nothing,
        count == 0 ==> {
            &&& new.first_expose_received
            &&& new.config.backbuffer.visible
            &&& x.config.backbuffer.vsync_completed ==> commit.present is Some
            &&& r.request == (if x.config.grab_keyboard && !x.keyboard_grabbed {
                Request::GrabKeyboard
            } else {
                Request::Nothing
            })
            &&& new.xsel_in_progress == x.xsel_in_progress
            &&& new.keyboard_grabbed == x.keyboard_grabbed
            &&& new.config == (Config { backbuffer: new.config.backbuffer, ..x.config })
            &&& new.config.backbuffer == (Backbuffer {
                visible: true,
                dirty: new.config.backbuffer.dirty,
                ..x.config.backbuffer
            })
        },
{
    if count == 0 && x.config.backbuffer.vsync_completed {
        crate::backbuffer::lemma_exposed_is_shown_again(
            x.config.backbuffer,
            dialog,
            moving,
            commit,
            last,
        );
    }
}

/// A window that cannot be seen is neither painted nor handed a picture.
pub proof fn lemma_unmap_event(
    x: XContext,
    dialog: Dialog,
    r: Outcome,
    new: XContext,
    shown: Dialog,
    moving: bool,
    commit: Commit,
    last: Dialog,
)
    requires
        x.handles(dialog, Event::UnmapNotify, r, new, shown),
        new.config.backbuffer.commits(shown, moving, commit, last),
    ensures
        only_asks(r, Request::Nothing),
        shown == dialog,
        commit.painting is None && commit.present is None && !commit.animate,
        last == dialog,
        new.config.backbuffer == (Backbuffer { visible: false, ..x.config.backbuffer }),
{
}

/// A window that gets another size is painted for it when it is next painted; where the size is
/// the same nothing is done.
pub proof fn lemma_configure_event(
    x: XContext,
    dialog: Dialog,
    width: u16,
    height: u16,
    r: Outcome,
    new: XContext,
    shown: Dialog,
    moving: bool,
    commit: Commit,
    last: Dialog,
)
    requires
        x.handles(dialog, Event::ConfigureNotify { width, height }, r, new, shown),
        new.config.backbuffer.commits(shown, moving, commit, last),
    ensures
        only_asks(r, Request::Nothing),
        shown == dialog,
        new.config.width == width && new.config.height == height,
        x.config.width == width && x.config.height == height ==> new == x,
        x.config.width != width || x.config.height != height
            ==> new.config.backbuffer.resize_requested == Some((width, height)) && (
        x.config.backbuffer.visible && x.config.backbuffer.backbuffer_idle ==> (
        commit.painting matches Some(crate::backbuffer::Painting::Resize { width: w, height: h, .. }) && w == width
            && h == height)),
        new == (XContext {
            config: Config {
                width,
                height,
                backbuffer: Backbuffer {
                    resize_requested: new.config.backbuffer.resize_requested,
                    ..x.config.backbuffer
                },
                ..x.config
            },
            ..x
        }),
{
}

/// A selection that could be had is read, and one that could not be had leaves the way free to
/// ask again. A reply, whatever it holds, does so too, so that no more than one is waited for.
pub proof fn lemma_selection_event(
    x: XContext,
    dialog: Dialog,
    requestor: XId,
    property: XId,
    r: Outcome,
    new: XContext,
    shown: Dialog,
)
    requires
        x.handles(dialog, Event::SelectionNotify { requestor, property }, r, new, shown),
    ensures
        shown == dialog,
        property == 0 ==> only_asks(r, Request::Nothing) && new == (XContext {
            xsel_in_progress: false,
            ..x
        }),
        property != 0 ==> only_asks(r, Request::GetProperty { requestor, property }) && new == x,
        property == 0 ==> new.after_action(Action::PastePrimary).1.request is ConvertSelection,
{
}

/// A selection is entered just where it is text in UTF-8 that came in one part.
pub proof fn lemma_what_is_pasted(x: XContext, reply: SelectionReply)
    ensures
        x.selected(reply) == Selected::Pasted <==> reply.format == 8 && reply.type_
            != x.config.atoms.INCR && valid_utf8(reply.value@),
        x.selected(reply) == Selected::InvalidFormat <==> reply.format != 8,
        x.selected(reply) == Selected::TooBig <==> reply.format == 8 && reply.type_
            == x.config.atoms.INCR,
{
}

/// The indicator has the focus from when it comes until it goes. While the keyboard is grabbed
/// a loss of the focus is none. The keyboard is known to be grabbed from the event that tells
/// of it to the one that tells of its end.
pub proof fn lemma_focus_events(
    x: XContext,
    dialog: Dialog,
    mode: u8,
    r: Outcome,
    new: XContext,
    shown: Dialog,
    s: Outcome,
    later: XContext,
    last: Dialog,
)
    requires
        x.handles(dialog, Event::FocusIn { mode }, r, new, shown),
        x.handles(dialog, Event::FocusOut { mode }, s, later, last),
    ensures
        only_asks(r, Request::Nothing) && only_asks(s, Request::Nothing),
        shown.indicator.status().has_focus,
        mode == 1 || mode == 3 ==> last == dialog,
        mode != 1 && mode != 3 ==> !last.indicator.status().has_focus,
        new.keyboard_grabbed == (mode == 1 || (mode != 2 && x.keyboard_grabbed)),
        later.keyboard_grabbed == new.keyboard_grabbed,
        new == (XContext { keyboard_grabbed: new.keyboard_grabbed, ..x }) && later == new,
        shown == (Dialog { indicator: shown.indicator, ..dialog }),
        last == (Dialog { indicator: last.indicator, ..dialog }),
        shown.indicator.pass() == dialog.indicator.pass() && last.indicator.pass()
            == dialog.indicator.pass(),
{
    crate::dialog::indicator::lemma_focus(dialog.indicator.status(), true);
    crate::dialog::indicator::lemma_focus(dialog.indicator.status(), false);
    crate::dialog::laws::lemma_status_is_apart(
        dialog.indicator,
        dialog.indicator.status().with_focus(true),
    );
    crate::dialog::laws::lemma_status_is_apart(
        dialog.indicator,
        dialog.indicator.status().with_focus(false),
    );
}

/// The window manager closes the dialog, or is answered that it is alive, by messages of its
/// own protocol and form alone.
pub proof fn lemma_message_event(
    x: XContext,
    dialog: Dialog,
    type_: XId,
    format: u8,
    data: u32,
    r: Outcome,
    new: XContext,
    shown: Dialog,
)
    requires
        x.handles(dialog, Event::ClientMessage { type_, format, data }, r, new, shown),
    ensures
        new == x && shown == dialog,
        r.state == State::Cancelled <==> type_ == x.config.atoms.WM_PROTOCOLS && format == 32
            && data == x.config.atoms.WM_DELETE_WINDOW,
        r.state != State::Ready,
        r.request == Request::Nothing || r.request == (Request::Pong { root: x.config.root }),
        r.request is Pong <==> type_ == x.config.atoms.WM_PROTOCOLS && format == 32 && data
            == x.config.atoms.NET_WM_PING && data != x.config.atoms.WM_DELETE_WINDOW,
{
}

/// What the server tells of a frame changes only what is known of the picture: that it is free
/// where it is the last frame, and that the last frame has been shown.
pub proof fn lemma_frame_events(
    x: XContext,
    dialog: Dialog,
    serial: u32,
    r: Outcome,
    new: XContext,
    shown: Dialog,
    s: Outcome,
    later: XContext,
    last: Dialog,
)
    requires
        x.handles(dialog, Event::PresentIdleNotify { serial }, r, new, shown),
        x.handles(dialog, Event::PresentCompleteNotify { serial }, s, later, last),
    ensures
        only_asks(r, Request::Nothing) && only_asks(s, Request::Nothing),
        shown == dialog && last == dialog,
        new == (XContext {
            config: Config {
                backbuffer: Backbuffer {
                    backbuffer_idle: x.config.backbuffer.backbuffer_idle || serial
                        == x.config.backbuffer.serial,
                    ..x.config.backbuffer
                },
                ..x.config
            },
            ..x
        }),
        later == (XContext {
            config: Config {
                backbuffer: Backbuffer { vsync_completed: true, ..x.config.backbuffer },
                ..x.config
            },
            ..x
        }),
{
}

/// What changes at the keyboard is handed on to it, what changes of the compositor to the
/// background, and nothing else comes of that.
pub proof fn lemma_other_events(
    x: XContext,
    dialog: Dialog,
    event: Event,
    r: Outcome,
    new: XContext,
    shown: Dialog,
)
    requires
        x.handles(dialog, event, r, new, shown),
        event is XkbStateNotify || event is XkbNewKeyboardNotify || event is XkbMapNotify
            || event is XfixesSelectionNotify || event is Ignored,
    ensures
        new == x,
        r.state == State::Continue,
        r.request == (if event is XkbStateNotify {
            Request::UpdateMask
        } else if event is XkbNewKeyboardNotify || event is XkbMapNotify {
            Request::ReloadKeymap
        } else {
            Request::Nothing
        }),
        event is XfixesSelectionNotify ==> shown == dialog.with_transparency(
            event->subtype == 0,
        ),
        !(event is XfixesSelectionNotify) ==> shown == dialog,
{
}

/// Every key, and every button of the mouse on the screen, puts off the end for want of input
/// by its whole time; no other event does.
pub proof fn lemma_input_puts_off_the_end(
    x: XContext,
    dialog: Dialog,
    event: Event,
    r: Outcome,
    new: XContext,
    shown: Dialog,
)
    requires
        x.handles(dialog, event, r, new, shown),
    ensures
        shown.input_timeout_duration == dialog.input_timeout_duration,
        dialog.input_timeout_duration is Some && (event is KeyPress || (
        event matches Event::ButtonPress { same_screen, .. } && same_screen) || (
        event matches Event::ButtonRelease { same_screen, .. } && same_screen))
            ==> shown.input_timeout == dialog.input_timeout_duration,
        !(event is KeyPress) && !(event is ButtonPress) && !(event is ButtonRelease)
            ==> shown.input_timeout == dialog.input_timeout,
{
}

/// Requests are sent off when there are no more events, if there were any since they were last
/// sent off, and with the eleventh event that has come since, at the latest.
pub proof fn lemma_requests_are_sent(x: XContext)
    requires
        x.wf(),
    ensures
        x.x_unflushed_count <= 10,
        x.after_poll(false).must_flush(false) <==> x.x_unflushed_count > 0,
        x.after_poll(true).must_flush(true) <==> x.x_unflushed_count == 10,
        x.after_poll(true) == (XContext {
            x_unflushed_count: (x.x_unflushed_count + 1) as u32,
            ..x
        }),
        x.after_poll(false) == (XContext {
            xfd_eagain: true,
            xcb_events_queued_maybe: false,
            ..x
        }),
        x.spec_dirty() <==> x.xcb_events_queued_maybe || !x.xfd_eagain,
{
}

/// What was selected and fits goes in where the cursor is, and is shown to have been pasted;
/// what is not text changes nothing. Either way another selection can be asked for, and nothing
/// is left of what was read as text.
pub proof fn lemma_pasted_text(
    x: XContext,
    dialog: Dialog,
    reply: SelectionReply,
    r: Selected,
    new: XContext,
    shown: Dialog,
    left: Seq<u8>,
)
    requires
        dialog.wf(),
        dialog.indicator.can_insert(),
        x.pastes(dialog, reply, r, new, shown, left),
    ensures
        new == (XContext { xsel_in_progress: false, ..x }),
        ({
            let is_text = reply.format == 8 && reply.type_ != x.config.atoms.INCR && valid_utf8(
                reply.value@,
            );
            let text = decode_utf8(reply.value@);
            let pass = dialog.indicator.pass();
            let at = crate::dialog::laws::entry_point(dialog.indicator);
            &&& r == Selected::Pasted <==> is_text
            &&& is_text && pass.len() + text.len() <= 512 ==> {
                &&& shown.indicator.pass() == pass.take(at) + text + pass.skip(at)
                &&& crate::dialog::laws::entry_point(shown.indicator) == at + text.len()
            }
            &&& is_text && pass.len() < 512 && text.len() > 0
                ==> shown.indicator.status().show_selection_do && shown.indicator.status().dirty
            &&& !is_text ==> shown == dialog
        }),
        shown.buttons == dialog.buttons,
        shown.input_timeout == dialog.input_timeout,
        reply.format == 8 && reply.type_ != x.config.atoms.INCR ==> left.len() == 0,
        reply.format != 8 || reply.type_ == x.config.atoms.INCR ==> left == reply.value@,
{
    lemma_what_is_pasted(x, reply);
    if r == Selected::Pasted {
        let text = decode_utf8(reply.value@);
        crate::dialog::laws::lemma_insertion(dialog.indicator, text, true, shown.indicator);
        assert(text.take(text.len() as int) =~= text);
    }
}

/// A dialog gives a passphrase just where it was accepted, and that is the one that was entered:
/// the line that is written has all of it.
pub proof fn lemma_accepted_is_given(state: State, dialog: Dialog, r: Option<Passphrase>)
    requires
        state != State::Continue,
        gives(state, dialog, r),
    ensures
        r is Some <==> state == State::Ready,
        r matches Some(pass) ==> {
            &&& pass.0@ == dialog.indicator.pass()
            &&& crate::secret::line_of(pass.0@).last() == 10
            &&& decode_utf8(crate::secret::line_of(pass.0@).drop_last())
                == dialog.indicator.pass()
        },
{
    if let Some(pass) = r {
        crate::secret::lemma_line_is_read_back(pass.0@);
    }
}

/// A timer ends the dialog without a passphrase, or lets it go on.
pub proof fn lemma_timer_never_accepts(action: Action)
    ensures
        timed(action) == State::Cancelled <==> action == Action::Cancel,
        timed(action) != State::Ready,
{
}

} // verus!
