//! The passphrase dialog: its buttons, its indicator and how it answers to the user.
use vstd::prelude::*;
use vstd::utf8::*;

use crate::config::Rgba;
use crate::keyboard;
use crate::keyboard::{Compose, Composed, Keysym};
use crate::secret::{Passphrase, SecBuf};

use self::indicator::strings::{Direction, Hit, LogAttr, Pointer, TextState};
use self::indicator::{Base, Circle, Classic, Repaint, Status, Strings, Timer};
use self::layout::Layout;

pub mod indicator;
pub mod laws;
pub mod layout;

verus! {

/// What the user asks for.
#[derive(Clone, Copy, Debug, PartialEq, Eq, Structural)]
pub enum Action {
    Nothing,
    Accept,
    Cancel,
    PastePrimary,
    PasteClipboard,
    PlainText,
}

/// The indicator of a dialog.
pub enum Indicator {
    Strings(Strings),
    Circle(Circle),
    Classic(Classic),
}

impl Indicator {
    /// What the indicator has in common with the others.
    pub open spec fn base(self) -> Base {
        match self {
            Indicator::Strings(i) => i.base,
            Indicator::Circle(i) => i.base,
            Indicator::Classic(i) => i.base,
        }
    }

    /// The state of the picture and of the cursor.
    pub open spec fn status(self) -> Status {
        self.base().status
    }

    /// The passphrase.
    pub open spec fn pass(self) -> Seq<char> {
        self.base().pass@
    }

    /// The indicator is in order.
    pub open spec fn wf(self) -> bool {
        match self {
            Indicator::Strings(i) => i.wf(),
            Indicator::Circle(i) => i.wf(),
            Indicator::Classic(i) => i.wf(),
        }
    }

    /// The same indicator with another state of the picture and of the cursor.
    pub open spec fn with_status(self, status: Status) -> Indicator {
        match self {
            Indicator::Strings(i) => Indicator::Strings(
                Strings { base: Base { status, ..i.base }, ..i },
            ),
            Indicator::Circle(i) => Indicator::Circle(
                Circle { base: Base { status, ..i.base }, ..i },
            ),
            Indicator::Classic(i) => Indicator::Classic(
                Classic { base: Base { status, ..i.base }, ..i },
            ),
        }
    }

    /// The same row with another passphrase.
    pub open spec fn same_row(a: Classic, b: Classic) -> bool {
        &&& a.min_count == b.min_count
        &&& a.max_count == b.max_count
        &&& a.indicators == b.indicators
    }

    /// The characters of `s` are entered, as many as there is room for.
    pub open spec fn inserts(self, s: Seq<char>, pasted: bool, new: Indicator) -> bool {
        match (self, new) {
            (Indicator::Strings(a), Indicator::Strings(b)) => a.inserts(s, pasted, b),
            (Indicator::Circle(a), Indicator::Circle(b)) => a.turns_to(b) && a.base.inserts(
                s,
                pasted,
                b.base,
            ),
            (Indicator::Classic(a), Indicator::Classic(b)) => Self::same_row(a, b)
                && a.base.inserts(s, pasted, b.base),
            _ => false,
        }
    }

    /// The whole passphrase is deleted.
    pub open spec fn clears(self, new: Indicator) -> bool {
        match (self, new) {
            (Indicator::Strings(a), Indicator::Strings(b)) => a.clears(b),
            (Indicator::Circle(a), Indicator::Circle(b)) => a.turns_to(b) && a.base.clears(b.base),
            (Indicator::Classic(a), Indicator::Classic(b)) => Self::same_row(a, b)
                && a.base.clears(b.base),
            _ => false,
        }
    }

    /// What is before the cursor is deleted, or the last character where there is none.
    pub open spec fn deletes(self, attrs: Seq<LogAttr>, new: Indicator) -> bool {
        match (self, new) {
            (Indicator::Strings(a), Indicator::Strings(b)) => a.deletes(attrs, b),
            (Indicator::Circle(a), Indicator::Circle(b)) => a.turns_to(b) && a.base.deletes(b.base),
            (Indicator::Classic(a), Indicator::Classic(b)) => Self::same_row(a, b)
                && a.base.deletes(b.base),
            _ => false,
        }
    }

    /// Text can be entered: a cursor, where there is one, stands within the passphrase.
    pub open spec fn can_insert(self) -> bool {
        self matches Indicator::Strings(i) ==> i.state.cursor <= i.base.pass.len
    }

    /// The pointer to show where the mouse comes over the indicator or leaves it.
    pub open spec fn pointer_for(self, hover: bool) -> Option<Pointer> {
        match self {
            Indicator::Strings(i) => if !i.movable() || hover == i.state.hover {
                None
            } else if hover {
                Some(Pointer::Input)
            } else {
                Some(Pointer::Default)
            },
            _ => None,
        }
    }

    /// The indicator with the mouse over it, or not.
    pub open spec fn with_hover(self, hover: bool) -> Indicator {
        match self {
            Indicator::Strings(i) => if i.movable() {
                Indicator::Strings(Strings { state: TextState { hover, ..i.state }, ..i })
            } else {
                self
            },
            _ => self,
        }
    }

    /// The mouse is over the indicator, or not. The pointer to show from now on, where it
    /// changes.
    pub fn set_hover(&mut self, hover: bool) -> (r: Option<Pointer>)
        ensures
            *final(self) == old(self).with_hover(hover),
            r == old(self).pointer_for(hover),
    {
        match self {
            Indicator::Strings(i) => i.set_hover(hover),
            Indicator::Circle(_) | Indicator::Classic(_) => None,
        }
    }

    /// Whether the mouse counts as over the indicator when it is within its box.
    pub fn is_inside(&self, within: bool) -> (r: bool)
        ensures
            r == (self is Strings && within),
    {
        match self {
            Indicator::Strings(_) => within,
            Indicator::Circle(_) | Indicator::Classic(_) => false,
        }
    }

    /// The indicator after a timer has fired.
    pub open spec fn with_timer(self, timer: Timer) -> Indicator {
        match timer {
            Timer::Blink => self.with_status(self.status().with_blink()),
            Timer::ShowSelection => match self.with_status(
                Status { show_selection_do: false, dirty: true, ..self.status() },
            ) {
                Indicator::Strings(i) => Indicator::Strings(
                    Strings { state: i.with_new_text(i.state), ..i },
                ),
                other => other,
            },
        }
    }

    /// A timer that was waited for has fired.
    pub fn handle_events(&mut self, timer: Timer)
        requires
            old(self).wf(),
            old(self).base().spec_awaits(timer),
        ensures
            final(self).wf(),
            *final(self) == old(self).with_timer(timer),
    {
        match self {
            Indicator::Strings(i) => i.handle_events(timer),
            Indicator::Circle(i) => i.base.handle_events(timer),
            Indicator::Classic(i) => i.base.handle_events(timer),
        }
    }

    /// Enters the characters of `s`, as many as there is room for.
    pub fn pass_insert(&mut self, s: &str, pasted: bool)
        requires
            old(self).wf(),
            old(self).can_insert(),
        ensures
            final(self).wf(),
            old(self).inserts(s@, pasted, *final(self)),
    {
        match self {
            Indicator::Strings(i) => i.pass_insert(s, pasted),
            Indicator::Circle(i) => i.pass_insert(s, pasted),
            Indicator::Classic(i) => i.base.pass_insert(s, pasted),
        }
    }

    /// Deletes the whole passphrase.
    pub fn pass_clear(&mut self)
        requires
            old(self).wf(),
        ensures
            final(self).wf(),
            old(self).clears(*final(self)),
    {
        match self {
            Indicator::Strings(i) => i.pass_clear(),
            Indicator::Circle(i) => i.pass_clear(),
            Indicator::Classic(i) => i.base.pass_clear(),
        }
    }

    /// Deletes what is before the cursor, as `attrs` say of the text that is shown, or the
    /// last character where there is no cursor.
    pub fn pass_delete(&mut self, attrs: &[LogAttr])
        requires
            old(self).wf(),
            *old(self) matches Indicator::Strings(i) ==> i.can_delete(attrs@),
        ensures
            final(self).wf(),
            old(self).deletes(attrs@, *final(self)),
    {
        match self {
            Indicator::Strings(i) => i.pass_delete(attrs),
            Indicator::Circle(i) => i.pass_delete(),
            Indicator::Classic(i) => i.base.pass_delete(),
        }
    }
}

impl Indicator {
    /// The cursor moves to where the text has it, where there is a cursor that can move.
    pub open spec fn moves(
        self,
        idx: i32,
        trailing: i32,
        text: Seq<char>,
        new: Indicator,
    ) -> bool {
        match (self, new) {
            (Indicator::Strings(a), Indicator::Strings(b)) => a.moves(idx, trailing, text, b),
            (Indicator::Strings(_), _) => false,
            _ => new == self,
        }
    }

    /// Moves the cursor to where the text has it, where there is a cursor that can move.
    pub fn move_visually(&mut self, idx: i32, trailing: i32, text: &str)
        requires
            old(self).wf(),
            *old(self) matches Indicator::Strings(i) ==> i.can_move(idx, trailing, text@),
        ensures
            final(self).wf(),
            old(self).moves(idx, trailing, text@, *final(self)),
    {
        match self {
            Indicator::Strings(i) => i.move_cursor(idx, trailing, text),
            Indicator::Circle(_) | Indicator::Classic(_) => {},
        }
    }

    /// Whether a click puts the cursor somewhere.
    pub open spec fn takes_click(self, hit: Hit) -> bool {
        self matches Indicator::Strings(i) && i.movable() && hit is Place
    }

    /// The indicator after a click.
    pub open spec fn with_click(self, hit: Hit) -> Indicator {
        match self {
            Indicator::Strings(i) if self.takes_click(hit) => Indicator::Strings(
                Strings {
                    base: Base {
                        status: i.base.status.with_key_pressed().with_change(),
                        ..i.base
                    },
                    state: TextState { cursor: hit->Place_0, ..i.state },
                    ..i
                },
            ),
            _ => self,
        }
    }

    /// A click on the indicator beside its text comes only where there is no text.
    pub open spec fn hit_ok(self, hit: Hit) -> bool {
        self matches Indicator::Strings(i) ==> i.movable() && hit == Hit::Beside
            ==> i.base.pass.len == 0
    }

    /// Puts the cursor where a click fell, and returns whether that was on the text.
    pub fn set_cursor(&mut self, hit: Hit) -> (r: bool)
        requires
            old(self).wf(),
            old(self).hit_ok(hit),
        ensures
            final(self).wf(),
            r == old(self).takes_click(hit),
            *final(self) == old(self).with_click(hit),
    {
        match self {
            Indicator::Strings(i) => i.set_cursor(hit),
            Indicator::Circle(_) | Indicator::Classic(_) => false,
        }
    }

    /// Whether the passphrase can be shown in plain text.
    pub fn has_plaintext(&self) -> (r: bool)
        ensures
            r == self is Strings,
    {
        match self {
            Indicator::Strings(_) => true,
            Indicator::Circle(_) | Indicator::Classic(_) => false,
        }
    }

    /// Shows the passphrase, or what stands for it.
    pub fn toggle_plaintext(&mut self)
        requires
            old(self).wf(),
            *old(self) is Strings,
        ensures
            final(self).wf(),
            *final(self) is Strings,
            old(self)->Strings_0.toggles(final(self)->Strings_0),
    {
        match self {
            Indicator::Strings(i) => i.toggle_plaintext(),
            Indicator::Circle(_) | Indicator::Classic(_) => {},
        }
    }

    /// The passphrase that was entered.
    pub fn into_pass(self) -> (r: Passphrase)
        ensures
            r.0 == self.base().pass,
    {
        match self {
            Indicator::Strings(i) => i.into_pass(),
            Indicator::Circle(i) => i.into_pass(),
            Indicator::Classic(i) => i.into_pass(),
        }
    }

    /// The indicator after everything has been painted.
    pub open spec fn painted(self) -> Indicator {
        match self.with_status(Status { dirty: false, dirty_blink: false, ..self.status() }) {
            Indicator::Circle(i) => Indicator::Circle(Circle { paint_pending: false, ..i }),
            other => other,
        }
    }

    /// Everything has been painted.
    pub fn set_painted(&mut self)
        requires
            old(self).wf(),
        ensures
            final(self).wf(),
            *final(self) == old(self).painted(),
    {
        match self {
            Indicator::Strings(i) => i.base.set_painted(),
            Indicator::Circle(i) => i.set_painted(),
            Indicator::Classic(i) => i.base.set_painted(),
        }
    }

    /// The indicator after a frame has been handed over, where a ring is `moving`.
    pub open spec fn with_next_frame(self, moving: bool) -> Indicator {
        match self {
            Indicator::Circle(i) => if moving {
                Indicator::Circle(
                    Circle {
                        base: Base { status: i.base.status.with_change(), ..i.base },
                        paint_pending: true,
                        ..i
                    },
                )
            } else {
                Indicator::Circle(Circle { paint_pending: false, ..i })
            },
            _ => self,
        }
    }

    /// A frame has been handed over. Whether the next step of the turning is to be made,
    /// where a ring is `moving`.
    pub fn set_next_frame(&mut self, moving: bool) -> (r: bool)
        requires
            old(self).wf(),
            *old(self) is Circle ==> !old(self).status().dirty && !old(self).status().dirty_blink,
        ensures
            final(self).wf(),
            r == (*old(self) is Circle && moving),
            *final(self) == old(self).with_next_frame(moving),
    {
        match self {
            Indicator::Strings(_) | Indicator::Classic(_) => false,
            Indicator::Circle(i) => i.set_next_frame(moving),
        }
    }

    /// What has to be painted.
    pub fn repaint(&self) -> (r: Repaint)
        requires
            self.wf(),
        ensures
            r == indicator::repaint_of(self.status()),
    {
        match self {
            Indicator::Strings(i) => i.repaint(),
            Indicator::Circle(i) => i.repaint(),
            Indicator::Classic(i) => i.repaint(),
        }
    }

    /// Whether anything has to be painted.
    pub fn dirty(&self) -> (r: bool)
        ensures
            r == (self.status().dirty || self.status().dirty_blink),
    {
        match self {
            Indicator::Strings(i) => i.base.dirty(),
            Indicator::Circle(i) => i.base.dirty(),
            Indicator::Classic(i) => i.base.dirty(),
        }
    }

    /// Whether any timer is waited for.
    pub fn requests_events(&self) -> (r: bool)
        ensures
            r == (self.status().blink_do || self.status().show_selection_do),
    {
        match self {
            Indicator::Strings(i) => i.base.requests_events(),
            Indicator::Circle(i) => i.base.requests_events(),
            Indicator::Classic(i) => i.base.requests_events(),
        }
    }

    /// Whether `timer` is waited for.
    pub fn awaits(&self, timer: Timer) -> (r: bool)
        ensures
            r == self.base().spec_awaits(timer),
    {
        match self {
            Indicator::Strings(i) => i.base.awaits(timer),
            Indicator::Circle(i) => i.base.awaits(timer),
            Indicator::Classic(i) => i.base.awaits(timer),
        }
    }

    /// The focus has come or gone.
    pub fn set_focused(&mut self, is_focused: bool)
        requires
            old(self).wf(),
        ensures
            final(self).wf(),
            *final(self) == old(self).with_status(old(self).status().with_focus(is_focused)),
    {
        match self {
            Indicator::Strings(i) => i.base.set_focused(is_focused),
            Indicator::Circle(i) => i.base.set_focused(is_focused),
            Indicator::Classic(i) => i.base.set_focused(is_focused),
        }
    }

    /// Starts the blinking when events are handled for the first time.
    pub fn init_timeouts(&mut self)
        requires
            old(self).wf(),
        ensures
            final(self).wf(),
            *final(self) == (if old(self).status().blink_do {
                old(self).with_status(old(self).status().with_blink_reset())
            } else {
                *old(self)
            }),
    {
        match self {
            Indicator::Strings(i) => i.base.init_timeouts(),
            Indicator::Circle(i) => i.base.init_timeouts(),
            Indicator::Classic(i) => i.base.init_timeouts(),
        }
    }

    /// The times for which the timers are to be set now.
    pub fn take_timeouts(&mut self) -> (r: (Option<u64>, Option<u64>))
        requires
            old(self).wf(),
        ensures
            final(self).wf(),
            r == (old(self).status().blink_timeout, old(self).status().show_selection_timeout),
            *final(self) == old(self).with_status(
                Status {
                    blink_timeout: None,
                    show_selection_timeout: None,
                    ..old(self).status()
                },
            ),
    {
        match self {
            Indicator::Strings(i) => i.base.take_timeouts(),
            Indicator::Circle(i) => i.base.take_timeouts(),
            Indicator::Classic(i) => i.base.take_timeouts(),
        }
    }
}

/// What the width of an indicator follows from.
pub enum Sizing {
    /// It is always the same.
    Fixed,
    /// From the number of elements.
    Elements(u16),
    /// From the widest of these texts.
    Texts(Vec<String>),
}

impl Indicator {
    /// The number of elements does not pass what can be counted.
    pub open spec fn can_size(self, wanted: u16) -> bool {
        self matches Indicator::Classic(i) ==> i.indicators + indicator::clamped(
            wanted,
            i.min_count,
            i.max_count,
        ) <= usize::MAX
    }

    /// `r` is what the width follows from, with the indicator `new` after it.
    pub open spec fn sizes(self, wanted: u16, r: Sizing, new: Indicator) -> bool {
        match (self, new) {
            (Indicator::Strings(a), Indicator::Strings(b)) => {
                &&& r is Texts
                &&& b.base == a.base
                &&& b.state == a.state
                &&& a.strings.sizes(wanted, r->Texts_0@, b.strings)
            },
            (Indicator::Circle(_), _) => r is Fixed && new == self,
            (Indicator::Classic(a), Indicator::Classic(b)) => {
                let count = indicator::clamped(wanted, a.min_count, a.max_count);
                &&& r == Sizing::Elements(count)
                &&& b == (Classic { indicators: (a.indicators + count) as usize, ..a })
            },
            _ => false,
        }
    }

    /// Fits the indicator to a width in which `wanted` of its elements have room.
    pub fn for_width(&mut self, wanted: u16) -> (r: Sizing)
        requires
            old(self).wf(),
            old(self).can_size(wanted),
        ensures
            final(self).wf(),
            old(self).sizes(wanted, r, *final(self)),
    {
        match self {
            Indicator::Strings(i) => Sizing::Texts(i.strings.for_width(wanted)),
            Indicator::Circle(_) => Sizing::Fixed,
            Indicator::Classic(i) => Sizing::Elements(i.for_width(wanted)),
        }
    }
}

/// The colours in which a button is painted.
#[derive(Clone, Copy, Debug, PartialEq, Eq, Structural)]
pub enum Face {
    Normal,
    Hover,
    Pressed,
}

/// The state of a button.
#[derive(Clone, Copy, Debug, PartialEq, Eq, Structural)]
pub struct Button {
    pub pressed: bool,
    pub hover: bool,
    pub dirty: bool,
    pub toggled: bool,
}

impl Button {
    /// A button that has not been painted yet.
    pub fn new() -> (r: Button)
        ensures
            r == (Button { pressed: false, hover: false, dirty: true, toggled: false }),
    {
        Button { pressed: false, hover: false, dirty: true, toggled: false }
    }

    /// The button with the mouse over it, or not.
    pub open spec fn with_hover(self, hover: bool) -> Button {
        Button { hover, dirty: self.dirty || self.hover != hover, ..self }
    }

    /// The button held down, or not.
    pub open spec fn with_pressed(self, pressed: bool) -> Button {
        Button { pressed, dirty: self.dirty || self.pressed != pressed, ..self }
    }

    /// Switches the button on or off.
    pub fn toggle(&mut self)
        ensures
            *final(self) == (Button { toggled: !old(self).toggled, dirty: true, ..*old(self) }),
    {
        self.toggled = !self.toggled;
        self.dirty = true;
    }

    /// The mouse is over the button, or not.
    pub fn set_hover(&mut self, hover: bool)
        ensures
            *final(self) == old(self).with_hover(hover),
    {
        self.dirty = self.dirty || self.hover != hover;
        self.hover = hover;
    }

    /// The button is held down, or not.
    pub fn set_pressed(&mut self, pressed: bool)
        ensures
            *final(self) == old(self).with_pressed(pressed),
    {
        self.dirty = self.dirty || self.pressed != pressed;
        self.pressed = pressed;
    }

    /// The button has been painted.
    pub fn set_painted(&mut self)
        ensures
            *final(self) == (Button { dirty: false, ..*old(self) }),
    {
        self.dirty = false;
    }

    /// The colours of the button. A button that is held down while the mouse is elsewhere
    /// looks as if it were not.
    pub open spec fn face(self) -> Face {
        if self.pressed && self.hover {
            Face::Pressed
        } else if self.hover {
            Face::Hover
        } else if self.toggled {
            Face::Pressed
        } else {
            Face::Normal
        }
    }

    /// How the button is painted: in which colours, and whether its label is shifted.
    pub fn paint(&self) -> (r: (Face, bool))
        ensures
            r == (self.face(), self.pressed && self.hover),
    {
        let face = if self.pressed && self.hover {
            Face::Pressed
        } else if self.hover {
            Face::Hover
        } else if self.toggled {
            Face::Pressed
        } else {
            Face::Normal
        };
        (face, self.pressed && self.hover)
    }
}

/// What the buttons are for, in their order.
pub open spec fn action_of(i: int) -> Action {
    if i == 0 {
        Action::Accept
    } else if i == 1 {
        Action::Cancel
    } else if i == 2 {
        Action::PasteClipboard
    } else {
        Action::PlainText
    }
}

/// What the button `i` is for.
pub fn button_action(i: usize) -> (r: Action)
    requires
        i < 4,
    ensures
        r == action_of(i as int),
{
    if i == 0 {
        Action::Accept
    } else if i == 1 {
        Action::Cancel
    } else if i == 2 {
        Action::PasteClipboard
    } else {
        Action::PlainText
    }
}

/// `i` is the first place at which `flags` is set.
pub open spec fn first_set(flags: Seq<bool>, i: int) -> bool {
    &&& 0 <= i < flags.len()
    &&& flags[i]
    &&& forall|j: int| 0 <= j < i ==> !#[trigger] flags[j]
}

/// `flags` is set nowhere.
pub open spec fn none_set(flags: Seq<bool>) -> bool {
    forall|j: int| 0 <= j < flags.len() ==> !#[trigger] flags[j]
}

/// Which of `buttons` are held down.
pub open spec fn held(buttons: Seq<Button>) -> Seq<bool> {
    Seq::new(buttons.len(), |i: int| buttons[i].pressed)
}

/// The first place at which `flags` is set.
fn find_first(flags: &[bool]) -> (r: Option<usize>)
    ensures
        match r {
            Some(i) => first_set(flags@, i as int),
            None => none_set(flags@),
        },
{
    for i in 0..flags.len()
        invariant
            forall|j: int| 0 <= j < i ==> !#[trigger] flags@[j],
    {
        if flags[i] {
            return Some(i);
        }
    }
    None
}

/// The dialog.
pub struct Dialog {
    pub background: Rgba,
    pub background_original: Rgba,
    pub buttons: Vec<Button>,
    pub indicator: Indicator,
    pub mouse_middle_pressed: bool,
    /// The seconds without input after which the dialog is cancelled.
    pub input_timeout_duration: Option<u64>,
    /// The timer for that has been started.
    pub input_timeout_started: bool,
    /// The seconds after which that timer is to fire, counted from now, until it has been set.
    pub input_timeout: Option<u64>,
    pub uses_cursor: bool,
    pub button_pressed: bool,
    pub transparency: bool,
    pub dirty: bool,
}

/// What has to be painted of a dialog.
pub enum Paint {
    /// The background and everything on it.
    Everything,
    /// The indicator, and those of the buttons that are marked.
    Parts { indicator: Repaint, buttons: Vec<bool> },
}

/// Where a mouse event falls.
pub struct Place {
    /// For each button, whether it is on it.
    pub buttons: Vec<bool>,
    /// Whether it is within the box of the indicator.
    pub indicator: bool,
    /// Whether it is within the dialog.
    pub dialog: bool,
    /// Where on the text of the indicator it is.
    pub hit: Hit,
}

/// The left button of the mouse.
pub const MOUSE_LEFT: u8 = 1;

/// The middle button of the mouse.
pub const MOUSE_MIDDLE: u8 = 2;

impl Dialog {
    /// There are buttons to accept and to cancel. Only an indicator that can show plain
    /// text has a button for it.
    pub open spec fn wf(self) -> bool {
        &&& self.indicator.wf()
        &&& 2 <= self.buttons@.len() <= 4
        &&& self.buttons@.len() == 4 ==> self.indicator is Strings
    }

    /// The timer for input is running where there is one.
    pub open spec fn started(self) -> bool {
        self.input_timeout_duration is Some ==> self.input_timeout_started
    }

    /// All but the buttons and the indicator is the same.
    pub open spec fn same_frame(self, other: Dialog) -> bool {
        &&& self.background == other.background
        &&& self.background_original == other.background_original
        &&& self.mouse_middle_pressed == other.mouse_middle_pressed
        &&& self.input_timeout_duration == other.input_timeout_duration
        &&& self.input_timeout_started == other.input_timeout_started
        &&& self.input_timeout == other.input_timeout
        &&& self.uses_cursor == other.uses_cursor
        &&& self.button_pressed == other.button_pressed
        &&& self.transparency == other.transparency
        &&& self.dirty == other.dirty
    }

    /// Makes the dialog see-through as it was configured, or opaque.
    pub fn set_transparency(&mut self, enable: bool)
        ensures
            *final(self) == old(self).with_transparency(enable),
    {
        if self.transparency == enable {
            return;
        }
        if self.background_original.alpha == u8::MAX {
            return;
        }
        self.dirty = true;
        self.transparency = enable;
        if enable {
            self.background = self.background_original;
        } else {
            let mut background = self.background_original;
            background.alpha = u8::MAX;
            self.background = background;
        }
    }

    /// The dialog see-through or opaque. One that was configured opaque stays so.
    pub open spec fn with_transparency(self, enable: bool) -> Dialog {
        if self.transparency == enable || self.background_original.alpha == 255 {
            self
        } else {
            Dialog {
                dirty: true,
                transparency: enable,
                background: if enable {
                    self.background_original
                } else {
                    Rgba { alpha: 255, ..self.background_original }
                },
                ..self
            }
        }
    }

    /// A frame has been handed over. Whether the next step of the turning is to be made,
    /// where the indicator is `moving`.
    pub fn set_next_frame(&mut self, moving: bool) -> (r: bool)
        requires
            old(self).wf(),
            old(self).indicator is Circle ==> !old(self).indicator.status().dirty && !old(
                self,
            ).indicator.status().dirty_blink,
        ensures
            final(self).wf(),
            r == (old(self).indicator is Circle && moving),
            *final(self) == (Dialog {
                indicator: old(self).indicator.with_next_frame(moving),
                ..*old(self)
            }),
    {
        self.indicator.set_next_frame(moving)
    }

    /// Nothing on the dialog has to be painted.
    pub open spec fn is_painted(self) -> bool {
        &&& !self.dirty
        &&& !self.indicator.status().dirty
        &&& !self.indicator.status().dirty_blink
        &&& forall|i: int| 0 <= i < self.buttons@.len() ==> !(#[trigger] self.buttons@[i]).dirty
    }

    /// Everything is painted, and nothing else is changed.
    pub open spec fn paints(self, new: Dialog) -> bool {
        &&& new.same_frame(Dialog { dirty: false, ..self })
        &&& new.indicator == self.indicator.painted()
        &&& new.buttons@.len() == self.buttons@.len()
        &&& forall|i: int|
            0 <= i < self.buttons@.len() ==> #[trigger] new.buttons@[i] == (Button {
                dirty: false,
                ..self.buttons@[i]
            })
    }

    /// Everything has been painted.
    pub fn set_painted(&mut self)
        requires
            old(self).wf(),
        ensures
            final(self).wf(),
            old(self).paints(*final(self)),
            final(self).is_painted(),
    {
        self.indicator.set_painted();
        let n: usize = self.buttons.len();
        for i in 0..n
            invariant
                n == self.buttons@.len() == old(self).buttons@.len(),
                self.same_frame(*old(self)),
                self.indicator == old(self).indicator.painted(),
                forall|j: int|
                    0 <= j < i ==> #[trigger] self.buttons@[j] == (Button {
                        dirty: false,
                        ..old(self).buttons@[j]
                    }),
                forall|j: int| i <= j < n ==> #[trigger] self.buttons@[j] == old(self).buttons@[j],
        {
            self.buttons[i].set_painted();
        }
        self.dirty = false;
    }

    /// Whether anything has to be painted.
    pub fn dirty(&self) -> (r: bool)
        ensures
            r == !self.is_painted(),
    {
        if self.indicator.dirty() {
            return true;
        }
        for i in 0..self.buttons.len()
            invariant
                forall|j: int| 0 <= j < i ==> !(#[trigger] self.buttons@[j]).dirty,
        {
            if self.buttons[i].dirty {
                return true;
            }
        }
        self.dirty
    }

    /// `paint` is what has to be painted of the dialog.
    pub open spec fn needs(self, paint: Paint) -> bool {
        match paint {
            Paint::Everything => self.dirty,
            Paint::Parts { indicator, buttons } => {
                &&& !self.dirty
                &&& indicator == indicator::repaint_of(self.indicator.status())
                &&& buttons@.len() == self.buttons@.len()
                &&& forall|i: int|
                    0 <= i < buttons@.len() ==> #[trigger] buttons@[i] == self.buttons@[i].dirty
            },
        }
    }

    /// What has to be painted.
    pub fn repaint(&self) -> (r: Paint)
        requires
            self.wf(),
        ensures
            self.needs(r),
    {
        if self.dirty {
            return Paint::Everything;
        }
        let mut buttons: Vec<bool> = Vec::new();
        for i in 0..self.buttons.len()
            invariant
                buttons@.len() == i,
                forall|j: int| 0 <= j < i ==> #[trigger] buttons@[j] == self.buttons@[j].dirty,
        {
            buttons.push(self.buttons[i].dirty);
        }
        Paint::Parts { indicator: self.indicator.repaint(), buttons }
    }
}

impl Dialog {
    /// A dialog with the buttons of its arrangement, not painted yet.
    pub fn new(
        layout: Layout,
        indicator: Indicator,
        background: Rgba,
        input_timeout_duration: Option<u64>,
    ) -> (r: Dialog)
        requires
            indicator.wf(),
        ensures
            r.wf(),
            r.buttons@.len() == layout::button_count(layout.spec_parts(indicator)),
            forall|i: int|
                0 <= i < r.buttons@.len() ==> #[trigger] r.buttons@[i] == (Button {
                    pressed: false,
                    hover: false,
                    dirty: true,
                    toggled: false,
                }),
            r == (Dialog {
                background,
                background_original: background,
                buttons: r.buttons,
                indicator,
                mouse_middle_pressed: false,
                input_timeout_duration,
                input_timeout_started: false,
                input_timeout: None,
                uses_cursor: indicator is Strings,
                button_pressed: false,
                transparency: true,
                dirty: false,
            }),
    {
        let parts = layout.parts(&indicator);
        let mut buttons = vec![Button::new(), Button::new()];
        if parts.clipboard_button {
            buttons.push(Button::new());
        }
        if parts.plaintext_button {
            buttons.push(Button::new());
        }
        let uses_cursor = indicator.has_plaintext();
        Dialog {
            background,
            background_original: background,
            buttons,
            indicator,
            mouse_middle_pressed: false,
            input_timeout_duration,
            input_timeout_started: false,
            input_timeout: None,
            uses_cursor,
            button_pressed: false,
            transparency: true,
            dirty: false,
        }
    }

    /// The dialog after its timers have been started.
    pub open spec fn with_timers(self) -> Dialog {
        Dialog {
            indicator: if self.indicator.status().blink_do {
                self.indicator.with_status(self.indicator.status().with_blink_reset())
            } else {
                self.indicator
            },
            input_timeout_started: true,
            input_timeout: Some(
                match self.input_timeout_duration {
                    Some(seconds) => seconds,
                    None => 0,
                },
            ),
            ..self
        }
    }

    /// Starts the timers when events are handled for the first time.
    pub fn init_events(&mut self)
        requires
            old(self).wf(),
        ensures
            final(self).wf(),
            final(self).started(),
            *final(self) == (Dialog {
                indicator: if old(self).indicator.status().blink_do {
                    old(self).indicator.with_status(
                        old(self).indicator.status().with_blink_reset(),
                    )
                } else {
                    old(self).indicator
                },
                input_timeout_started: true,
                input_timeout: Some(
                    match old(self).input_timeout_duration {
                        Some(seconds) => seconds,
                        None => 0,
                    },
                ),
                ..*old(self)
            }),
            *final(self) == old(self).with_timers(),
    {
        self.indicator.init_timeouts();
        self.input_timeout_started = true;
        self.input_timeout = Some(
            match self.input_timeout_duration {
                Some(seconds) => seconds,
                None => 0,
            },
        );
    }

    /// Whether the dialog is cancelled when the timer for input fires.
    pub fn awaits_input_timeout(&self) -> (r: bool)
        ensures
            r == self.input_timeout_duration is Some,
    {
        self.input_timeout_duration.is_some()
    }

    /// `r` comes of a timer that has fired, with the dialog `new` after it.
    pub open spec fn times_out(self, timer: Option<Timer>, r: Action, new: Dialog) -> bool {
        match timer {
            None => r == Action::Cancel && new == self,
            Some(timer) => {
                &&& r == Action::Nothing
                &&& new == (Dialog { indicator: self.indicator.with_timer(timer), ..self })
            },
        }
    }

    /// A timer has fired: that for input, or one of the indicator.
    pub fn handle_events(&mut self, timer: Option<Timer>) -> (r: Action)
        requires
            old(self).wf(),
            timer matches Some(t) ==> old(self).indicator.base().spec_awaits(t),
            timer is None ==> old(self).input_timeout_duration is Some,
        ensures
            final(self).wf(),
            match timer {
                None => r == Action::Cancel && *final(self) == *old(self),
                Some(timer) => r == Action::Nothing && *final(self) == (Dialog {
                    indicator: old(self).indicator.with_timer(timer),
                    ..*old(self)
                }),
            },
            old(self).times_out(timer, r, *final(self)),
    {
        match timer {
            None => Action::Cancel,
            Some(timer) => {
                self.indicator.handle_events(timer);
                Action::Nothing
            },
        }
    }

    /// The dialog after input: the timer for it starts anew.
    pub open spec fn with_input(self) -> Dialog {
        if self.input_timeout_duration is Some {
            Dialog { input_timeout: self.input_timeout_duration, ..self }
        } else {
            self
        }
    }

    fn reset_input_timeout(&mut self)
        requires
            old(self).started(),
        ensures
            *final(self) == old(self).with_input(),
    {
        if self.input_timeout_duration.is_some() {
            self.input_timeout = self.input_timeout_duration;
        }
    }

    /// The time for which the timer for input is to be set now.
    pub fn take_input_timeout(&mut self) -> (r: Option<u64>)
        ensures
            r == old(self).input_timeout,
            *final(self) == (Dialog { input_timeout: None, ..*old(self) }),
    {
        let r = self.input_timeout;
        self.input_timeout = None;
        r
    }

    /// Whether the button `i` shows that the mouse is over it when the mouse is on the
    /// buttons `inside`: it is the first of them, and no other button is held down.
    pub open spec fn hovers(self, inside: Seq<bool>, i: int) -> bool {
        first_set(inside, i) && self.button_pressed == self.buttons@[i].pressed
    }

    /// The pointer to show after the mouse has moved, with the dialog `new` after it.
    pub open spec fn handles_motion(
        self,
        place: Place,
        r: Option<Pointer>,
        new: Dialog,
    ) -> bool {
        let over = none_set(place.buttons@) && self.indicator is Strings && place.indicator;
        &&& new.same_frame(self)
        &&& new.buttons@.len() == self.buttons@.len()
        &&& forall|i: int|
            0 <= i < self.buttons@.len() ==> #[trigger] new.buttons@[i]
                == self.buttons@[i].with_hover(self.hovers(place.buttons@, i))
        &&& r == self.indicator.pointer_for(over)
        &&& new.indicator == self.indicator.with_hover(over)
    }

    /// The mouse has moved. The pointer to show from now on, where it changes.
    pub fn handle_motion(&mut self, place: &Place) -> (r: Option<Pointer>)
        requires
            old(self).wf(),
            place.buttons@.len() == old(self).buttons@.len(),
        ensures
            final(self).wf(),
            old(self).handles_motion(*place, r, *final(self)),
    {
        let mut found = false;
        let n: usize = self.buttons.len();
        for i in 0..n
            invariant
                n == self.buttons@.len() == old(self).buttons@.len() == place.buttons@.len(),
                self.same_frame(*old(self)),
                self.indicator == old(self).indicator,
                found == exists|j: int| 0 <= j < i && #[trigger] place.buttons@[j],
                forall|j: int|
                    0 <= j < i ==> #[trigger] self.buttons@[j] == old(
                        self,
                    ).buttons@[j].with_hover(old(self).hovers(place.buttons@, j)),
                forall|j: int| i <= j < n ==> #[trigger] self.buttons@[j] == old(self).buttons@[j],
        {
            if found {
                self.buttons[i].set_hover(false);
            } else if place.buttons[i] {
                let hover = self.button_pressed == self.buttons[i].pressed;
                self.buttons[i].set_hover(hover);
                found = true;
            } else {
                self.buttons[i].set_hover(false);
            }
        }
        if !found && self.indicator.is_inside(place.indicator) {
            self.indicator.set_hover(true)
        } else {
            self.indicator.set_hover(false)
        }
    }
}

impl Dialog {
    /// The left button of the mouse is released: the button that was held down is let go.
    pub open spec fn releases(self, inside: Seq<bool>, r: Action, new: Dialog) -> bool {
        &&& new.same_frame(Dialog { button_pressed: false, ..self })
        &&& new.indicator == self.indicator
        &&& if none_set(held(self.buttons@)) {
            r == Action::Nothing && new.buttons@ == self.buttons@
        } else {
            exists|i: int| #[trigger]
                first_set(held(self.buttons@), i) && {
                    &&& new.buttons@ == self.buttons@.update(
                        i,
                        self.buttons@[i].with_pressed(false),
                    )
                    &&& r == (if inside[i] {
                        action_of(i)
                    } else {
                        Action::Nothing
                    })
                }
        }
    }

    /// The left button of the mouse is pressed: on the text it moves the cursor, on a
    /// button it holds that down.
    pub open spec fn presses(self, place: Place, r: Action, new: Dialog) -> bool {
        &&& r == Action::Nothing
        &&& new.indicator == self.indicator.with_click(place.hit)
        &&& if self.indicator.takes_click(place.hit) || none_set(place.buttons@) {
            new.same_frame(self) && new.buttons@ == self.buttons@
        } else {
            &&& new.same_frame(Dialog { button_pressed: true, ..self })
            &&& exists|i: int| #[trigger]
                first_set(place.buttons@, i) && new.buttons@ == self.buttons@.update(
                    i,
                    self.buttons@[i].with_pressed(true),
                )
        }
    }

    /// The place is one of this dialog.
    pub open spec fn place_ok(self, place: Place) -> bool {
        &&& place.buttons@.len() == self.buttons@.len()
        &&& self.indicator.hit_ok(place.hit)
    }

    fn handle_mouse_left_button_press(&mut self, place: &Place, release: bool) -> (r: Action)
        requires
            old(self).wf(),
            old(self).place_ok(*place),
        ensures
            final(self).wf(),
            release ==> old(self).releases(place.buttons@, r, *final(self)),
            !release ==> old(self).presses(*place, r, *final(self)),
    {
        if release {
            self.button_pressed = false;
            let n: usize = self.buttons.len();
            for i in 0..n
                invariant
                    release,
                    n == self.buttons@.len() == place.buttons@.len(),
                    n <= 4,
                    self.wf(),
                    *self == (Dialog { button_pressed: false, ..*old(self) }),
                    forall|j: int| 0 <= j < i ==> !(#[trigger] self.buttons@[j]).pressed,
            {
                if self.buttons[i].pressed {
                    self.buttons[i].set_pressed(false);
                    proof {
                        let down = held(old(self).buttons@);
                        assert(down[i as int]);
                        assert(first_set(down, i as int));
                        assert(self.buttons@ =~= old(self).buttons@.update(
                            i as int,
                            old(self).buttons@[i as int].with_pressed(false),
                        ));
                    }
                    if place.buttons[i] {
                        return button_action(i);
                    }
                    return Action::Nothing;
                }
            }
            Action::Nothing
        } else {
            let inside = self.indicator.set_cursor(place.hit);
            if inside {
                return Action::Nothing;
            }
            match find_first(&place.buttons) {
                Some(i) => {
                    self.buttons[i].set_pressed(true);
                    self.button_pressed = true;
                    proof {
                        assert(first_set(place.buttons@, i as int));
                        assert(self.buttons@ =~= old(self).buttons@.update(
                            i as int,
                            old(self).buttons@[i as int].with_pressed(true),
                        ));
                    }
                },
                None => {},
            }
            Action::Nothing
        }
    }

    /// What a button of the mouse asks for, before it is done, with the dialog `new` after
    /// it. `button` is pressed, or released, at `place`.
    pub open spec fn clicked(
        self,
        button: u8,
        place: Place,
        isrelease: bool,
        action: Action,
        new: Dialog,
    ) -> bool {
        let input = self.with_input();
        if button == MOUSE_MIDDLE && !isrelease {
            action == Action::Nothing && new == (Dialog { mouse_middle_pressed: true, ..input })
        } else if button == MOUSE_MIDDLE && self.mouse_middle_pressed {
            &&& new == (Dialog { mouse_middle_pressed: false, ..input })
            &&& action == (if place.dialog {
                Action::PastePrimary
            } else {
                Action::Nothing
            })
        } else if button == MOUSE_LEFT {
            if isrelease {
                input.releases(place.buttons@, action, new)
            } else {
                input.presses(place, action, new)
            }
        } else {
            action == Action::Nothing && new == input
        }
    }

    /// The passphrase is shown, or what stands for it, and the button for that switched.
    pub open spec fn switches_plaintext(self, new: Dialog) -> bool {
        &&& self.buttons@.len() == 4
        &&& new.same_frame(self)
        &&& new.buttons@ == self.buttons@.update(
            3,
            Button { toggled: !self.buttons@[3].toggled, dirty: true, ..self.buttons@[3] },
        )
        &&& self.indicator is Strings
        &&& new.indicator is Strings
        &&& self.indicator->Strings_0.toggles(new.indicator->Strings_0)
    }

    /// What is left to do after a button of the mouse was pressed or released, with the
    /// dialog `new` after it: showing plain text is done at once, the rest is left.
    pub open spec fn handles_click(
        self,
        button: u8,
        place: Place,
        isrelease: bool,
        r: Action,
        new: Dialog,
    ) -> bool {
        &&& r != Action::PlainText
        &&& {
            ||| self.clicked(button, place, isrelease, r, new)
            ||| r == Action::Nothing && exists|mid: Dialog|
                #![trigger mid.switches_plaintext(new)]
                self.clicked(button, place, isrelease, Action::PlainText, mid)
                    && mid.switches_plaintext(new)
        }
    }

    /// A button of the mouse was pressed or released. What is left to do: to end the dialog
    /// or to paste.
    pub fn handle_button_press(&mut self, button: u8, place: &Place, isrelease: bool) -> (r: Action)
        requires
            old(self).wf(),
            old(self).started(),
            old(self).place_ok(*place),
        ensures
            final(self).wf(),
            old(self).handles_click(button, *place, isrelease, r, *final(self)),
    {
        self.reset_input_timeout();
        let ghost input = *self;
        let action = if !isrelease && button == MOUSE_MIDDLE {
            self.mouse_middle_pressed = true;
            Action::Nothing
        } else if self.mouse_middle_pressed && button == MOUSE_MIDDLE {
            self.mouse_middle_pressed = false;
            if place.dialog {
                Action::PastePrimary
            } else {
                Action::Nothing
            }
        } else if button == MOUSE_LEFT {
            self.handle_mouse_left_button_press(place, isrelease)
        } else {
            Action::Nothing
        };
        let ghost mid = *self;
        assert(old(self).clicked(button, *place, isrelease, action, mid));
        if action == Action::PlainText {
            proof {
                let down = held(input.buttons@);
                let i = choose|i: int| #[trigger]
                    first_set(down, i) && mid.buttons@ == input.buttons@.update(
                        i,
                        input.buttons@[i].with_pressed(false),
                    ) && Action::PlainText == (if place.buttons@[i] {
                        action_of(i)
                    } else {
                        Action::Nothing
                    });
                assert(i == 3);
                assert(mid.buttons@.len() == 4);
            }
            self.indicator.toggle_plaintext();
            self.buttons[3].toggle();
            proof {
                assert(self.buttons@ =~= mid.buttons@.update(
                    3,
                    Button { toggled: !mid.buttons@[3].toggled, dirty: true, ..mid.buttons@[3] },
                ));
                assert(mid.switches_plaintext(*self));
            }
            return Action::Nothing;
        }
        action
    }
}

/// A key that was pressed.
pub struct Key {
    /// The symbol on it.
    pub sym: Keysym,
    /// What composing made of it, where there is any.
    pub compose: Option<Compose>,
    pub ctrl: bool,
    pub shift: bool,
}

/// What is left to do for a key.
#[derive(Clone, Copy, Debug, PartialEq, Eq, Structural)]
pub enum KeyStep {
    /// To end the dialog or to paste, or nothing.
    Done(Action),
    /// To start composing anew.
    ResetCompose,
    /// To delete what is before the cursor. Whether the key asks for a whole word is only
    /// handed on.
    Delete { word: bool },
    /// To move the cursor. Whether the key asks for a whole word is only handed on.
    Move { direction: Direction, word: bool },
    /// To enter the text on the key, or the one that was composed.
    Text { composed: bool },
}

/// What a symbol asks for.
pub open spec fn key_step(sym: Keysym, ctrl: bool, shift: bool, composed: bool) -> KeyStep {
    if sym == keyboard::XKB_KEY_Return || sym == keyboard::XKB_KEY_KP_Enter {
        KeyStep::Done(Action::Accept)
    } else if (sym == keyboard::XKB_KEY_j || sym == keyboard::XKB_KEY_m) && ctrl {
        KeyStep::Done(Action::Accept)
    } else if sym == keyboard::XKB_KEY_Escape {
        KeyStep::Done(Action::Cancel)
    } else if sym == keyboard::XKB_KEY_BackSpace {
        KeyStep::Delete { word: ctrl }
    } else if sym == keyboard::XKB_KEY_h && ctrl {
        KeyStep::Delete { word: false }
    } else if clears_all(sym, ctrl) {
        KeyStep::Done(Action::Nothing)
    } else if sym == keyboard::XKB_KEY_v && ctrl {
        KeyStep::Done(Action::PasteClipboard)
    } else if sym == keyboard::XKB_KEY_Left {
        KeyStep::Move { direction: Direction::Left, word: ctrl }
    } else if sym == keyboard::XKB_KEY_Right {
        KeyStep::Move { direction: Direction::Right, word: ctrl }
    } else if sym == keyboard::XKB_KEY_Insert && shift {
        KeyStep::Done(Action::PastePrimary)
    } else {
        KeyStep::Text { composed }
    }
}

/// The symbol deletes the whole passphrase.
pub open spec fn clears_all(sym: Keysym, ctrl: bool) -> bool {
    sym == keyboard::XKB_KEY_u && ctrl
}

impl Dialog {
    /// What is left to do for a key, with the dialog `new` after it.
    pub open spec fn handles_key(self, key: Key, r: KeyStep, new: Dialog) -> bool {
        match keyboard::composed_of(key.sym, key.compose) {
            Composed::Wait => r == KeyStep::Done(Action::Nothing) && new == self.with_input(),
            Composed::Reset => r == KeyStep::ResetCompose && new == self.with_input(),
            Composed::Symbol { sym, composed } => {
                &&& r == key_step(sym, key.ctrl, key.shift, composed)
                &&& new.same_frame(self.with_input())
                &&& new.buttons == self.buttons
                &&& if clears_all(sym, key.ctrl) {
                    self.indicator.clears(new.indicator)
                } else {
                    new.indicator == self.indicator
                }
            },
        }
    }

    /// A key was pressed. Its symbol is wiped once it is known what is left to do.
    pub fn handle_key_press(&mut self, key: &mut Key) -> (r: KeyStep)
        requires
            old(self).wf(),
            old(self).started(),
        ensures
            final(self).wf(),
            old(self).handles_key(*old(key), r, *final(self)),
            if keyboard::composed_of(old(key).sym, old(key).compose) is Symbol {
                final(key).sym == 0 && (final(key).compose matches Some(c) ==> c.sym == 0)
            } else {
                *final(key) == *old(key)
            },
    {
        self.reset_input_timeout();
        let mut key_sym: u32 = 0;
        let mut is_composed = false;
        match keyboard::compose_step(key.sym, key.compose) {
            Composed::Wait => {
                return KeyStep::Done(Action::Nothing);
            },
            Composed::Reset => {
                return KeyStep::ResetCompose;
            },
            Composed::Symbol { sym, composed } => {
                key_sym = sym;
                is_composed = composed;
            },
        }
        let ctrl = key.ctrl;
        let step = if key_sym == keyboard::XKB_KEY_Return || key_sym == keyboard::XKB_KEY_KP_Enter {
            KeyStep::Done(Action::Accept)
        } else if (key_sym == keyboard::XKB_KEY_j || key_sym == keyboard::XKB_KEY_m) && ctrl {
            KeyStep::Done(Action::Accept)
        } else if key_sym == keyboard::XKB_KEY_Escape {
            KeyStep::Done(Action::Cancel)
        } else if key_sym == keyboard::XKB_KEY_BackSpace {
            KeyStep::Delete { word: ctrl }
        } else if key_sym == keyboard::XKB_KEY_h && ctrl {
            KeyStep::Delete { word: false }
        } else if key_sym == keyboard::XKB_KEY_u && ctrl {
            self.indicator.pass_clear();
            KeyStep::Done(Action::Nothing)
        } else if key_sym == keyboard::XKB_KEY_v && ctrl {
            KeyStep::Done(Action::PasteClipboard)
        } else if key_sym == keyboard::XKB_KEY_Left {
            KeyStep::Move { direction: Direction::Left, word: ctrl }
        } else if key_sym == keyboard::XKB_KEY_Right {
            KeyStep::Move { direction: Direction::Right, word: ctrl }
        } else if key_sym == keyboard::XKB_KEY_Insert && key.shift {
            KeyStep::Done(Action::PastePrimary)
        } else {
            KeyStep::Text { composed: is_composed }
        };
        crate::secret::wipe_u32(&mut key_sym);
        crate::secret::wipe_u32(&mut key.sym);
        if let Some(compose) = &mut key.compose {
            crate::secret::wipe_u32(&mut compose.sym);
        }
        step
    }

    /// The room for the text of a key.
    pub fn key_buffer() -> (r: SecBuf<u8>)
        ensures
            r.wf(),
            r.capacity() == 60,
            r@ == Seq::<u8>::empty(),
    {
        SecBuf::new(vec![0u8;60])
    }

    /// The text of a key is entered, with the dialog `new` after it.
    pub open spec fn types(self, text: Seq<char>, new: Dialog) -> bool {
        &&& new.same_frame(self)
        &&& new.buttons == self.buttons
        &&& if text.len() > 0 {
            self.indicator.inserts(text, false, new.indicator)
        } else {
            new.indicator == self.indicator
        }
    }

    /// Enters the text of a key, if it has any.
    pub fn handle_key_text(&mut self, buf: &SecBuf<u8>)
        requires
            old(self).wf(),
            old(self).indicator.can_insert(),
            buf.wf(),
            valid_utf8(buf@),
        ensures
            final(self).wf(),
            final(self).same_frame(*old(self)),
            final(self).buttons == old(self).buttons,
            if decode_utf8(buf@).len() > 0 {
                old(self).indicator.inserts(decode_utf8(buf@), false, final(self).indicator)
            } else {
                final(self).indicator == old(self).indicator
            },
            old(self).types(decode_utf8(buf@), *final(self)),
    {
        let s = crate::secret::utf8_text(buf.unsecure()).unwrap();
        if !s.is_empty() {
            self.indicator.pass_insert(s, false);
        }
    }
}

/// There is only one first place.
pub proof fn lemma_first_set_unique(flags: Seq<bool>, i: int, j: int)
    requires
        first_set(flags, i),
        first_set(flags, j),
    ensures
        i == j,
{
    if i < j {
        assert(!flags[i]);
    } else if j < i {
        assert(!flags[j]);
    }
}

/// However the mouse moves, at most one button shows that it is over it.
pub proof fn lemma_one_button_hovers(dialog: Dialog, inside: Seq<bool>, i: int, j: int)
    requires
        dialog.hovers(inside, i),
        dialog.hovers(inside, j),
    ensures
        i == j,
{
    lemma_first_set_unique(inside, i, j);
}

/// A button that is pressed and released does what it is for where the mouse is still on it,
/// and nothing where it is not; after that no button is held down.
pub proof fn lemma_press_and_release(
    before: Dialog,
    place: Place,
    i: int,
    pressed: Dialog,
    inside: Seq<bool>,
    r: Action,
    released: Dialog,
)
    requires
        before.wf(),
        before.place_ok(place),
        none_set(held(before.buttons@)),
        !before.indicator.takes_click(place.hit),
        first_set(place.buttons@, i),
        before.presses(place, Action::Nothing, pressed),
        inside.len() == before.buttons@.len(),
        pressed.releases(inside, r, released),
    ensures
        r == (if inside[i] {
            action_of(i)
        } else {
            Action::Nothing
        }),
        none_set(held(released.buttons@)),
        !released.button_pressed,
        released.indicator == before.indicator,
{
    let k = choose|k: int| #[trigger]
        first_set(place.buttons@, k) && pressed.buttons@ == before.buttons@.update(
            k,
            before.buttons@[k].with_pressed(true),
        );
    lemma_first_set_unique(place.buttons@, i, k);
    let down = held(pressed.buttons@);
    assert(down[i]);
    assert forall|j: int| 0 <= j < i implies !#[trigger] down[j] by {
        assert(!held(before.buttons@)[j]);
    }
    assert(first_set(down, i));
    let l = choose|l: int| #[trigger]
        first_set(down, l) && released.buttons@ == pressed.buttons@.update(
            l,
            pressed.buttons@[l].with_pressed(false),
        ) && r == (if inside[l] {
            action_of(l)
        } else {
            Action::Nothing
        });
    lemma_first_set_unique(down, i, l);
    assert forall|j: int| 0 <= j < released.buttons@.len() implies !#[trigger] held(
        released.buttons@,
    )[j] by {
        assert(!held(before.buttons@)[j]);
    }
}

/// Only a dialog whose indicator can show plain text is ever asked to.
pub proof fn lemma_plaintext_only_where_possible(
    before: Dialog,
    inside: Seq<bool>,
    r: Action,
    released: Dialog,
)
    requires
        before.wf(),
        before.releases(inside, r, released),
        r == Action::PlainText,
    ensures
        before.indicator is Strings,
{
}

/// The background is the one that was configured, made opaque where nothing shows through.
pub open spec fn background_follows(dialog: Dialog) -> bool {
    dialog.background == (if dialog.transparency || dialog.background_original.alpha == 255 {
        dialog.background_original
    } else {
        Rgba { alpha: 255, ..dialog.background_original }
    })
}

/// Whatever is switched, the background keeps to what was configured, and its colour never
/// changes. Switching off and on again gives the first background back.
pub proof fn lemma_transparency(dialog: Dialog, enable: bool)
    requires
        background_follows(dialog),
    ensures
        background_follows(dialog.with_transparency(enable)),
        dialog.with_transparency(enable).background_original == dialog.background_original,
        dialog.with_transparency(!dialog.transparency).with_transparency(
            dialog.transparency,
        ).background == dialog.background,
        dialog.background_original.alpha == 255 ==> dialog.with_transparency(enable) == dialog,
{
}

/// What is entered into an empty dialog, and fits, is what whoever reads the line that is
/// written in the end gets.
pub proof fn lemma_entered_is_written(
    before: Indicator,
    s: Seq<char>,
    pasted: bool,
    after: Indicator,
    line: Seq<u8>,
)
    requires
        before.wf(),
        before.can_insert(),
        before.pass().len() == 0,
        s.len() <= indicator::CAPACITY,
        before.inserts(s, pasted, after),
        line == encode_utf8(after.pass()).push(10u8),
    ensures
        after.pass() == s,
        valid_utf8(line.drop_last()),
        decode_utf8(line.drop_last()) == s,
{
    assert(s.take(s.len() as int) =~= s);
    assert(after.pass() =~= s);
    crate::secret::lemma_line_gives_passphrase(after.pass(), line);
}

/// Deleting one character gives back what was there before it was entered.
pub proof fn lemma_delete_undoes_character(
    before: Indicator,
    c: char,
    attrs: Seq<LogAttr>,
    entered: Indicator,
    after: Indicator,
)
    requires
        before.wf(),
        before.can_insert(),
        before.pass().len() < indicator::CAPACITY,
        before.inserts(seq![c], false, entered),
        entered.deletes(attrs, after),
        entered matches Indicator::Strings(i) ==> i.can_delete(attrs)
            && attrs[i.state.cursor as int].backspace_deletes_character,
    ensures
        after.pass() == before.pass(),
        before matches Indicator::Strings(i) ==> after->Strings_0.state.cursor == i.state.cursor,
{
    assert(seq![c].take(1) =~= seq![c]);
    match before {
        Indicator::Strings(i) => {
            indicator::strings::lemma_delete_undoes_insert(
                before.pass(),
                i.state.cursor as int,
                seq![c],
            );
        },
        _ => {
            assert((before.pass() + seq![c]).drop_last() =~= before.pass());
        },
    }
}

/// Of what is entered, everything is taken as long as there is room, and nothing beyond it.
pub proof fn lemma_capacity(before: Indicator, s: Seq<char>, pasted: bool, after: Indicator)
    requires
        before.wf(),
        before.can_insert(),
        before.inserts(s, pasted, after),
    ensures
        after.pass().len() == (if before.pass().len() + s.len() <= indicator::CAPACITY {
            before.pass().len() + s.len()
        } else {
            indicator::CAPACITY as nat
        }),
{
}

/// Typing, deleting and clearing keep the cursor within the passphrase, so that more can be
/// typed.
pub proof fn lemma_cursor_stays_within(
    before: Indicator,
    s: Seq<char>,
    pasted: bool,
    attrs: Seq<LogAttr>,
    after: Indicator,
)
    requires
        before.wf(),
        after.wf(),
        before.can_insert(),
        before.inserts(s, pasted, after) || before.clears(after) || (before.deletes(attrs, after)
            && (before matches Indicator::Strings(i) ==> i.can_delete(attrs))),
    ensures
        after.can_insert(),
{
    if before matches Indicator::Strings(a) {
        let b = after->Strings_0;
        assert(b.base.pass@.len() == b.base.pass.len);
    }
}

/// A click keeps the cursor within the passphrase, where it falls on a place of it.
pub proof fn lemma_click_stays_within(before: Indicator, hit: Hit)
    requires
        before.wf(),
        before.can_insert(),
        hit matches Hit::Place(place) ==> place <= before.pass().len(),
    ensures
        before.with_click(hit).can_insert(),
{
    if let Indicator::Strings(a) = before {
        assert(a.base.pass@.len() == a.base.pass.len);
    }
}

/// A move keeps the cursor within the passphrase, where the text has no place for it beyond
/// the passphrase.
pub proof fn lemma_move_stays_within(
    before: Indicator,
    idx: i32,
    trailing: i32,
    text: Seq<char>,
    after: Indicator,
)
    requires
        before.wf(),
        before.can_insert(),
        before.moves(idx, trailing, text, after),
        forall|k: int| #[trigger]
            indicator::strings::starts_at(text, k, idx as int) ==> k + trailing
                <= before.pass().len(),
    ensures
        after.can_insert(),
{
    if let Indicator::Strings(a) = before {
        assert(a.base.pass@.len() == a.base.pass.len);
    }
}

/// What else happens to an indicator leaves the cursor within the passphrase: the mouse comes
/// over it or leaves it, the keyboard's focus changes, a timer fires, it is painted, a frame is
/// handed over, it gets another width, or the passphrase is shown or hidden.
pub proof fn lemma_rest_stays_within(
    before: Indicator,
    hover: bool,
    status: Status,
    timer: Timer,
    moving: bool,
)
    requires
        before.can_insert(),
    ensures
        before.with_hover(hover).can_insert(),
        before.with_status(status).can_insert(),
        before.with_timer(timer).can_insert(),
        before.painted().can_insert(),
        before.with_next_frame(moving).can_insert(),
        before matches Indicator::Strings(a) ==> forall|b: Strings| #[trigger]
            a.toggles(b) ==> Indicator::Strings(b).can_insert(),
        forall|wanted: u16, r: Sizing, after: Indicator| #[trigger]
            before.sizes(wanted, r, after) ==> after.can_insert(),
{
}

} // verus!
