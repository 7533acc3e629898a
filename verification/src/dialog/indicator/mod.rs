//! The indicators that show that something was typed, and the text cursor.
use vstd::prelude::*;

use crate::secret::SecBuf;

pub mod circle;
pub mod classic;
pub mod strings;
pub mod texts;

pub use self::circle::Circle;
pub use self::classic::Classic;
pub use self::strings::Strings;

verus! {

/// The number of characters that a passphrase can have.
pub const CAPACITY: usize = 512;

/// What happens to the text cursor and to the picture of an indicator.
#[derive(Clone, Copy, Debug)]
pub struct Status {
    pub has_focus: bool,
    /// The whole indicator has to be painted.
    pub dirty: bool,
    /// The cursor has to be painted.
    pub dirty_blink: bool,
    /// The cursor blinks now.
    pub blink_do: bool,
    /// The cursor blinks whenever there is focus.
    pub blink_enabled: bool,
    /// The cursor is in the phase in which it is shown.
    pub blink_on: bool,
    /// What was pasted is being shown.
    pub show_selection_do: bool,
    /// The milliseconds after which the blink timer is to fire, counted from now, until
    /// the timer has been set.
    pub blink_timeout: Option<u64>,
    /// The same for the timer that ends the display of what was pasted.
    pub show_selection_timeout: Option<u64>,
}

impl Status {
    /// How long the present phase of the cursor lasts.
    pub open spec fn blink_period(self) -> u64 {
        if self.blink_on {
            800
        } else {
            400
        }
    }

    /// The present phase of the cursor starts anew.
    pub open spec fn with_blink_reset(self) -> Status {
        Status { blink_timeout: Some(self.blink_period()), ..self }
    }

    /// A cursor that blinks is shown, and its phase starts anew.
    pub open spec fn with_key_pressed(self) -> Status {
        if self.blink_enabled {
            Status {
                dirty_blink: self.dirty_blink || !self.blink_on,
                blink_on: true,
                blink_timeout: Some(800),
                ..self
            }
        } else {
            self
        }
    }

    /// What was pasted is shown for a moment.
    pub open spec fn with_selection_shown(self) -> Status {
        Status {
            show_selection_do: true,
            show_selection_timeout: Some(200),
            dirty: true,
            ..self
        }
    }

    /// The picture is out of date.
    pub open spec fn with_change(self) -> Status {
        Status { dirty: true, ..self }
    }

    /// The effect of typing or pasting of which something found room.
    pub open spec fn with_insertion(self, pasted: bool) -> Status {
        if pasted {
            self.with_key_pressed().with_selection_shown()
        } else {
            self.with_key_pressed().with_change()
        }
    }

    /// The focus comes or goes. The cursor blinks with it, and starts in its shown phase.
    pub open spec fn with_focus(self, is_focused: bool) -> Status {
        let moved = Status {
            dirty: self.dirty || is_focused != self.has_focus,
            has_focus: is_focused,
            ..self
        };
        if self.blink_enabled {
            Status {
                blink_on: is_focused,
                blink_do: is_focused,
                blink_timeout: if is_focused {
                    Some(800)
                } else {
                    self.blink_timeout
                },
                ..moved
            }
        } else {
            moved
        }
    }

    /// The cursor enters its other phase.
    pub open spec fn with_blink(self) -> Status {
        Status { blink_on: !self.blink_on, dirty_blink: true, ..self }.with_blink_reset()
    }
}

/// The two timers of an indicator.
#[derive(Clone, Copy, Debug, PartialEq, Eq, Structural)]
pub enum Timer {
    Blink,
    ShowSelection,
}

/// What all indicators have.
pub struct Base {
    pub status: Status,
    pub pass: SecBuf<char>,
}

impl Base {
    /// The passphrase has its room, and only a cursor that may blink does.
    pub open spec fn wf(self) -> bool {
        &&& self.pass.wf()
        &&& self.pass.capacity() == CAPACITY
        &&& self.status.blink_do ==> self.status.blink_enabled
    }

    /// The last character is deleted, if there is one.
    pub open spec fn deletes(self, new: Base) -> bool {
        if self.pass@.len() > 0 {
            &&& new.pass@ == self.pass@.drop_last()
            &&& new.status == self.status.with_key_pressed().with_change()
        } else {
            &&& new.pass@ == self.pass@
            &&& new.status == self.status.with_key_pressed()
        }
    }

    /// The whole passphrase is deleted.
    pub open spec fn clears(self, new: Base) -> bool {
        &&& new.pass@ == Seq::<char>::empty()
        &&& new.status == (if self.pass@.len() == 0 {
            self.status.with_key_pressed()
        } else {
            self.status.with_key_pressed().with_change()
        })
    }

    /// The number of the characters of `s` that there is room for.
    pub open spec fn room_for(self, s: Seq<char>) -> nat {
        crate::secret::fitting(s.len(), self.pass.capacity(), self.pass@.len())
    }

    /// The characters of `s` are appended, as many as there is room for.
    pub open spec fn inserts(self, s: Seq<char>, pasted: bool, new: Base) -> bool {
        let n = self.room_for(s);
        &&& new.pass@ == self.pass@ + s.take(n as int)
        &&& new.status == (if n > 0 {
            self.status.with_insertion(pasted)
        } else {
            self.status.with_key_pressed()
        })
    }

    /// An empty passphrase without focus.
    pub fn new(blink: bool) -> (r: Base)
        ensures
            r.wf(),
            r.pass@ == Seq::<char>::empty(),
            r.pass.len == 0,
            r.status == (Status {
                has_focus: false,
                dirty: false,
                dirty_blink: false,
                blink_do: blink,
                blink_enabled: blink,
                blink_on: true,
                show_selection_do: false,
                blink_timeout: Some(800),
                show_selection_timeout: Some(0),
            }),
    {
        Base {
            status: Status {
                has_focus: false,
                dirty: false,
                dirty_blink: false,
                blink_do: blink,
                blink_enabled: blink,
                blink_on: true,
                show_selection_do: false,
                blink_timeout: Some(800),
                show_selection_timeout: Some(0),
            },
            pass: SecBuf::new(vec!['X';CAPACITY]),
        }
    }

    /// Whether anything has to be painted.
    pub fn dirty(&self) -> (r: bool)
        ensures
            r == (self.status.dirty || self.status.dirty_blink),
    {
        self.status.dirty || self.status.dirty_blink
    }

    /// Deletes the last character, if there is one.
    pub fn pass_delete(&mut self)
        requires
            old(self).wf(),
        ensures
            final(self).wf(),
            old(self).deletes(*final(self)),
    {
        self.key_pressed();
        if self.pass.len > 0 {
            self.pass.len -= 1;
            self.status.dirty = true;
            assert(self.pass@ =~= old(self).pass@.drop_last());
        }
    }

    /// Deletes the whole passphrase.
    pub fn pass_clear(&mut self)
        requires
            old(self).wf(),
        ensures
            final(self).wf(),
            old(self).clears(*final(self)),
    {
        self.key_pressed();
        if self.pass.len != 0 {
            self.pass.len = 0;
            self.status.dirty = true;
        }
        assert(self.pass@ =~= Seq::<char>::empty());
    }

    /// Appends the characters of `s`, as many as there is room for.
    pub fn pass_insert(&mut self, s: &str, pasted: bool)
        requires
            old(self).wf(),
        ensures
            final(self).wf(),
            old(self).inserts(s@, pasted, *final(self)),
    {
        self.key_pressed();
        let at: usize = self.pass.len;
        let n: usize = self.pass.insert_many(at, s);
        assert(self.pass@ =~= old(self).pass@ + s@.take(n as int));
        if n > 0 {
            if pasted {
                self.show_selection();
            }
            self.status.dirty = true;
        }
    }

    /// Starts the blinking when events are handled for the first time.
    pub fn init_timeouts(&mut self)
        ensures
            final(self).pass == old(self).pass,
            final(self).status == (if old(self).status.blink_do {
                old(self).status.with_blink_reset()
            } else {
                old(self).status
            }),
    {
        if self.status.blink_do {
            self.reset_blink();
        }
    }

    /// Whether a timer is waited for.
    pub open spec fn spec_awaits(self, timer: Timer) -> bool {
        match timer {
            Timer::Blink => self.status.blink_do,
            Timer::ShowSelection => self.status.show_selection_do,
        }
    }

    /// Whether `timer` is waited for.
    pub fn awaits(&self, timer: Timer) -> (r: bool)
        ensures
            r == self.spec_awaits(timer),
    {
        match timer {
            Timer::Blink => self.status.blink_do,
            Timer::ShowSelection => self.status.show_selection_do,
        }
    }

    /// Whether any timer is waited for.
    pub fn requests_events(&self) -> (r: bool)
        ensures
            r == (self.spec_awaits(Timer::Blink) || self.spec_awaits(Timer::ShowSelection)),
    {
        self.status.blink_do || self.status.show_selection_do
    }

    /// A timer that was waited for has fired.
    pub fn handle_events(&mut self, timer: Timer)
        requires
            old(self).wf(),
            old(self).spec_awaits(timer),
        ensures
            final(self).wf(),
            final(self).pass == old(self).pass,
            final(self).status == (match timer {
                Timer::Blink => old(self).status.with_blink(),
                Timer::ShowSelection => Status {
                    show_selection_do: false,
                    dirty: true,
                    ..old(self).status
                },
            }),
    {
        match timer {
            Timer::Blink => self.on_blink_timeout(),
            Timer::ShowSelection => self.on_show_selection_timeout(),
        }
    }

    /// Everything has been painted.
    pub fn set_painted(&mut self)
        ensures
            final(self).pass == old(self).pass,
            final(self).status == (Status {
                dirty: false,
                dirty_blink: false,
                ..old(self).status
            }),
    {
        self.status.dirty = false;
        self.status.dirty_blink = false;
    }

    /// Whether the cursor is visible: if not, the place where it stands is painted over.
    pub fn blink(&self) -> (r: bool)
        ensures
            r == (self.status.has_focus && self.status.blink_on),
    {
        self.status.has_focus && self.status.blink_on
    }

    /// What was pasted has been shown long enough.
    pub fn on_show_selection_timeout(&mut self)
        requires
            old(self).status.show_selection_do,
        ensures
            final(self).pass == old(self).pass,
            final(self).status == (Status {
                show_selection_do: false,
                dirty: true,
                ..old(self).status
            }),
    {
        self.status.show_selection_do = false;
        self.status.dirty = true;
    }

    pub(crate) fn show_selection(&mut self)
        ensures
            final(self).pass == old(self).pass,
            final(self).status == old(self).status.with_selection_shown(),
    {
        self.status.show_selection_do = true;
        self.status.show_selection_timeout = Some(200);
        self.status.dirty = true;
    }

    /// Shows a cursor that blinks.
    pub fn key_pressed(&mut self)
        ensures
            final(self).pass == old(self).pass,
            final(self).status == old(self).status.with_key_pressed(),
    {
        if self.status.blink_enabled {
            if !self.status.blink_on {
                self.status.dirty_blink = true;
            }
            self.status.blink_on = true;
            self.reset_blink();
        }
    }

    /// The focus has come or gone.
    pub fn set_focused(&mut self, is_focused: bool)
        ensures
            old(self).wf() ==> final(self).wf(),
            final(self).pass == old(self).pass,
            final(self).status == old(self).status.with_focus(is_focused),
    {
        self.status.dirty = self.status.dirty || is_focused != self.status.has_focus;
        self.status.has_focus = is_focused;
        if self.status.blink_enabled {
            self.status.blink_on = is_focused;
            if is_focused {
                self.reset_blink();
            }
            self.status.blink_do = is_focused;
        }
    }

    /// The cursor has been in its phase long enough.
    pub fn on_blink_timeout(&mut self)
        ensures
            final(self).pass == old(self).pass,
            final(self).status == old(self).status.with_blink(),
    {
        self.status.blink_on = !self.status.blink_on;
        self.status.dirty_blink = true;
        self.reset_blink();
    }

    fn reset_blink(&mut self)
        ensures
            final(self).pass == old(self).pass,
            final(self).status == old(self).status.with_blink_reset(),
    {
        let duration: u64 = if self.status.blink_on {
            800
        } else {
            400
        };
        self.status.blink_timeout = Some(duration);
    }

    /// The times for which the timers are to be set now.
    pub fn take_timeouts(&mut self) -> (r: (Option<u64>, Option<u64>))
        ensures
            r == (old(self).status.blink_timeout, old(self).status.show_selection_timeout),
            final(self).pass == old(self).pass,
            final(self).status == (Status {
                blink_timeout: None,
                show_selection_timeout: None,
                ..old(self).status
            }),
    {
        let r = (self.status.blink_timeout, self.status.show_selection_timeout);
        self.status.blink_timeout = None;
        self.status.show_selection_timeout = None;
        r
    }
}

/// What of an indicator has to be painted.
#[derive(Clone, Copy, Debug, PartialEq, Eq, Structural)]
pub enum Repaint {
    Nothing,
    Cursor,
    Whole,
}

/// The whole indicator where it is out of date, else the cursor where that is.
pub open spec fn repaint_of(status: Status) -> Repaint {
    if status.dirty {
        Repaint::Whole
    } else if status.dirty_blink {
        Repaint::Cursor
    } else {
        Repaint::Nothing
    }
}

/// The element that the last of `len` characters lights up, of `count` elements.
pub open spec fn lit_element(len: nat, count: nat) -> int {
    (len - 1) % (count as int)
}

/// How many elements a row has that could hold `wanted` of them.
pub open spec fn clamped(wanted: u16, min_count: u16, max_count: u16) -> u16 {
    let raised = if wanted > min_count {
        wanted
    } else {
        min_count
    };
    if raised < max_count {
        raised
    } else {
        max_count
    }
}

/// The number of elements for a row that could hold `wanted` of them: at least
/// `min_count`, but never more than `max_count`.
pub fn clamp_count(wanted: u16, min_count: u16, max_count: u16) -> (r: u16)
    ensures
        r == clamped(wanted, min_count, max_count),
{
    let raised: u16 = if wanted > min_count {
        wanted
    } else {
        min_count
    };
    if raised < max_count {
        raised
    } else {
        max_count
    }
}

/// The number of elements keeps within the limits that were set, where these agree, and
/// the upper limit is never passed.
pub proof fn lemma_clamped_within_limits(wanted: u16, min_count: u16, max_count: u16)
    ensures
        clamped(wanted, min_count, max_count) <= max_count,
        min_count <= max_count ==> min_count <= clamped(wanted, min_count, max_count),
        min_count <= wanted <= max_count ==> clamped(wanted, min_count, max_count) == wanted,
{
}

/// Counting on by one goes on by one element, or to the first after the last.
pub(crate) proof fn lemma_step_round(n: int, count: int)
    requires
        0 <= n,
        0 < count,
    ensures
        0 <= n % count < count,
        0int % count == 0,
        (n + 1) % count == (if n % count == count - 1 {
            0
        } else {
            n % count + 1
        }),
{
    vstd::arithmetic::div_mod::lemma_small_mod(0, count as nat);
    let q = n / count;
    let m = n % count;
    assert(n == q * count + m && 0 <= m < count) by (nonlinear_arith)
        requires
            q == n / count,
            m == n % count,
            0 < count,
    ;
    if m == count - 1 {
        assert(n + 1 == (q + 1) * count) by (nonlinear_arith)
            requires
                n == q * count + m,
                m == count - 1,
        ;
        vstd::arithmetic::div_mod::lemma_fundamental_div_mod_converse(n + 1, count, q + 1, 0);
    } else {
        vstd::arithmetic::div_mod::lemma_fundamental_div_mod_converse(n + 1, count, q, m + 1);
    }
}

/// Of all numbers within the limits the one that is taken is nearest to the one that has room,
/// and where the limits leave none it is the upper one.
pub proof fn lemma_clamped_is_nearest(wanted: u16, min_count: u16, max_count: u16, other: u16)
    requires
        min_count <= other <= max_count || max_count < min_count,
    ensures
        max_count < min_count ==> clamped(wanted, min_count, max_count) == max_count,
        min_count <= max_count && wanted <= other ==> clamped(wanted, min_count, max_count)
            <= other,
        min_count <= max_count && other <= wanted ==> other <= clamped(
            wanted,
            min_count,
            max_count,
        ),
        clamped(wanted, min_count, max_count) == wanted || clamped(wanted, min_count, max_count)
            == min_count || clamped(wanted, min_count, max_count) == max_count,
{
}

/// A blinking cursor is seen twice as long as it is not: each time its timer fires it changes
/// from one phase into the other, is painted and waits for the new phase to end. Nothing else
/// changes.
pub proof fn lemma_cursor_blinks(s: Status)
    ensures
        s.with_blink().blink_on != s.blink_on,
        s.with_blink().dirty_blink,
        s.with_blink().blink_timeout == Some(
            if s.blink_on {
                400u64
            } else {
                800u64
            },
        ),
        s.with_blink().with_blink().blink_on == s.blink_on,
        s.with_blink() == (Status {
            blink_on: s.with_blink().blink_on,
            blink_timeout: s.with_blink().blink_timeout,
            dirty_blink: true,
            ..s
        }),
        s.with_blink_reset() == (Status {
            blink_timeout: Some(
                if s.blink_on {
                    800u64
                } else {
                    400u64
                },
            ),
            ..s
        }),
{
}

/// The focus that has come is there until it goes. An indicator is painted anew when it comes
/// or goes, not when it stays. A cursor that may blink is seen and blinks just while the focus
/// is there, from its start.
pub proof fn lemma_focus(s: Status, focused: bool)
    ensures
        s.with_focus(focused).has_focus == focused,
        s.with_focus(focused).dirty == (s.dirty || focused != s.has_focus),
        s.with_focus(focused).with_focus(focused).dirty == s.with_focus(focused).dirty,
        s.blink_enabled ==> s.with_focus(focused).blink_do == focused && s.with_focus(
            focused,
        ).blink_on == focused,
        s.blink_enabled && focused ==> s.with_focus(focused).blink_timeout == Some(800u64),
        s.blink_enabled && !focused ==> s.with_focus(focused).blink_timeout == s.blink_timeout,
        !s.blink_enabled ==> s.with_focus(focused) == (Status {
            has_focus: focused,
            dirty: s.with_focus(focused).dirty,
            ..s
        }),
        s.with_focus(focused).dirty_blink == s.dirty_blink,
        s.with_focus(focused).blink_enabled == s.blink_enabled,
        s.with_focus(focused).show_selection_do == s.show_selection_do,
        s.with_focus(focused).show_selection_timeout == s.show_selection_timeout,
{
}

/// What is out of date is painted, the whole where all of it is, and nothing else.
pub proof fn lemma_repaint_what_is_needed(s: Status)
    ensures
        s.dirty <==> repaint_of(s) == Repaint::Whole,
        !s.dirty && s.dirty_blink <==> repaint_of(s) == Repaint::Cursor,
        !s.dirty && !s.dirty_blink <==> repaint_of(s) == Repaint::Nothing,
{
}

} // verus!
