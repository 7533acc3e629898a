//! The text in place of a passphrase, and the cursor in it.
use vstd::prelude::*;
use vstd::utf8::*;

use super::texts::StringType;
use super::{Base, Repaint, Status, Timer};
use crate::secret::{Passphrase, SecBuf};

verus! {

/// Where text that is too long is cut.
#[derive(Clone, Copy, Debug, PartialEq, Eq, Structural)]
pub enum Ellipsize {
    Start,
    Middle,
}

/// The pointer over the window.
#[derive(Clone, Copy, Debug, PartialEq, Eq, Structural)]
pub enum Pointer {
    Default,
    Input,
}

/// A direction in which the cursor moves on the screen.
#[derive(Clone, Copy, Debug, PartialEq, Eq, Structural)]
pub enum Direction {
    Left,
    Right,
}

impl Direction {
    /// The direction as a number, negative to the left.
    pub fn step(self) -> (r: i32)
        ensures
            r == (if self == Direction::Left {
                -1int
            } else {
                1int
            }),
    {
        match self {
            Direction::Left => -1,
            Direction::Right => 1,
        }
    }
}

/// What is known of the place before a character of the text that is shown.
#[derive(Clone, Copy, Debug, PartialEq, Eq, Structural)]
pub struct LogAttr {
    /// Backspace at this place deletes one character, not all up to the last place where
    /// a cursor can stand.
    pub backspace_deletes_character: bool,
    /// A cursor can stand here.
    pub is_cursor_position: bool,
}

/// Where a click fell.
#[derive(Clone, Copy, Debug, PartialEq, Eq, Structural)]
pub enum Hit {
    /// Not on the indicator.
    Outside,
    /// On the indicator, but on none of its text.
    Beside,
    /// On the text, with this many characters before it.
    Place(usize),
}

/// The point from `start` on, `length` points long, that is nearest to `at`: the last one
/// where `at` is behind it, even where there is none and the last is before the start.
pub open spec fn nearest_point(at: int, start: int, length: int) -> int {
    let raised = if at < start {
        start
    } else {
        at
    };
    if raised < start + length - 1 {
        raised
    } else {
        start + length - 1
    }
}

/// The point of the text that a click at `at` falls on, where the text has `length` points
/// from `start` on: a click beside it falls on its nearest point.
pub fn nearest(at: i32, start: i32, length: i32) -> (r: i32)
    requires
        i32::MIN <= start + length - 1 <= i32::MAX,
    ensures
        r == nearest_point(at as int, start as int, length as int),
        length >= 1 ==> start <= r < start + length,
        start <= at < start + length ==> r == at,
        length >= 1 && at < start ==> r == start,
        at >= start + length ==> r == start + length - 1,
{
    let last: i32 = (start as i64 + length as i64 - 1) as i32;
    let raised: i32 = if at < start {
        start
    } else {
        at
    };
    if raised < last {
        raised
    } else {
        last
    }
}

/// How the cursor is painted.
#[derive(Clone, Copy, Debug, PartialEq, Eq, Structural)]
pub enum CursorPaint {
    /// By painting the indicator, without a cursor.
    Hidden,
    /// At the left edge.
    AtStart,
    /// At its place in the text.
    AtCursor,
}

/// The text that is shown.
pub enum Shown {
    /// The passphrase itself, in UTF-8.
    Plain(SecBuf<u8>),
    /// What stands for it.
    Hidden(String),
}

/// How the text of an indicator is shown, and where the cursor is in it.
#[derive(Clone, Copy, Debug)]
pub struct TextState {
    pub show_plain: bool,
    /// The number of characters before the cursor.
    pub cursor: usize,
    /// The mouse is over the indicator.
    pub hover: bool,
    /// The text has changed since it was last taken.
    pub relayout: bool,
    /// Where long text is cut from now on.
    pub ellipsize: Option<Ellipsize>,
}

/// `pass` with `s` before the character at `cursor`.
pub open spec fn inserted(pass: Seq<char>, cursor: int, s: Seq<char>) -> Seq<char> {
    pass.take(cursor) + s + pass.skip(cursor)
}

/// `pass` without the characters from `from` up to `cursor`.
pub open spec fn deleted(pass: Seq<char>, from: int, cursor: int) -> Seq<char> {
    pass.take(from) + pass.skip(cursor)
}

/// Deleting what was inserted gives the passphrase back.
pub proof fn lemma_delete_undoes_insert(pass: Seq<char>, cursor: int, s: Seq<char>)
    requires
        0 <= cursor <= pass.len(),
    ensures
        deleted(inserted(pass, cursor, s), cursor, cursor + s.len()) == pass,
{
    assert(deleted(inserted(pass, cursor, s), cursor, cursor + s.len()) =~= pass);
}

/// The place before `cursor` up to which backspace deletes: one character, or all up to
/// the last place before it where a cursor can stand.
pub open spec fn deletes_to(attrs: Seq<LogAttr>, cursor: int, to: int) -> bool {
    &&& 0 <= to < cursor
    &&& if attrs[cursor].backspace_deletes_character {
        to == cursor - 1
    } else {
        &&& to == 0 || attrs[to].is_cursor_position
        &&& forall|j: int| to < j < cursor ==> !(#[trigger] attrs[j]).is_cursor_position
    }
}

/// There is only one place up to which backspace deletes.
pub proof fn lemma_deletes_to_unique(attrs: Seq<LogAttr>, cursor: int, a: int, b: int)
    requires
        deletes_to(attrs, cursor, a),
        deletes_to(attrs, cursor, b),
    ensures
        a == b,
{
    if a < b {
        assert(!attrs[b].is_cursor_position || attrs[cursor].backspace_deletes_character);
    } else if b < a {
        assert(!attrs[a].is_cursor_position || attrs[cursor].backspace_deletes_character);
    }
}

/// The character that starts at byte `idx` of `text` has `k` characters before it.
pub open spec fn starts_at(text: Seq<char>, k: int, idx: int) -> bool {
    0 <= k < text.len() && crate::text::byte_offset(text, k) == idx
}

/// A text in place of the passphrase, with a cursor.
pub struct Strings {
    pub base: Base,
    pub strings: StringType,
    pub state: TextState,
}

impl Strings {
    /// The passphrase has its room and the strings can be used.
    pub open spec fn wf(self) -> bool {
        self.base.wf() && self.strings.wf()
    }

    /// The cursor can be moved in the text that is shown.
    pub open spec fn movable(self) -> bool {
        self.strings.spec_use_cursor() || self.state.show_plain
    }

    /// The state of the text after a change of what is shown.
    pub open spec fn with_new_text(self, state: TextState) -> TextState {
        TextState {
            relayout: true,
            ellipsize: if !state.show_plain && self.strings is Asterisk {
                Some(Ellipsize::Start)
            } else {
                state.ellipsize
            },
            ..state
        }
    }

    /// The whole passphrase is deleted.
    pub open spec fn clears(self, new: Strings) -> bool {
        &&& new.strings == self.strings
        &&& self.base.clears(new.base)
        &&& new.state == (if self.base.pass@.len() == 0 {
            self.state
        } else {
            self.with_new_text(TextState { cursor: 0, ..self.state })
        })
    }

    /// The characters of `s` are inserted at the cursor, as many as there is room for, and
    /// the cursor moves behind them.
    pub open spec fn inserts(self, s: Seq<char>, pasted: bool, new: Strings) -> bool {
        let n = self.base.room_for(s);
        &&& new.strings == self.strings
        &&& new.base.pass@ == inserted(
            self.base.pass@,
            self.state.cursor as int,
            s.take(n as int),
        )
        &&& if n > 0 {
            &&& new.base.status == self.base.status.with_insertion(pasted)
            &&& new.state == self.with_new_text(
                TextState { cursor: (self.state.cursor + n) as usize, ..self.state },
            )
        } else {
            &&& new.base.status == self.base.status.with_key_pressed()
            &&& new.state == self.state
        }
    }

    /// What is before the cursor is deleted, as `attrs` say of the text that is shown.
    pub open spec fn deletes(self, attrs: Seq<LogAttr>, new: Strings) -> bool {
        let to = new.state.cursor as int;
        &&& new.strings == self.strings
        &&& if self.state.cursor == 0 {
            &&& new.base.pass == self.base.pass
            &&& new.base.status == self.base.status.with_key_pressed()
            &&& new.state == self.state
        } else {
            &&& deletes_to(attrs, self.state.cursor as int, to)
            &&& new.base.pass@ == deleted(self.base.pass@, to, self.state.cursor as int)
            &&& new.base.status == self.base.status.with_key_pressed().with_change()
            &&& new.state == self.with_new_text(TextState { cursor: to as usize, ..self.state })
        }
    }

    /// The place of the cursor after a move is known: where the text names a character,
    /// there is one.
    pub open spec fn can_move(self, idx: i32, trailing: i32, text: Seq<char>) -> bool {
        self.movable() && idx != i32::MAX && idx != -1 ==> {
            &&& 0 <= trailing
            &&& exists|k: int| #[trigger]
                starts_at(text, k, idx as int) && k + trailing <= usize::MAX
        }
    }

    /// The cursor moves to where the text has it: before the character at byte `idx`, and
    /// `trailing` characters further. `idx` is -1 or the largest number where the text
    /// ends before the cursor could move.
    pub open spec fn moves(
        self,
        idx: i32,
        trailing: i32,
        text: Seq<char>,
        new: Strings,
    ) -> bool {
        if !self.movable() {
            new == self
        } else if idx == i32::MAX || idx == -1 {
            new == (Strings {
                base: Base { status: self.base.status.with_key_pressed(), ..self.base },
                ..self
            })
        } else {
            &&& starts_at(text, new.state.cursor - trailing, idx as int)
            &&& new == (Strings {
                base: Base {
                    status: self.base.status.with_key_pressed().with_change(),
                    ..self.base
                },
                state: TextState { cursor: new.state.cursor, ..self.state },
                ..self
            })
        }
    }

    /// The passphrase is shown, or what stands for it.
    pub open spec fn toggles(self, new: Strings) -> bool {
        &&& new.strings == self.strings
        &&& new.base == (Base { status: self.base.status.with_change(), ..self.base })
        &&& new.state == self.with_new_text(
            TextState {
                show_plain: !self.state.show_plain,
                ellipsize: if self.state.show_plain {
                    self.state.ellipsize
                } else {
                    Some(Ellipsize::Middle)
                },
                ..self.state
            },
        )
    }

    /// `attrs` reach as far as the cursor, which is within the passphrase.
    pub open spec fn can_delete(self, attrs: Seq<LogAttr>) -> bool {
        self.state.cursor > 0 ==> self.state.cursor <= self.base.pass.len && self.state.cursor
            < attrs.len()
    }

    /// An empty passphrase, not in plain text.
    pub fn new(blink: bool, strings: StringType) -> (r: Strings)
        requires
            strings.wf(),
        ensures
            r.wf(),
            r.strings == strings,
            r.base.pass@ == Seq::<char>::empty(),
            r.base.status == (Status {
                has_focus: false,
                dirty: false,
                dirty_blink: false,
                blink_do: blink,
                blink_enabled: blink,
                blink_on: true,
                show_selection_do: false,
                blink_timeout: Some(800),
                show_selection_timeout: Some(0),
            }),
            r.state == (TextState {
                show_plain: false,
                cursor: 0,
                hover: false,
                relayout: false,
                ellipsize: None,
            }),
    {
        Strings {
            base: Base::new(blink),
            strings,
            state: TextState {
                show_plain: false,
                cursor: 0,
                hover: false,
                relayout: false,
                ellipsize: None,
            },
        }
    }

    /// The mouse is over the indicator, or not. The pointer to show from now on, where it
    /// changes.
    pub fn set_hover(&mut self, hover: bool) -> (r: Option<Pointer>)
        ensures
            final(self).base == old(self).base,
            final(self).strings == old(self).strings,
            final(self).state == (TextState {
                hover: if old(self).movable() {
                    hover
                } else {
                    old(self).state.hover
                },
                ..old(self).state
            }),
            r == (if !old(self).movable() || hover == old(self).state.hover {
                None
            } else if hover {
                Some(Pointer::Input)
            } else {
                Some(Pointer::Default)
            }),
    {
        if self.strings.use_cursor() || self.state.show_plain {
            let pointer = if hover && !self.state.hover {
                Some(Pointer::Input)
            } else if !hover && self.state.hover {
                Some(Pointer::Default)
            } else {
                None
            };
            self.state.hover = hover;
            return pointer;
        }
        None
    }

    /// Deletes the whole passphrase.
    pub fn pass_clear(&mut self)
        requires
            old(self).wf(),
        ensures
            final(self).wf(),
            old(self).clears(*final(self)),
    {
        self.base.key_pressed();
        if self.base.pass.len != 0 {
            self.state.cursor = 0;
            self.base.pass.len = 0;
            self.set_text();
            self.base.status.dirty = true;
        }
        assert(self.base.pass@ =~= Seq::<char>::empty());
    }

    /// Inserts the characters of `s` at the cursor, as many as there is room for, and
    /// moves the cursor behind them.
    pub fn pass_insert(&mut self, s: &str, pasted: bool)
        requires
            old(self).wf(),
            old(self).state.cursor <= old(self).base.pass.len,
        ensures
            final(self).wf(),
            old(self).inserts(s@, pasted, *final(self)),
    {
        self.base.key_pressed();
        let cursor: usize = self.state.cursor;
        let n: usize = self.base.pass.insert_many(cursor, s);
        if n > 0 {
            if pasted {
                self.base.show_selection();
            }
            self.set_text();
            self.state.cursor = cursor + n;
            self.base.status.dirty = true;
        }
    }

    /// Deletes what is before the cursor, as `attrs` say of the text that is shown.
    pub fn pass_delete(&mut self, attrs: &[LogAttr])
        requires
            old(self).wf(),
            old(self).can_delete(attrs@),
        ensures
            final(self).wf(),
            old(self).deletes(attrs@, *final(self)),
    {
        self.base.key_pressed();
        if self.state.cursor == 0 {
            return;
        }
        let cursor: usize = self.state.cursor;
        let mut new_cursor: usize = cursor - 1;
        if !attrs[cursor].backspace_deletes_character {
            while new_cursor > 0 && !attrs[new_cursor].is_cursor_position
                invariant
                    new_cursor < cursor < attrs@.len(),
                    forall|j: int|
                        new_cursor < j < cursor ==> !(#[trigger] attrs@[j]).is_cursor_position,
                decreases new_cursor,
            {
                new_cursor -= 1;
            }
        }
        let ghost pass = self.base.pass@;
        while self.state.cursor > new_cursor
            invariant
                self.base.wf(),
                self.strings == old(self).strings,
                self.base.status == old(self).base.status.with_key_pressed(),
                self.state == (TextState { cursor: self.state.cursor, ..old(self).state }),
                new_cursor <= self.state.cursor <= cursor <= pass.len(),
                self.base.pass@ == deleted(pass, self.state.cursor as int, cursor as int),
            decreases self.state.cursor,
        {
            let i: usize = self.state.cursor - 1;
            assert(self.base.pass@.len() == self.state.cursor + (pass.len() - cursor));
            self.base.pass.delete(i);
            self.state.cursor = i;
            assert(self.base.pass@ =~= deleted(pass, i as int, cursor as int));
        }
        self.base.status.dirty = true;
        self.set_text();
    }

    /// Moves the cursor to where the text has it: before the character at byte `idx`, and
    /// `trailing` characters further. `idx` is -1 or the largest number where the text
    /// ends before the cursor could move.
    pub fn move_cursor(&mut self, idx: i32, trailing: i32, text: &str)
        requires
            old(self).wf(),
            old(self).can_move(idx, trailing, text@),
        ensures
            final(self).wf(),
            old(self).moves(idx, trailing, text@, *final(self)),
    {
        if !self.strings.use_cursor() && !self.state.show_plain {
            return;
        }
        self.base.key_pressed();
        if idx != i32::MAX && idx != -1 {
            let place = Self::cursor_chars(idx, trailing, text);
            proof {
                let k = choose|k: int| #[trigger]
                    starts_at(text@, k, idx as int) && k + trailing <= usize::MAX;
                assert(starts_at(text@, k, idx as int));
            }
            self.state.cursor = place.unwrap();
            self.base.status.dirty = true;
        }
    }

    /// The number of characters before the place that is `trailing` characters behind the
    /// start of the character at byte `idx` of `text`, where one starts there.
    pub fn cursor_chars(idx: i32, trailing: i32, text: &str) -> (r: Option<usize>)
        ensures
            match r {
                Some(place) => trailing >= 0 && starts_at(text@, place - trailing, idx as int),
                None => trailing < 0 || forall|k: int| #[trigger]
                    starts_at(text@, k, idx as int) ==> k + trailing > usize::MAX,
            },
    {
        if idx < 0 || trailing < 0 {
            return None;
        }
        match crate::text::char_index(text, idx as usize) {
            None => None,
            Some(k) => {
                proof {
                    assert forall|j: int| #[trigger]
                        starts_at(text@, j, idx as int) implies j == k by {
                        if j < k {
                            crate::text::lemma_byte_offset_increasing(text@, j, k as int);
                        } else if k < j {
                            crate::text::lemma_byte_offset_increasing(text@, k as int, j);
                        }
                    }
                    assert(starts_at(text@, k as int, idx as int));
                }
                k.checked_add(trailing as usize)
            },
        }
    }

    /// The byte of `text` before which the cursor stands, where the text reaches that far.
    pub fn cursor_bytes(&self, text: &str) -> (r: Option<i32>)
        ensures
            match r {
                Some(byte) => self.state.cursor <= text@.len() && byte
                    == crate::text::byte_offset(text@, self.state.cursor as int),
                None => self.state.cursor > text@.len() || crate::text::byte_offset(
                    text@,
                    self.state.cursor as int,
                ) > i32::MAX,
            },
    {
        match crate::text::byte_index(text, self.state.cursor) {
            None => None,
            Some(byte) => if byte <= i32::MAX as usize {
                Some(byte as i32)
            } else {
                None
            },
        }
    }

    /// Shows the passphrase, or what stands for it.
    pub fn toggle_plaintext(&mut self)
        requires
            old(self).wf(),
        ensures
            final(self).wf(),
            old(self).toggles(*final(self)),
    {
        self.state.show_plain = !self.state.show_plain;
        if self.state.show_plain {
            self.state.ellipsize = Some(Ellipsize::Middle);
        }
        self.set_text();
    }

    /// The passphrase that was entered.
    pub fn into_pass(self) -> (r: Passphrase)
        ensures
            r.0 == self.base.pass,
    {
        Passphrase(self.base.pass)
    }

    /// What was pasted has been shown long enough.
    pub fn on_show_selection_timeout(&mut self)
        requires
            old(self).wf(),
            old(self).base.status.show_selection_do,
        ensures
            final(self).wf(),
            final(self).strings == old(self).strings,
            final(self).base.pass == old(self).base.pass,
            final(self).base.status == (Status {
                show_selection_do: false,
                dirty: true,
                ..old(self).base.status
            }),
            final(self).state == old(self).with_new_text(old(self).state),
    {
        self.base.on_show_selection_timeout();
        self.set_text();
    }

    /// A timer that was waited for has fired.
    pub fn handle_events(&mut self, timer: Timer)
        requires
            old(self).wf(),
            old(self).base.spec_awaits(timer),
        ensures
            final(self).wf(),
            final(self).strings == old(self).strings,
            final(self).base.pass == old(self).base.pass,
            final(self).base.status == (match timer {
                Timer::Blink => old(self).base.status.with_blink(),
                Timer::ShowSelection => Status {
                    show_selection_do: false,
                    dirty: true,
                    ..old(self).base.status
                },
            }),
            final(self).state == (match timer {
                Timer::Blink => old(self).state,
                Timer::ShowSelection => old(self).with_new_text(old(self).state),
            }),
    {
        match timer {
            Timer::Blink => self.base.on_blink_timeout(),
            Timer::ShowSelection => self.on_show_selection_timeout(),
        }
    }

    /// What has to be painted.
    pub fn repaint(&self) -> (r: Repaint)
        ensures
            r == super::repaint_of(self.base.status),
    {
        if self.base.status.dirty {
            Repaint::Whole
        } else if self.base.status.dirty_blink {
            Repaint::Cursor
        } else {
            Repaint::Nothing
        }
    }

    /// Puts the cursor where a click fell, and returns whether that was on the text.
    pub fn set_cursor(&mut self, hit: Hit) -> (r: bool)
        requires
            old(self).wf(),
            old(self).movable() && hit == Hit::Beside ==> old(self).base.pass.len == 0,
        ensures
            final(self).wf(),
            final(self).strings == old(self).strings,
            final(self).base.pass == old(self).base.pass,
            r == (old(self).movable() && hit is Place),
            !r ==> *final(self) == *old(self),
            r ==> final(self).state == (TextState { cursor: hit->Place_0, ..old(self).state })
                && final(self).base.status
                == old(self).base.status.with_key_pressed().with_change(),
    {
        if !self.state.show_plain && !self.strings.use_cursor() {
            return false;
        }
        match hit {
            Hit::Place(place) => {
                self.base.key_pressed();
                self.state.cursor = place;
                self.base.status.dirty = true;
                true
            },
            Hit::Beside | Hit::Outside => false,
        }
    }

    fn set_text(&mut self)
        ensures
            final(self).strings == old(self).strings,
            final(self).base.pass == old(self).base.pass,
            final(self).base.status == old(self).base.status.with_change(),
            final(self).state == old(self).with_new_text(old(self).state),
    {
        self.state.relayout = true;
        if !self.state.show_plain && self.strings.use_cursor() {
            self.state.ellipsize = Some(Ellipsize::Start);
        }
        self.base.status.dirty = true;
    }

    /// What stands for the passphrase while it is not shown.
    pub open spec fn hidden_text(self) -> Seq<char> {
        self.strings.spec_text(
            self.base.pass@.len(),
            self.base.status.show_selection_do,
        )
    }

    /// `r` is the text to show.
    pub open spec fn shows(self, r: Option<Shown>) -> bool {
        match r {
            None => !self.state.relayout,
            Some(Shown::Plain(text)) => {
                &&& self.state.relayout
                &&& self.state.show_plain
                &&& text.wf()
                &&& text@ == encode_utf8(self.base.pass@)
            },
            Some(Shown::Hidden(text)) => {
                &&& self.state.relayout
                &&& !self.state.show_plain
                &&& text@ == self.hidden_text()
            },
        }
    }

    /// The text to show, where it has changed since it was last taken.
    pub fn take_text(&mut self) -> (r: Option<Shown>)
        requires
            old(self).wf(),
        ensures
            final(self).wf(),
            final(self).base == old(self).base,
            final(self).strings == old(self).strings,
            final(self).state == (TextState { relayout: false, ..old(self).state }),
            match r {
                None => !old(self).state.relayout,
                Some(Shown::Plain(text)) => old(self).state.relayout && old(self).state.show_plain
                    && text.wf() && text@ == encode_utf8(old(self).base.pass@),
                Some(Shown::Hidden(text)) => old(self).state.relayout && !old(
                    self,
                ).state.show_plain && text@ == old(self).hidden_text(),
            },
            old(self).shows(r),
    {
        if !self.state.relayout {
            return None;
        }
        self.state.relayout = false;
        if self.state.show_plain {
            Some(Shown::Plain(self.base.pass.encode()))
        } else {
            let len: usize = self.base.pass.len;
            Some(Shown::Hidden(self.strings.set_text(len, self.base.status.show_selection_do)))
        }
    }

    /// How the cursor is painted on its own.
    pub open spec fn cursor_paint(self) -> CursorPaint {
        if !self.base.status.has_focus || !self.base.status.blink_on {
            CursorPaint::Hidden
        } else if self.movable() {
            CursorPaint::AtCursor
        } else {
            CursorPaint::AtStart
        }
    }

    /// How the cursor is painted on its own.
    pub fn blink(&self) -> (r: CursorPaint)
        ensures
            r == self.cursor_paint(),
            r == (if !self.base.status.has_focus || !self.base.status.blink_on {
                CursorPaint::Hidden
            } else if self.movable() {
                CursorPaint::AtCursor
            } else {
                CursorPaint::AtStart
            }),
    {
        if self.base.blink() {
            if self.state.show_plain || self.strings.use_cursor() {
                CursorPaint::AtCursor
            } else {
                CursorPaint::AtStart
            }
        } else {
            CursorPaint::Hidden
        }
    }
}

/// While it is not shown, the text tells nothing of a passphrase but its length.
pub proof fn lemma_hidden_text_tells_only_the_length(a: Strings, b: Strings)
    requires
        a.strings == b.strings,
        a.base.status.show_selection_do == b.base.status.show_selection_do,
        a.base.pass@.len() == b.base.pass@.len(),
    ensures
        a.hidden_text() == b.hidden_text(),
{
}

/// The passphrase is shown only where plain text was asked for, and then it is what is shown;
/// else what is shown is the same for any other passphrase of its length. A text that has
/// changed is shown, and one that has not is left.
pub proof fn lemma_what_is_shown(a: Strings, r: Option<Shown>)
    requires
        a.shows(r),
    ensures
        r is Some <==> a.state.relayout,
        r matches Some(shown) ==> (shown is Plain <==> a.state.show_plain),
        r matches Some(Shown::Plain(text)) ==> decode_utf8(text@) == a.base.pass@,
        r matches Some(Shown::Hidden(text)) ==> forall|b: Strings|
            b.strings == a.strings && b.base.status.show_selection_do
                == a.base.status.show_selection_do && b.base.pass@.len() == a.base.pass@.len()
                ==> text@ == #[trigger] b.hidden_text(),
{
    encode_utf8_decode_utf8(a.base.pass@);
}

/// The cursor is seen just while there is the focus and its phase is the one in which it is
/// shown; it stands at its place where the text has one for each character, else at the start.
pub proof fn lemma_where_the_cursor_is_seen(i: Strings)
    ensures
        i.cursor_paint() == CursorPaint::Hidden <==> !(i.base.status.has_focus
            && i.base.status.blink_on),
        i.cursor_paint() == CursorPaint::AtCursor <==> i.base.status.has_focus
            && i.base.status.blink_on && (i.strings is Asterisk || i.state.show_plain),
{
}

} // verus!
