//! What holds of the dialog whatever is done with it.
use vstd::prelude::*;

#[allow(unused_imports)]
use super::indicator::strings::{Ellipsize, Hit, LogAttr, Pointer};
#[allow(unused_imports)]
use super::indicator::texts::StringType;
#[allow(unused_imports)]
use super::indicator::{Base, Repaint, Status, Strings, Timer};
#[allow(unused_imports)]
use super::layout::Layout;
#[allow(unused_imports)]
use super::{Action, Button, Dialog, Face, Indicator, Key, KeyStep, Paint, Place, Sizing};
#[allow(unused_imports)]
use crate::keyboard::{Compose, ComposeStatus};

verus! {

/// The number of characters before which text is entered: those before the cursor of a text,
/// else all of them.
pub open spec fn entry_point(indicator: Indicator) -> int {
    match indicator {
        Indicator::Strings(i) => i.state.cursor as int,
        Indicator::Circle(i) => i.base.pass@.len() as int,
        Indicator::Classic(i) => i.base.pass@.len() as int,
    }
}

/// The two are of one kind, and text is shown in the same way.
pub open spec fn same_kind(a: Indicator, b: Indicator) -> bool {
    match (a, b) {
        (Indicator::Strings(a), Indicator::Strings(b)) => {
            &&& a.strings == b.strings
            &&& a.state.show_plain == b.state.show_plain
            &&& a.state.hover == b.state.hover
        },
        (Indicator::Circle(a), Indicator::Circle(b)) => {
            &&& a.indicator_count == b.indicator_count
            &&& a.light_up == b.light_up
            &&& a.rotate == b.rotate
        },
        (Indicator::Classic(a), Indicator::Classic(b)) => a.indicators == b.indicators,
        _ => false,
    }
}

/// Text goes in where the cursor is, and what fits of it goes in as it is: what is before the
/// cursor and what is behind it stay, and the cursor is then behind the new text. It does not
/// matter to the passphrase whether the text was typed or pasted; only what was pasted is
/// shown to be so, for a fifth of a second. Whatever went in is painted.
pub proof fn lemma_insertion(before: Indicator, s: Seq<char>, pasted: bool, after: Indicator)
    requires
        before.wf(),
        before.can_insert(),
        before.inserts(s, pasted, after),
    ensures
        ({
            let pass = before.base().pass@;
            let at = entry_point(before);
            let n = if pass.len() + s.len() <= 512 {
                s.len() as int
            } else {
                512 - pass.len()
            };
            &&& after.base().pass@ == pass.take(at) + s.take(n) + pass.skip(at)
            &&& entry_point(after) == at + n
            &&& same_kind(before, after)
            &&& n > 0 ==> after.status().dirty
            &&& n > 0 ==> (after matches Indicator::Strings(i) ==> i.state.relayout)
            &&& n > 0 && pasted ==> after.status().show_selection_do
                && after.status().show_selection_timeout == Some(200u64)
            &&& n == 0 || !pasted ==> after.status().show_selection_do
                == before.status().show_selection_do && after.status().show_selection_timeout
                == before.status().show_selection_timeout
            &&& n == 0 ==> after.status().dirty == before.status().dirty
        }),
{
    let pass = before.base().pass@;
    let at = entry_point(before);
    assert(pass.len() <= 512);
    if !(before is Strings) {
        assert(pass.take(at) =~= pass);
        assert(pass.skip(at) =~= Seq::<char>::empty());
        let n = before.base().room_for(s);
        assert(after.base().pass@ =~= pass.take(at) + s.take(n as int) + pass.skip(at));
    }
}

/// Text that is entered right after other text stands behind it, whether each was typed or
/// pasted: the two together are where the first began.
pub proof fn lemma_entered_in_order(
    before: Indicator,
    s: Seq<char>,
    s_pasted: bool,
    between: Indicator,
    t: Seq<char>,
    t_pasted: bool,
    after: Indicator,
)
    requires
        before.wf(),
        before.can_insert(),
        before.inserts(s, s_pasted, between),
        between.wf(),
        between.inserts(t, t_pasted, after),
        before.base().pass@.len() + s.len() + t.len() <= 512,
    ensures
        after.base().pass@ == before.base().pass@.take(entry_point(before)) + s + t
            + before.base().pass@.skip(entry_point(before)),
        entry_point(after) == entry_point(before) + s.len() + t.len(),
        between.can_insert(),
{
    let pass = before.base().pass@;
    let at = entry_point(before);
    lemma_insertion(before, s, s_pasted, between);
    assert(s.take(s.len() as int) =~= s);
    assert(t.take(t.len() as int) =~= t);
    let mid = between.base().pass@;
    assert(mid =~= pass.take(at) + s + pass.skip(at));
    if let Indicator::Strings(i) = between {
        assert(i.base.pass@.len() == i.base.pass.len);
    }
    lemma_insertion(between, t, t_pasted, after);
    assert(mid.take(at + s.len()) =~= pass.take(at) + s);
    assert(mid.skip(at + s.len()) =~= pass.skip(at));
    assert(after.base().pass@ =~= pass.take(at) + s + t + pass.skip(at));
}

/// Backspace deletes just before the cursor and leaves the cursor there: one character where
/// the text says so, else all back to the last place at which a cursor can stand. Without a
/// cursor it deletes the last character. Where there is nothing to delete it changes nothing,
/// else the picture is painted anew.
pub proof fn lemma_backspace(before: Indicator, attrs: Seq<LogAttr>, after: Indicator)
    requires
        before.wf(),
        before matches Indicator::Strings(i) ==> i.can_delete(attrs),
        before.deletes(attrs, after),
    ensures
        ({
            let pass = before.base().pass@;
            let at = entry_point(before);
            let to = entry_point(after);
            &&& same_kind(before, after)
            &&& at == 0 ==> after.base().pass@ == pass && to == 0 && after.status().dirty
                == before.status().dirty
            &&& at > 0 ==> {
                &&& 0 <= to < at
                &&& after.base().pass@ == pass.take(to) + pass.skip(at)
                &&& after.status().dirty
            }
            &&& at > 0 && before is Strings ==> {
                &&& after->Strings_0.state.relayout
                &&& attrs[at].backspace_deletes_character ==> to == at - 1
                &&& !attrs[at].backspace_deletes_character ==> to == 0
                    || attrs[to].is_cursor_position
                &&& !attrs[at].backspace_deletes_character ==> forall|j: int|
                    to < j < at ==> !(#[trigger] attrs[j]).is_cursor_position
            }
            &&& at > 0 && !(before is Strings) ==> to == at - 1
            &&& after.status().show_selection_do == before.status().show_selection_do
        }),
{
    let pass = before.base().pass@;
    let at = entry_point(before);
    if !(before is Strings) && at > 0 {
        assert(pass.drop_last() =~= pass.take(at - 1) + pass.skip(at));
    }
}

/// Clearing leaves nothing of a passphrase, with the cursor at its start, and paints that.
/// Clearing again changes no more.
pub proof fn lemma_clearing(before: Indicator, after: Indicator)
    requires
        before.wf(),
        before.clears(after),
    ensures
        after.base().pass@.len() == 0,
        same_kind(before, after),
        before.base().pass@.len() > 0 ==> after.status().dirty && entry_point(after) == 0 && (
        after matches Indicator::Strings(i) ==> i.state.relayout),
        before.base().pass@.len() == 0 ==> after.status().dirty == before.status().dirty
            && entry_point(after) == entry_point(before),
        after.status().show_selection_do == before.status().show_selection_do,
{
}

/// The cursor is shown, and its phase starts anew, where it blinks at all; the focus, and
/// whether it blinks, stay.
pub open spec fn shows_cursor(before: Status, after: Status) -> bool {
    &&& after.has_focus == before.has_focus
    &&& after.blink_do == before.blink_do
    &&& after.blink_enabled == before.blink_enabled
    &&& if before.blink_enabled {
        &&& after.blink_on
        &&& after.blink_timeout == Some(800u64)
        &&& after.dirty_blink == (before.dirty_blink || !before.blink_on)
    } else {
        &&& after.blink_on == before.blink_on
        &&& after.blink_timeout == before.blink_timeout
        &&& after.dirty_blink == before.dirty_blink
    }
}

/// Whatever is done to the text, the cursor is shown from then on for a whole phase: the user
/// sees where it went.
pub proof fn lemma_input_shows_cursor(
    before: Indicator,
    s: Seq<char>,
    pasted: bool,
    attrs: Seq<LogAttr>,
    after: Indicator,
)
    requires
        before.inserts(s, pasted, after) || before.deletes(attrs, after) || before.clears(after),
    ensures
        shows_cursor(before.status(), after.status()),
{
}

/// A click on the text puts the cursor where it fell and shows it there, where the text has a
/// place for each character; any other click leaves the indicator as it is. The passphrase
/// stays.
pub proof fn lemma_click_places_cursor(before: Indicator, hit: Hit)
    ensures
        before.with_click(hit).base().pass == before.base().pass,
        same_kind(before, before.with_click(hit)),
        before matches Indicator::Strings(i) && (i.strings is Asterisk || i.state.show_plain)
            && hit is Place ==> {
            let after = before.with_click(hit);
            &&& before.takes_click(hit)
            &&& entry_point(after) == hit->Place_0
            &&& after.status().dirty
            &&& shows_cursor(before.status(), after.status())
            &&& after.status().show_selection_do == before.status().show_selection_do
        },
        !(before is Strings) || !(hit is Place) || (before matches Indicator::Strings(i) && !(
        i.strings is Asterisk) && !i.state.show_plain) ==> before.with_click(hit) == before
            && !before.takes_click(hit),
{
}

/// A move puts the cursor where the text has it: behind as many characters as there are in the
/// bytes before the place that was found, and those that trail it. At either end of the text
/// it stays. Where the text has no place for each character nothing moves, and the passphrase
/// stays in any case.
pub proof fn lemma_move_places_cursor(
    before: Indicator,
    idx: i32,
    trailing: i32,
    text: Seq<char>,
    after: Indicator,
)
    requires
        before.moves(idx, trailing, text, after),
    ensures
        after.base().pass == before.base().pass,
        same_kind(before, after),
        before matches Indicator::Strings(i) && (i.strings is Asterisk || i.state.show_plain)
            ==> {
            &&& shows_cursor(before.status(), after.status())
            &&& idx == -1 || idx == i32::MAX ==> entry_point(after) == entry_point(before)
                && after.status().dirty == before.status().dirty
            &&& idx != -1 && idx != i32::MAX ==> {
                &&& after.status().dirty
                &&& trailing <= entry_point(after) < text.len() + trailing
                &&& vstd::utf8::encode_utf8(text.take(entry_point(after) - trailing)).len() == idx
            }
        },
        !(before matches Indicator::Strings(i) && (i.strings is Asterisk || i.state.show_plain))
            ==> after == before,
{
}

/// Switching plain text shows the passphrase where it was hidden and hides it where it was
/// shown, so that switching twice changes nothing of that; the passphrase and the cursor stay,
/// and the text is made anew. Plain text is cut in its middle where it is too long, a row of
/// strings at its start.
pub proof fn lemma_switching_plain_text(before: Strings, between: Strings, after: Strings)
    requires
        before.toggles(between),
        between.toggles(after),
    ensures
        between.state.show_plain == !before.state.show_plain,
        after.state.show_plain == before.state.show_plain,
        between.base.pass == before.base.pass,
        between.strings == before.strings,
        between.state.cursor == before.state.cursor,
        between.state.hover == before.state.hover,
        between.state.relayout && between.base.status.dirty,
        between.state.show_plain ==> between.state.ellipsize == Some(Ellipsize::Middle),
        !between.state.show_plain && before.strings is Asterisk ==> between.state.ellipsize
            == Some(Ellipsize::Start),
        between.base.status == (Status { dirty: true, ..before.base.status }),
{
}

/// What is shown while the passphrase is hidden is what the strings have for its length.
pub proof fn lemma_hidden_text(strings: Strings)
    ensures
        strings.hidden_text() == (match strings.strings {
            StringType::Disco(disco) => disco.spec_text(
                strings.base.pass@.len(),
                strings.base.status.show_selection_do,
            ),
            StringType::Custom(custom) => custom.spec_text(
                strings.base.pass@.len(),
                strings.base.status.show_selection_do,
            ),
            StringType::Asterisk(asterisk) => crate::text::repeated(
                asterisk.asterisk@,
                strings.base.pass@.len(),
            ),
        }),
{
}

/// When its time is over, what was pasted is no longer shown to be so, and that is painted; a
/// text is made anew. The timer of the cursor changes nothing but the cursor's phase. Neither
/// touches the passphrase or moves the cursor.
pub proof fn lemma_timers(before: Indicator, timer: Timer)
    ensures
        before.with_timer(timer).base().pass == before.base().pass,
        same_kind(before, before.with_timer(timer)),
        entry_point(before.with_timer(timer)) == entry_point(before),
        timer == Timer::ShowSelection ==> {
            let after = before.with_timer(timer);
            &&& after.status() == (Status {
                show_selection_do: false,
                dirty: true,
                ..before.status()
            })
            &&& after matches Indicator::Strings(i) ==> i.state.relayout
        },
        timer == Timer::Blink ==> {
            let after = before.with_timer(timer);
            &&& after.status().blink_on != before.status().blink_on
            &&& after.status() == (Status {
                blink_on: !before.status().blink_on,
                dirty_blink: true,
                blink_timeout: Some(
                    if before.status().blink_on {
                        400u64
                    } else {
                        800u64
                    },
                ),
                ..before.status()
            })
            &&& after matches Indicator::Strings(i) ==> i.state == before->Strings_0.state
        },
        before.base().spec_awaits(Timer::Blink) == before.status().blink_do,
        before.base().spec_awaits(Timer::ShowSelection) == before.status().show_selection_do,
{
}

/// The pointer becomes that for text when the mouse comes over text in which the cursor can
/// move, and the usual one when it leaves it; while it stays on one side the pointer stays.
pub proof fn lemma_pointer_follows(before: Indicator, hover: bool)
    ensures
        before matches Indicator::Strings(i) && (i.strings is Asterisk || i.state.show_plain)
            ==> {
            &&& before.with_hover(hover)->Strings_0.state.hover == hover
            &&& hover && !before->Strings_0.state.hover <==> before.pointer_for(hover) == Some(Pointer::Input)
            &&& !hover && before->Strings_0.state.hover <==> before.pointer_for(hover) == Some(Pointer::Default)
        },
        before.with_hover(hover).pointer_for(hover) is None,
        !(before matches Indicator::Strings(i) && (i.strings is Asterisk || i.state.show_plain))
            ==> before.with_hover(hover) == before && before.pointer_for(hover) is None,
        before.with_hover(hover).base() == before.base(),
        entry_point(before.with_hover(hover)) == entry_point(before),
{
}

/// All but the buttons, the indicator, what is held and the timer for input is the same.
pub open spec fn same_window(a: Dialog, b: Dialog) -> bool {
    &&& a.background == b.background
    &&& a.background_original == b.background_original
    &&& a.input_timeout_duration == b.input_timeout_duration
    &&& a.input_timeout_started == b.input_timeout_started
    &&& a.uses_cursor == b.uses_cursor
    &&& a.transparency == b.transparency
    &&& a.dirty == b.dirty
}

/// The timer for input starts anew with its whole time, where there is one.
pub open spec fn restarts(before: Dialog, after: Dialog) -> bool {
    after.input_timeout == (if before.input_timeout_duration is Some {
        before.input_timeout_duration
    } else {
        before.input_timeout
    })
}

/// The buttons are the same but for the one at `i`, of which only what is held, what is
/// switched and what has to be painted may differ.
pub open spec fn same_but(a: Seq<Button>, b: Seq<Button>, i: int) -> bool {
    &&& a.len() == b.len()
    &&& forall|j: int| 0 <= j < a.len() && j != i ==> #[trigger] b[j] == a[j]
    &&& b[i].hover == a[i].hover
}

/// A button of the mouse that is neither the left nor the middle one never does anything,
/// wherever it is pressed or released: only the timer for input starts anew.
pub proof fn lemma_other_mouse_buttons(
    before: Dialog,
    button: u8,
    place: Place,
    isrelease: bool,
    r: Action,
    after: Dialog,
)
    requires
        button != 1,
        button != 2,
        before.handles_click(button, place, isrelease, r, after),
    ensures
        r == Action::Nothing,
        after.buttons == before.buttons,
        after.indicator == before.indicator,
        after.button_pressed == before.button_pressed,
        after.mouse_middle_pressed == before.mouse_middle_pressed,
        same_window(before, after),
        restarts(before, after),
{
}

/// The middle button of the mouse, pressed and then released over the dialog, asks once for
/// what was selected with the mouse, wherever it was pressed; released elsewhere it does
/// nothing. A release without a press does nothing either. It never touches the buttons of the
/// dialog or its indicator.
pub proof fn lemma_middle_button(
    before: Dialog,
    pressed_at: Place,
    first: Action,
    pressed: Dialog,
    released_at: Place,
    second: Action,
    released: Dialog,
    third: Action,
    after: Dialog,
)
    requires
        before.handles_click(2, pressed_at, false, first, pressed),
        pressed.handles_click(2, released_at, true, second, released),
        released.handles_click(2, released_at, true, third, after),
    ensures
        first == Action::Nothing,
        pressed.mouse_middle_pressed,
        second == (if released_at.dialog {
            Action::PastePrimary
        } else {
            Action::Nothing
        }),
        !released.mouse_middle_pressed,
        third == Action::Nothing,
        !after.mouse_middle_pressed,
        pressed.buttons == before.buttons && released.buttons == before.buttons,
        pressed.indicator == before.indicator && released.indicator == before.indicator,
        after.buttons == before.buttons && after.indicator == before.indicator,
        released.button_pressed == before.button_pressed,
        same_window(before, pressed) && same_window(before, released),
        restarts(before, pressed) && restarts(before, released),
{
}

/// The left button of the mouse, when it is pressed, does one thing: on text with places for
/// the cursor it puts the cursor there, else it holds down the first button of the dialog that
/// is under it, if there is one. Nothing is done with that button before it is let go.
pub proof fn lemma_left_press(before: Dialog, place: Place, r: Action, after: Dialog, i: int)
    requires
        before.wf(),
        before.place_ok(place),
        before.handles_click(1, place, false, r, after),
        0 <= i < place.buttons@.len() ==> place.buttons@[i] && forall|j: int|
            0 <= j < i ==> !#[trigger] place.buttons@[j],
        i == place.buttons@.len() ==> forall|j: int|
            0 <= j < i ==> !#[trigger] place.buttons@[j],
        0 <= i <= place.buttons@.len(),
    ensures
        r == Action::Nothing,
        same_window(before, after),
        restarts(before, after),
        after.mouse_middle_pressed == before.mouse_middle_pressed,
        after.indicator.base().pass == before.indicator.base().pass,
        ({
            let on_text = place.hit is Place && (before.indicator matches Indicator::Strings(s) && (
            s.strings is Asterisk || s.state.show_plain));
            &&& on_text ==> entry_point(after.indicator) == place.hit->Place_0
            &&& !on_text ==> after.indicator == before.indicator
            &&& on_text || i == place.buttons@.len() ==> after.buttons@ == before.buttons@
                && after.button_pressed == before.button_pressed
            &&& !on_text && i < place.buttons@.len() ==> {
                &&& after.button_pressed
                &&& same_but(before.buttons@, after.buttons@, i)
                &&& after.buttons@[i].pressed
                &&& after.buttons@[i].toggled == before.buttons@[i].toggled
                &&& after.buttons@[i].dirty == (before.buttons@[i].dirty
                    || !before.buttons@[i].pressed)
            }
        }),
{
    if !before.indicator.takes_click(place.hit) && i < place.buttons@.len() {
        let input = before.with_input();
        assert(input.presses(place, r, after));
        assert(super::first_set(place.buttons@, i));
        let k = choose|k: int| #[trigger]
            super::first_set(place.buttons@, k) && after.buttons@ == input.buttons@.update(
                k,
                input.buttons@[k].with_pressed(true),
            );
        super::lemma_first_set_unique(place.buttons@, i, k);
    }
}

/// The left button of the mouse, when it is released, lets go of the button of the dialog that
/// is held down. Where the mouse is still on that button it does what it is for: the first
/// accepts, the second cancels, the third pastes the clipboard, the fourth switches plain text.
/// Where the mouse is elsewhere, or no button is held, nothing is done.
pub proof fn lemma_left_release(before: Dialog, place: Place, r: Action, after: Dialog, i: int)
    requires
        before.wf(),
        before.place_ok(place),
        before.handles_click(1, place, true, r, after),
        0 <= i <= before.buttons@.len(),
        i < before.buttons@.len() ==> before.buttons@[i].pressed,
        forall|j: int| 0 <= j < i ==> !(#[trigger] before.buttons@[j]).pressed,
    ensures
        same_window(before, after),
        restarts(before, after),
        after.mouse_middle_pressed == before.mouse_middle_pressed,
        !after.button_pressed,
        after.indicator.base().pass == before.indicator.base().pass,
        i == before.buttons@.len() ==> r == Action::Nothing && after.buttons@ == before.buttons@
            && after.indicator == before.indicator,
        i < before.buttons@.len() ==> {
            &&& same_but(before.buttons@, after.buttons@, i)
            &&& !after.buttons@[i].pressed
            &&& after.buttons@[i].dirty
        },
        i < before.buttons@.len() && place.buttons@[i] ==> {
            &&& i == 0 ==> r == Action::Accept
            &&& i == 1 ==> r == Action::Cancel
            &&& i == 2 ==> r == Action::PasteClipboard
            &&& i == 3 ==> r == Action::Nothing && after.buttons@[3].toggled
                != before.buttons@[3].toggled
            &&& i == 3 ==> (before.indicator matches Indicator::Strings(a)
                && after.indicator matches Indicator::Strings(b) && b.state.show_plain
                != a.state.show_plain)
        },
        i < before.buttons@.len() && !place.buttons@[i] ==> r == Action::Nothing,
        i < before.buttons@.len() && (i != 3 || !place.buttons@[i]) ==> after.indicator
            == before.indicator && after.buttons@[i].toggled == before.buttons@[i].toggled,
{
    let input = before.with_input();
    let down = super::held(input.buttons@);
    if i < before.buttons@.len() {
        assert(down[i]);
        assert forall|j: int| 0 <= j < i implies !#[trigger] down[j] by {
            assert(!before.buttons@[j].pressed);
        }
        assert(super::first_set(down, i));
        if i == 3 && place.buttons@[i] {
            assert(!input.releases(place.buttons@, r, after)) by {
                if input.releases(place.buttons@, r, after) {
                    lemma_let_go(input, place.buttons@, r, after, i);
                }
            }
            let mid = choose|mid: Dialog|
                #![trigger mid.switches_plaintext(after)]
                before.clicked(1, place, true, Action::PlainText, mid) && mid.switches_plaintext(
                    after,
                );
            assert(input.releases(place.buttons@, Action::PlainText, mid));
            lemma_let_go(input, place.buttons@, Action::PlainText, mid, i);
        } else {
            assert forall|mid: Dialog| !#[trigger] input.releases(
                place.buttons@,
                Action::PlainText,
                mid,
            ) by {
                if input.releases(place.buttons@, Action::PlainText, mid) {
                    lemma_let_go(input, place.buttons@, Action::PlainText, mid, i);
                }
            }
            assert(input.releases(place.buttons@, r, after));
            lemma_let_go(input, place.buttons@, r, after, i);
        }
    } else {
        assert forall|j: int| 0 <= j < down.len() implies !#[trigger] down[j] by {
            assert(!before.buttons@[j].pressed);
        }
        assert(super::none_set(down));
    }
}

/// The first button that is held down is the one that is let go.
proof fn lemma_let_go(before: Dialog, inside: Seq<bool>, r: Action, after: Dialog, i: int)
    requires
        before.releases(inside, r, after),
        super::first_set(super::held(before.buttons@), i),
    ensures
        after.buttons@ == before.buttons@.update(i, before.buttons@[i].with_pressed(false)),
        r == (if inside[i] {
            super::action_of(i)
        } else {
            Action::Nothing
        }),
{
    let down = super::held(before.buttons@);
    assert(down[i]);
    let k = choose|k: int| #[trigger]
        super::first_set(down, k) && after.buttons@ == before.buttons@.update(
            k,
            before.buttons@[k].with_pressed(false),
        ) && r == (if inside[k] {
            super::action_of(k)
        } else {
            Action::Nothing
        });
    super::lemma_first_set_unique(down, i, k);
}

/// A button of the dialog that is clicked, pressed and let go with the left button of the mouse
/// on it, does what it is for, once: accept, cancel, paste the clipboard, or switch plain text.
/// One that is left before the mouse is let go does nothing. After that none is held down.
pub proof fn lemma_button_clicked(
    before: Dialog,
    pressed_at: Place,
    first: Action,
    pressed: Dialog,
    released_at: Place,
    second: Action,
    after: Dialog,
    i: int,
)
    requires
        before.wf(),
        before.place_ok(pressed_at),
        forall|j: int| 0 <= j < before.buttons@.len() ==> !(#[trigger] before.buttons@[j]).pressed,
        !(pressed_at.hit is Place),
        0 <= i < pressed_at.buttons@.len(),
        pressed_at.buttons@[i],
        forall|j: int| 0 <= j < i ==> !#[trigger] pressed_at.buttons@[j],
        before.handles_click(1, pressed_at, false, first, pressed),
        pressed.wf(),
        pressed.place_ok(released_at),
        pressed.handles_click(1, released_at, true, second, after),
    ensures
        first == Action::Nothing,
        released_at.buttons@[i] && i == 0 ==> second == Action::Accept,
        released_at.buttons@[i] && i == 1 ==> second == Action::Cancel,
        released_at.buttons@[i] && i == 2 ==> second == Action::PasteClipboard,
        released_at.buttons@[i] && i == 3 ==> second == Action::Nothing && (
        before.indicator matches Indicator::Strings(a)
            && after.indicator matches Indicator::Strings(b) && b.state.show_plain
            != a.state.show_plain),
        !released_at.buttons@[i] ==> second == Action::Nothing && after.indicator
            == before.indicator,
        forall|j: int| 0 <= j < after.buttons@.len() ==> !(#[trigger] after.buttons@[j]).pressed,
        !after.button_pressed,
        after.indicator.base().pass == before.indicator.base().pass,
{
    lemma_left_press(before, pressed_at, first, pressed, i);
    assert forall|j: int| 0 <= j < i implies !(#[trigger] pressed.buttons@[j]).pressed by {
        assert(pressed.buttons@[j] == before.buttons@[j]);
    }
    lemma_left_release(pressed, released_at, second, after, i);
    assert forall|j: int| 0 <= j < after.buttons@.len() implies !(
    #[trigger] after.buttons@[j]).pressed by {
        if j != i {
            assert(after.buttons@[j] == pressed.buttons@[j]);
            assert(pressed.buttons@[j] == before.buttons@[j]);
        }
    }
}

/// A move of the mouse lights the first button under it, and takes the light from all others.
/// While a button is held down no other is lit. Over no button, the pointer follows the
/// indicator. Nothing else changes: not what is held or switched, nor the timer for input. A
/// button is painted where its light changes.
pub proof fn lemma_motion(
    before: Dialog,
    place: Place,
    r: Option<Pointer>,
    after: Dialog,
    i: int,
)
    requires
        place.buttons@.len() == before.buttons@.len(),
        before.handles_motion(place, r, after),
        0 <= i < before.buttons@.len(),
    ensures
        after.buttons@.len() == before.buttons@.len(),
        after.buttons@[i].hover <==> {
            &&& place.buttons@[i]
            &&& forall|j: int| 0 <= j < i ==> !#[trigger] place.buttons@[j]
            &&& before.button_pressed ==> before.buttons@[i].pressed
            &&& before.buttons@[i].pressed ==> before.button_pressed
        },
        after.buttons@[i].dirty == (before.buttons@[i].dirty || before.buttons@[i].hover
            != after.buttons@[i].hover),
        after.buttons@[i].pressed == before.buttons@[i].pressed,
        after.buttons@[i].toggled == before.buttons@[i].toggled,
        after.button_pressed == before.button_pressed,
        after.mouse_middle_pressed == before.mouse_middle_pressed,
        after.input_timeout == before.input_timeout,
        same_window(before, after),
        after.indicator.base() == before.indicator.base(),
        entry_point(after.indicator) == entry_point(before.indicator),
        ({
            let over = place.indicator && forall|j: int|
                0 <= j < place.buttons@.len() ==> !#[trigger] place.buttons@[j];
            before.indicator matches Indicator::Strings(s) && (s.strings is Asterisk
                || s.state.show_plain) ==> {
                let was = before.indicator->Strings_0.state.hover;
                &&& after.indicator->Strings_0.state.hover == over
                &&& r == (if over == was {
                    None
                } else if over {
                    Some(Pointer::Input)
                } else {
                    Some(Pointer::Default)
                })
            }
        }),
        !(before.indicator matches Indicator::Strings(s) && (s.strings is Asterisk
            || s.state.show_plain)) ==> r is None && after.indicator == before.indicator,
{
    assert(super::none_set(place.buttons@) == forall|j: int|
        0 <= j < place.buttons@.len() ==> !#[trigger] place.buttons@[j]);
}

/// A button looks held down while it is held with the mouse on it, and where it is switched on
/// with the mouse elsewhere. With the mouse on it and not held it is lit; else it looks as
/// usual.
pub proof fn lemma_button_looks(button: Button)
    ensures
        button.face() == Face::Hover <==> button.hover && !button.pressed,
        button.face() == Face::Normal <==> !button.hover && !button.toggled,
        button.face() == Face::Pressed <==> (button.hover && button.pressed) || (!button.hover
            && button.toggled),
{
}

/// The symbol that a key stands for: the one that was composed, where composing took the key
/// and has made one, else that of the key itself, unless composing waits for more keys or was
/// given up.
pub open spec fn stands_for(key: Key, sym: u32, composed: bool) -> bool {
    match key.compose {
        Some(c) if c.accepted && c.status == ComposeStatus::Composed => sym == c.sym && composed,
        Some(c) if c.accepted && c.status != ComposeStatus::Nothing => false,
        _ => sym == key.sym && !composed,
    }
}

/// A key whose symbol is none of those with a meaning of their own, with Control not held,
/// enters its text, with Shift held or not, and does nothing else.
pub proof fn lemma_ordinary_keys_are_text(
    before: Dialog,
    key: Key,
    sym: u32,
    composed: bool,
    r: KeyStep,
    after: Dialog,
)
    requires
        stands_for(key, sym, composed),
        !key.ctrl,
        // Return, the Enter of the keypad, Escape and BackSpace
        sym != 0xff0d && sym != 0xff8d && sym != 0xff1b && sym != 0xff08,
        // Left, Right and Insert
        sym != 0xff51 && sym != 0xff53 && sym != 0xff63,
        before.handles_key(key, r, after),
    ensures
        r == (KeyStep::Text { composed }),
        after.indicator == before.indicator,
        after.buttons == before.buttons,
{
}

/// Each key with a meaning of its own has just that: which of them accept, cancel, delete, move
/// the cursor and paste, and that all others enter their text.
pub proof fn lemma_what_keys_ask_for(
    before: Dialog,
    key: Key,
    sym: u32,
    composed: bool,
    r: KeyStep,
    after: Dialog,
)
    requires
        stands_for(key, sym, composed),
        before.handles_key(key, r, after),
    ensures
        r == KeyStep::Done(Action::Accept) <==> sym == 0xff0d || sym == 0xff8d || (key.ctrl && (sym
            == 'j' as u32 || sym == 'm' as u32)),
        r == KeyStep::Done(Action::Cancel) <==> sym == 0xff1b,
        r == KeyStep::Done(Action::PastePrimary) <==> sym == 0xff63 && key.shift,
        r == KeyStep::Done(Action::PasteClipboard) <==> key.ctrl && sym == 'v' as u32,
        r == KeyStep::Done(Action::Nothing) <==> key.ctrl && sym == 'u' as u32,
        r != KeyStep::Done(Action::PlainText),
        r != KeyStep::ResetCompose,
        r is Delete <==> sym == 0xff08 || (key.ctrl && sym == 'h' as u32),
        r matches KeyStep::Delete { word } ==> word == (key.ctrl && sym == 0xff08),
        r is Move <==> sym == 0xff51 || sym == 0xff53,
        r matches KeyStep::Move { direction, word } ==> word == key.ctrl && (direction
            == super::indicator::strings::Direction::Left <==> sym == 0xff51),
        r matches KeyStep::Text { composed: c } ==> c == composed,
        // only one key changes anything at once: it clears the passphrase
        key.ctrl && sym == 'u' as u32 ==> after.indicator.base().pass@.len() == 0,
        !(key.ctrl && sym == 'u' as u32) ==> after.indicator == before.indicator,
        after.buttons == before.buttons,
        after.button_pressed == before.button_pressed,
        after.mouse_middle_pressed == before.mouse_middle_pressed,
        same_window(before, after),
        restarts(before, after),
{
}

/// Shift matters to no key but Insert.
pub proof fn lemma_shift_matters_to_insert_alone(
    before: Dialog,
    key: Key,
    other: Key,
    sym: u32,
    composed: bool,
    r: KeyStep,
    s: KeyStep,
    after: Dialog,
    later: Dialog,
)
    requires
        stands_for(key, sym, composed),
        other == (Key { shift: !key.shift, ..key }),
        before.handles_key(key, r, after),
        before.handles_key(other, s, later),
    ensures
        sym != 0xff63 ==> r == s,
        sym == 0xff63 ==> r != s,
{
}

/// While keys are being composed each of them waits, and where composing is given up it starts
/// anew; neither enters or changes anything. A key that composing does not take, or makes
/// nothing of, stands for itself.
pub proof fn lemma_composing(before: Dialog, key: Key, c: Compose, r: KeyStep, after: Dialog)
    requires
        key.compose == Some(c),
        before.handles_key(key, r, after),
    ensures
        c.accepted && c.status == ComposeStatus::Composing ==> r == KeyStep::Done(Action::Nothing),
        c.accepted && c.status == ComposeStatus::Cancelled <==> r == KeyStep::ResetCompose,
        c.accepted && (c.status == ComposeStatus::Composing || c.status
            == ComposeStatus::Cancelled) ==> after.indicator == before.indicator && after.buttons
            == before.buttons && after.button_pressed == before.button_pressed
            && after.mouse_middle_pressed == before.mouse_middle_pressed && same_window(
            before,
            after,
        ),
        restarts(before, after),
        !c.accepted || c.status == ComposeStatus::Nothing ==> before.handles_key(
            Key { compose: None, ..key },
            r,
            after,
        ),
{
}

/// A dialog is up to date only where nothing on it is out of date: not its background, not its
/// indicator or the cursor there, and no button.
pub proof fn lemma_what_is_out_of_date(dialog: Dialog)
    ensures
        dialog.is_painted() <==> {
            &&& !dialog.dirty
            &&& !dialog.indicator.base().status.dirty
            &&& !dialog.indicator.base().status.dirty_blink
            &&& forall|i: int| 0 <= i < dialog.buttons@.len() ==> !(#[trigger] dialog.buttons@[i]).dirty
        },
{
}

/// Just what is out of date is painted: everything where the background is, else the indicator
/// or its cursor, and the buttons.
pub proof fn lemma_what_is_painted(dialog: Dialog, paint: Paint, i: int)
    requires
        dialog.needs(paint),
        0 <= i < dialog.buttons@.len(),
    ensures
        dialog.dirty <==> paint is Everything,
        paint matches Paint::Parts { indicator, buttons } ==> {
            &&& dialog.indicator.base().status.dirty <==> indicator == Repaint::Whole
            &&& !dialog.indicator.base().status.dirty
                && dialog.indicator.base().status.dirty_blink <==> indicator == Repaint::Cursor
            &&& buttons@.len() == dialog.buttons@.len()
            &&& buttons@[i] == dialog.buttons@[i].dirty
        },
{
}

/// After it has been painted a dialog is up to date, and nothing else of it has changed.
pub proof fn lemma_painting_changes_nothing_else(before: Dialog, after: Dialog, i: int)
    requires
        before.paints(after),
        0 <= i < before.buttons@.len(),
    ensures
        !after.dirty,
        !after.indicator.base().status.dirty,
        !after.indicator.base().status.dirty_blink,
        after.buttons@.len() == before.buttons@.len(),
        after.buttons@[i] == (Button { dirty: false, ..before.buttons@[i] }),
        after.indicator.base().pass == before.indicator.base().pass,
        after.indicator.base().status == (Status {
            dirty: false,
            dirty_blink: false,
            ..before.indicator.base().status
        }),
        same_kind(before.indicator, after.indicator),
        after.indicator matches Indicator::Circle(ring) ==> !ring.paint_pending,
        entry_point(after.indicator) == entry_point(before.indicator),
        after.button_pressed == before.button_pressed,
        after.mouse_middle_pressed == before.mouse_middle_pressed,
        after.input_timeout == before.input_timeout,
        same_window(Dialog { dirty: false, ..before }, after),
{
}

/// Where something shows through the window the background has the opacity that was configured,
/// else it is opaque; its colour stays. What changes is painted, and a dialog that was
/// configured opaque, or is as it should be, does not change.
pub proof fn lemma_background_follows_compositor(dialog: Dialog, enable: bool)
    ensures
        ({
            let after = dialog.with_transparency(enable);
            let original = dialog.background_original;
            if dialog.transparency != enable && original.alpha < 255 {
                &&& after.transparency == enable
                &&& after.dirty
                &&& after.background.red == original.red
                &&& after.background.green == original.green
                &&& after.background.blue == original.blue
                &&& after.background.alpha == (if enable {
                    original.alpha
                } else {
                    255
                })
                &&& after == (Dialog {
                    transparency: enable,
                    dirty: true,
                    background: after.background,
                    ..dialog
                })
            } else {
                after == dialog
            }
        }),
{
}

/// Every dialog has the buttons to accept and to cancel. Only one that is centred has more: one
/// for the clipboard, and one for plain text where its indicator can show that. The label of the
/// indicator is only beside a ring.
pub proof fn lemma_parts(layout: Layout, indicator: Indicator)
    ensures
        layout != Layout::Center ==> super::layout::button_count(layout.spec_parts(indicator)) == 2,
        layout == Layout::Center && indicator is Strings ==> super::layout::button_count(
            layout.spec_parts(indicator),
        ) == 4,
        layout == Layout::Center && !(indicator is Strings) ==> super::layout::button_count(
            layout.spec_parts(indicator),
        ) == 3,
        layout.spec_parts(indicator).indicator_label <==> layout == Layout::Center
            && indicator is Circle,
        layout.spec_parts(indicator).plaintext_button ==> layout.spec_parts(
            indicator,
        ).clipboard_button,
{
}

/// A step of the turning of a ring is painted when one is to be made; no other indicator moves.
pub proof fn lemma_next_frame(before: Indicator, moving: bool)
    ensures
        ({
            let after = before.with_next_frame(moving);
            &&& after.base().pass == before.base().pass
            &&& before matches Indicator::Circle(a) ==> {
                &&& after is Circle
                &&& after->Circle_0.paint_pending == moving
                &&& moving ==> after.status() == (Status { dirty: true, ..before.status() })
                &&& !moving ==> after.status() == before.status()
                &&& same_kind(before, after)
            }
            &&& !(before is Circle) ==> after == before
        }),
{
}

/// The focus, and all that comes with it, is that of the indicator alone.
pub proof fn lemma_status_is_apart(indicator: Indicator, status: Status)
    ensures
        indicator.with_status(status).base() == (Base { status, ..indicator.base() }),
        same_kind(indicator, indicator.with_status(status)),
        entry_point(indicator.with_status(status)) == entry_point(indicator),
{
}

/// Fitting an indicator to a width changes how many elements it shows and nothing else, and
/// tells just what the width then follows from: the elements that were added, or the texts that
/// have to fit. A ring always has its width.
pub proof fn lemma_fitting_a_width(
    before: Indicator,
    wanted: u16,
    r: Sizing,
    after: Indicator,
    len: nat,
)
    requires
        before.can_size(wanted),
        before.sizes(wanted, r, after),
    ensures
        after.base() == before.base(),
        entry_point(after) == entry_point(before),
        before is Circle ==> r is Fixed && after == before,
        before matches Indicator::Classic(a) ==> {
            &&& after matches Indicator::Classic(b) && r matches Sizing::Elements(n) && {
                &&& b.indicators == a.indicators + n
                &&& n == super::indicator::clamped(wanted, a.min_count, a.max_count)
                &&& b.min_count == a.min_count && b.max_count == a.max_count
            }
        },
        before matches Indicator::Strings(a) ==> {
            &&& after matches Indicator::Strings(b) && r matches Sizing::Texts(texts) && {
                &&& b.state == a.state
                &&& a.strings matches StringType::Asterisk(x) ==> {
                    &&& b.strings matches StringType::Asterisk(y) && {
                        &&& y.asterisk == x.asterisk
                        &&& y.count == super::indicator::clamped(wanted, x.min_count, x.max_count)
                        &&& texts@.len() == 1 && texts@[0]@.len() == y.count * x.asterisk@.len()
                        &&& y.min_count == x.min_count && y.max_count == x.max_count
                    }
                }
                &&& a.strings matches StringType::Custom(x) ==> {
                    &&& b.strings == a.strings
                    &&& texts@.len() == x.strings@.len()
                    &&& forall|l: int|
                        0 <= l < texts@.len() ==> (#[trigger] texts@[l])@ == x.strings@[l]@
                }
                &&& a.strings matches StringType::Disco(x) ==> {
                    &&& b.strings matches StringType::Disco(y) && {
                        &&& y.config == x.config
                        &&& y.dancer_count == super::indicator::clamped(
                            wanted,
                            x.config.min_count,
                            x.config.max_count,
                        )
                        &&& exists|l: int|
                            0 <= l < texts@.len() && (#[trigger] texts@[l])@ == y.spec_text(
                                len,
                                false,
                            )
                    }
                }
            }
        },
{
    if let Indicator::Strings(a) = before {
        let b = after->Strings_0;
        let texts = r->Texts_0@;
        match a.strings {
            StringType::Asterisk(x) => {
                crate::text::lemma_repeated(
                    x.asterisk@,
                    super::indicator::clamped(wanted, x.min_count, x.max_count) as nat,
                );
            },
            StringType::Disco(_) => {
                let y = b.strings->Disco_0;
                super::indicator::texts::lemma_room_for_every_pose(y, len);
                let widths = y.spec_widths();
                let l = choose|l: int| 0 <= l < widths.len() && widths[l] == y.spec_text(len, false);
                assert(texts[l]@ == widths[l]);
            },
            StringType::Custom(_) => {},
        }
    }
}

/// What is typed goes in where the cursor is and is not taken for what was pasted; a key without
/// text enters nothing. Nothing but the indicator changes.
pub proof fn lemma_typed_text(before: Dialog, text: Seq<char>, after: Dialog)
    requires
        before.wf(),
        before.indicator.can_insert(),
        before.types(text, after),
        before.indicator.base().pass@.len() + text.len() <= 512,
    ensures
        ({
            let pass = before.indicator.base().pass@;
            let at = entry_point(before.indicator);
            &&& after.indicator.base().pass@ == pass.take(at) + text + pass.skip(at)
            &&& entry_point(after.indicator) == at + text.len()
            &&& text.len() > 0 ==> after.indicator.base().status.dirty
            &&& text.len() == 0 ==> after.indicator == before.indicator
        }),
        after.indicator.base().status.show_selection_do
            == before.indicator.base().status.show_selection_do,
        after.buttons == before.buttons,
        after.button_pressed == before.button_pressed,
        after.mouse_middle_pressed == before.mouse_middle_pressed,
        after.input_timeout == before.input_timeout,
        same_window(before, after),
{
    let pass = before.indicator.base().pass@;
    let at = entry_point(before.indicator);
    if text.len() > 0 {
        lemma_insertion(before.indicator, text, false, after.indicator);
        assert(text.take(text.len() as int) =~= text);
    } else {
        assert(pass.take(at) + text + pass.skip(at) =~= pass);
    }
}

/// Only the timer for input ends the dialog, and it does so without a passphrase; the timers of
/// the indicator change that alone, and never the passphrase.
pub proof fn lemma_what_timers_do(before: Dialog, timer: Option<Timer>, r: Action, after: Dialog)
    requires
        before.times_out(timer, r, after),
    ensures
        timer is None <==> r == Action::Cancel,
        timer is Some <==> r == Action::Nothing,
        timer is None ==> after == before,
        after == (Dialog { indicator: after.indicator, ..before }),
        after.indicator.base().pass == before.indicator.base().pass,
        timer == Some(Timer::ShowSelection) ==> !after.indicator.base().status.show_selection_do,
        timer == Some(Timer::Blink) ==> after.indicator.base().status.blink_on
            != before.indicator.base().status.blink_on,
{
}

/// From the start the user has the whole time for input that was configured, and a cursor that
/// blinks its whole phase. Nothing else changes with that.
pub proof fn lemma_timers_start(before: Dialog)
    ensures
        ({
            let after = before.with_timers();
            let status = before.indicator.base().status;
            &&& after.input_timeout_started
            &&& before.input_timeout_duration is Some ==> after.input_timeout
                == before.input_timeout_duration
            &&& status.blink_do ==> after.indicator.base().status.blink_timeout == Some(
                if status.blink_on {
                    800u64
                } else {
                    400u64
                },
            )
            &&& !status.blink_do ==> after.indicator == before.indicator
            &&& after.indicator.base().pass == before.indicator.base().pass
            &&& after.indicator.base().status.blink_on == status.blink_on
            &&& after.buttons == before.buttons
            &&& after == (Dialog {
                indicator: after.indicator,
                input_timeout_started: true,
                input_timeout: after.input_timeout,
                ..before
            })
        }),
{
}

} // verus!
