//! The ring of elements.
use vstd::prelude::*;

use super::{Base, Repaint, Status, CAPACITY};
use crate::secret::Passphrase;

verus! {

/// A ring of elements that lights up and turns.
pub struct Circle {
    pub base: Base,
    pub indicator_count: u32,
    pub light_up: bool,
    pub rotate: bool,
    /// The length of the passphrase for which the ring was last turned.
    pub oldlen: usize,
    /// A step of the turning is to be painted.
    pub paint_pending: bool,
    /// The passphrase may have changed since the ring was last turned.
    pub rotation_requested: bool,
}

impl Circle {
    /// A step that is to be painted makes the indicator dirty.
    pub open spec fn wf(self) -> bool {
        &&& self.base.wf()
        &&& self.oldlen <= CAPACITY
        &&& self.paint_pending ==> self.base.status.dirty
    }

    /// Only the passphrase, its status and the request to turn the ring may differ.
    pub open spec fn same_ring(self, other: Circle) -> bool {
        &&& self.indicator_count == other.indicator_count
        &&& self.light_up == other.light_up
        &&& self.rotate == other.rotate
        &&& self.oldlen == other.oldlen
        &&& self.paint_pending == other.paint_pending
    }

    /// The passphrase changes, and the ring is to turn where it turns at all.
    pub open spec fn turns_to(self, new: Circle) -> bool {
        &&& new.same_ring(self)
        &&& new.rotation_requested == (self.rotation_requested || self.rotate)
    }

    /// A ring for an empty passphrase.
    pub fn new(blink: bool, indicator_count: u32, light_up: bool, rotate: bool) -> (r: Circle)
        ensures
            r.wf(),
            r.indicator_count == indicator_count,
            r.light_up == light_up,
            r.rotate == rotate,
            r.oldlen == 0,
            !r.paint_pending,
            !r.rotation_requested,
            r.base.pass@ == Seq::<char>::empty(),
            r.base.status == (Status {
                has_focus: false,
                dirty: false,
                dirty_blink: false,
                blink_do: blink,
                blink_enabled: blink,
                blink_on: blink,
                show_selection_do: false,
                blink_timeout: Some(800),
                show_selection_timeout: Some(0),
            }),
    {
        let mut base = Base::new(blink);
        base.status.blink_on = blink;
        Circle {
            base,
            indicator_count,
            light_up,
            rotate,
            oldlen: 0,
            paint_pending: false,
            rotation_requested: false,
        }
    }

    /// Deletes the last character and asks for the ring to turn.
    pub fn pass_delete(&mut self)
        requires
            old(self).wf(),
        ensures
            final(self).wf(),
            old(self).turns_to(*final(self)),
            old(self).base.deletes(final(self).base),
    {
        self.base.pass_delete();
        if self.rotate {
            self.rotation_requested = true;
        }
    }

    /// Deletes the passphrase and asks for the ring to turn.
    pub fn pass_clear(&mut self)
        requires
            old(self).wf(),
        ensures
            final(self).wf(),
            old(self).turns_to(*final(self)),
            old(self).base.clears(final(self).base),
    {
        self.base.pass_clear();
        if self.rotate {
            self.rotation_requested = true;
        }
    }

    /// Appends the characters of `s` and asks for the ring to turn.
    pub fn pass_insert(&mut self, s: &str, pasted: bool)
        requires
            old(self).wf(),
        ensures
            final(self).wf(),
            old(self).turns_to(*final(self)),
            old(self).base.inserts(s@, pasted, final(self).base),
    {
        self.base.pass_insert(s, pasted);
        if self.rotate {
            self.rotation_requested = true;
        }
    }

    /// The passphrase that was entered.
    pub fn into_pass(self) -> (r: Passphrase)
        ensures
            r.0 == self.base.pass,
    {
        Passphrase(self.base.pass)
    }

    /// The ring has been turned by `r`, with the ring `new` after it.
    pub open spec fn turned(self, r: Option<i32>, new: Circle) -> bool {
        if self.rotation_requested {
            &&& r == Some((self.base.pass.len - self.oldlen) as i32)
            &&& new == (Circle {
                oldlen: self.base.pass.len,
                rotation_requested: false,
                ..self
            })
        } else {
            r is None && new == self
        }
    }

    /// By how many characters the passphrase has grown since the ring was last turned,
    /// where it is to turn: the ring turns by as many steps, backwards if it has shrunk.
    pub fn init_rotation(&mut self) -> (r: Option<i32>)
        requires
            old(self).wf(),
        ensures
            final(self).wf(),
            final(self).base == old(self).base,
            final(self).same_ring(Circle { oldlen: final(self).oldlen, ..*old(self) }),
            !final(self).rotation_requested,
            match r {
                Some(turn) => {
                    &&& old(self).rotation_requested
                    &&& turn == old(self).base.pass.len - old(self).oldlen
                    &&& final(self).oldlen == old(self).base.pass.len
                },
                None => !old(self).rotation_requested && final(self).oldlen == old(self).oldlen,
            },
            old(self).turned(r, *final(self)),
    {
        if !self.rotation_requested {
            return None;
        }
        self.rotation_requested = false;
        let turn: i32 = self.base.pass.len as i32 - self.oldlen as i32;
        self.oldlen = self.base.pass.len;
        Some(turn)
    }

    /// A step of the turning is made at once where `r`, with the ring `new` after it.
    pub open spec fn starts(self, moving: bool, r: bool, new: Circle) -> bool {
        &&& r == (moving && !self.paint_pending)
        &&& new == (if r {
            Circle {
                base: Base { status: self.base.status.with_change(), ..self.base },
                paint_pending: true,
                ..self
            }
        } else {
            self
        })
    }

    /// Whether a step of the turning is to be made at once, where the ring is `moving`.
    pub fn start_rotation(&mut self, moving: bool) -> (r: bool)
        requires
            old(self).wf(),
        ensures
            final(self).wf(),
            r == (moving && !old(self).paint_pending),
            final(self).base.pass == old(self).base.pass,
            final(self).rotation_requested == old(self).rotation_requested,
            final(self).same_ring(
                Circle { paint_pending: old(self).paint_pending || r, ..*old(self) },
            ),
            final(self).base.status == (if r {
                old(self).base.status.with_change()
            } else {
                old(self).base.status
            }),
            old(self).starts(moving, r, *final(self)),
    {
        if !self.paint_pending && moving {
            self.animate_frame();
            return true;
        }
        false
    }

    /// A frame has been handed over. Whether the next step of the turning is to be made,
    /// where the ring is `moving`.
    pub fn set_next_frame(&mut self, moving: bool) -> (r: bool)
        requires
            old(self).wf(),
            !old(self).base.status.dirty,
            !old(self).base.status.dirty_blink,
        ensures
            final(self).wf(),
            r == moving,
            final(self).base.pass == old(self).base.pass,
            final(self).rotation_requested == old(self).rotation_requested,
            final(self).same_ring(Circle { paint_pending: moving, ..*old(self) }),
            final(self).base.status == (if moving {
                old(self).base.status.with_change()
            } else {
                old(self).base.status
            }),
    {
        if !moving {
            return false;
        }
        self.animate_frame();
        true
    }

    fn animate_frame(&mut self)
        requires
            old(self).wf(),
            !old(self).paint_pending,
        ensures
            final(self).wf(),
            final(self).base.pass == old(self).base.pass,
            final(self).rotation_requested == old(self).rotation_requested,
            final(self).same_ring(Circle { paint_pending: true, ..*old(self) }),
            final(self).base.status == old(self).base.status.with_change(),
    {
        self.paint_pending = true;
        self.base.status.dirty = true;
    }

    /// Everything has been painted.
    pub fn set_painted(&mut self)
        requires
            old(self).wf(),
        ensures
            final(self).wf(),
            final(self).base.pass == old(self).base.pass,
            final(self).rotation_requested == old(self).rotation_requested,
            final(self).same_ring(Circle { paint_pending: false, ..*old(self) }),
            final(self).base.status == (Status {
                dirty: false,
                dirty_blink: false,
                ..old(self).base.status
            }),
    {
        self.paint_pending = false;
        self.base.set_painted();
    }

    /// What has to be painted.
    pub fn repaint(&self) -> (r: Repaint)
        ensures
            r == super::repaint_of(self.base.status),
    {
        if self.base.status.dirty {
            Repaint::Whole
        } else if self.base.status.dirty_blink {
            Repaint::Cursor
        } else {
            Repaint::Nothing
        }
    }

    /// Whether the element `ix` is lit.
    pub open spec fn is_lit(self, ix: int) -> bool {
        &&& self.light_up
        &&& self.base.pass.len > 0
        &&& {
            ||| self.base.status.show_selection_do
            ||| super::lit_element(self.base.pass.len as nat, self.indicator_count as nat) == (
            if self.rotate {
                self.indicator_count - 1 - ix
            } else {
                ix
            })
        }
    }

    /// Which elements are lit when the ring is painted.
    pub fn paint(&self) -> (r: Vec<bool>)
        ensures
            r@.len() == self.indicator_count,
            forall|ix: int| 0 <= ix < r@.len() ==> #[trigger] r@[ix] == self.is_lit(ix),
    {
        let count: usize = self.indicator_count as usize;
        let len: usize = self.base.pass.len;
        let mut lit: Vec<bool> = Vec::new();
        for ix in 0..count
            invariant
                count == self.indicator_count,
                len == self.base.pass.len,
                lit@.len() == ix,
                forall|j: int| 0 <= j < ix ==> #[trigger] lit@[j] == self.is_lit(j),
        {
            let place: usize = if self.rotate {
                count - 1 - ix
            } else {
                ix
            };
            let is_lit = self.light_up && len > 0 && (self.base.status.show_selection_do || (len
                - 1) % count == place);
            lit.push(is_lit);
        }
        lit
    }
}

/// While something is entered, exactly one element of a ring that lights up is lit; while
/// what was pasted is shown, all of them are; without a passphrase, none is.
pub proof fn lemma_ring_lights(ring: Circle)
    requires
        ring.wf(),
        ring.light_up,
        ring.indicator_count > 0,
    ensures
        ring.base.pass@.len() == 0 ==> forall|ix: int|
            0 <= ix < ring.indicator_count ==> !#[trigger] ring.is_lit(ix),
        ring.base.pass@.len() > 0 && ring.base.status.show_selection_do ==> forall|ix: int|
            0 <= ix < ring.indicator_count ==> #[trigger] ring.is_lit(ix),
        ring.base.pass@.len() > 0 && !ring.base.status.show_selection_do ==> exists|ix: int|
            0 <= ix < ring.indicator_count && #[trigger] ring.is_lit(ix) && (forall|other: int|
                0 <= other < ring.indicator_count && #[trigger] ring.is_lit(other) ==> other == ix),
{
    let count = ring.indicator_count as int;
    let at = super::lit_element(ring.base.pass.len as nat, count as nat);
    if ring.base.pass.len > 0 && !ring.base.status.show_selection_do {
        let ix = if ring.rotate {
            count - 1 - at
        } else {
            at
        };
        assert(0 <= at < count);
        assert(ring.is_lit(ix));
    }
}

/// The light of a ring goes round and round: the first character lights the first element, and
/// each further one the element after the one that was lit, or the first after the last,
/// however long the passphrase is. In a ring that turns the elements are counted backwards.
pub proof fn lemma_ring_light_moves_on(before: Circle, after: Circle, ix: int)
    requires
        before.indicator_count == after.indicator_count,
        before.rotate == after.rotate,
        before.light_up && after.light_up,
        !before.base.status.show_selection_do && !after.base.status.show_selection_do,
        after.base.pass.len == before.base.pass.len + 1,
        0 <= ix < before.indicator_count,
    ensures
        before.base.pass.len == 0 ==> (after.is_lit(ix) <==> ix == (if after.rotate {
            after.indicator_count - 1
        } else {
            0
        })),
        before.base.pass.len > 0 && !before.rotate ==> before.is_lit(ix) == after.is_lit(
            if ix == before.indicator_count - 1 {
                0
            } else {
                ix + 1
            },
        ),
        before.base.pass.len > 0 && before.rotate ==> before.is_lit(ix) == after.is_lit(
            if ix == 0 {
                before.indicator_count - 1
            } else {
                ix - 1
            },
        ),
        before.base.pass.len > 0 && before.indicator_count >= 2 ==> !(before.is_lit(ix)
            && after.is_lit(ix)),
{
    super::lemma_step_round(
        if before.base.pass.len > 0 {
            before.base.pass.len - 1
        } else {
            0
        },
        before.indicator_count as int,
    );
}

/// A ring that does not light up never shows a light, and while what was pasted is shown every
/// element of one that does is lit, as long as there is anything to show.
pub proof fn lemma_ring_light_switch(ring: Circle, ix: int)
    requires
        0 <= ix < ring.indicator_count,
    ensures
        !ring.light_up || ring.base.pass.len == 0 ==> !ring.is_lit(ix),
        ring.light_up && ring.base.pass.len > 0 && ring.base.status.show_selection_do
            ==> ring.is_lit(ix),
{
}

/// A ring that has been turned for its passphrase turns by one step for each character that is
/// entered, and back by one for each that is deleted; a ring that does not turn stands still.
pub proof fn lemma_ring_turns_with_the_passphrase(
    before: Circle,
    changed: Circle,
    turn: Option<i32>,
    after: Circle,
)
    requires
        before.wf(),
        changed.wf(),
        before.oldlen == before.base.pass.len,
        !before.rotation_requested,
        before.turns_to(changed),
        changed.turned(turn, after),
    ensures
        before.rotate ==> turn == Some((changed.base.pass.len - before.base.pass.len) as i32),
        !before.rotate ==> turn is None,
        before.rotate ==> after.oldlen == after.base.pass.len,
        !after.rotation_requested,
        after.base.pass == changed.base.pass,
        after.indicator_count == before.indicator_count,
{
}

/// A ring that is to turn starts at once and is painted, but takes one step at a time: it does
/// not start again before that step has been painted. A ring that is not to turn does nothing.
pub proof fn lemma_one_step_at_a_time(
    before: Circle,
    first: bool,
    between: Circle,
    second: bool,
    after: Circle,
)
    requires
        before.starts(true, first, between),
        between.starts(true, second, after),
    ensures
        first <==> !before.paint_pending,
        !second,
        between.paint_pending,
        first ==> between.base.status.dirty,
        after == between,
        between.base.pass == before.base.pass,
        before.starts(false, false, before),
{
}

} // verus!
