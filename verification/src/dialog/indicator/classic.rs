//! The row of elements.
use vstd::prelude::*;

use super::{Base, Repaint, Status};
use crate::secret::Passphrase;

verus! {

/// A row of elements of which one is lit.
pub struct Classic {
    pub base: Base,
    pub min_count: u16,
    pub max_count: u16,
    /// The number of elements.
    pub indicators: usize,
}

impl Classic {
    /// There is no cursor in the row.
    pub open spec fn wf(self) -> bool {
        &&& self.base.wf()
        &&& !self.base.status.blink_enabled
        &&& !self.base.status.dirty_blink
    }

    /// A row without elements for an empty passphrase.
    pub fn new(min_count: u16, max_count: u16) -> (r: Classic)
        ensures
            r.wf(),
            r.min_count == min_count,
            r.max_count == max_count,
            r.indicators == 0,
            r.base.pass@ == Seq::<char>::empty(),
            r.base.status == (Status {
                has_focus: false,
                dirty: false,
                dirty_blink: false,
                blink_do: false,
                blink_enabled: false,
                blink_on: false,
                show_selection_do: false,
                blink_timeout: Some(800),
                show_selection_timeout: Some(0),
            }),
    {
        let mut base = Base::new(false);
        base.status.blink_on = false;
        Classic { base, min_count, max_count, indicators: 0 }
    }

    /// The passphrase that was entered.
    pub fn into_pass(self) -> (r: Passphrase)
        ensures
            r.0 == self.base.pass,
    {
        Passphrase(self.base.pass)
    }

    /// Adds the elements for a width in which `wanted` of them have room, and returns
    /// their number.
    pub fn for_width(&mut self, wanted: u16) -> (r: u16)
        requires
            old(self).indicators + super::clamped(wanted, old(self).min_count, old(self).max_count)
                <= usize::MAX,
        ensures
            r == super::clamped(wanted, old(self).min_count, old(self).max_count),
            *final(self) == (Classic {
                indicators: (old(self).indicators + r) as usize,
                ..*old(self)
            }),
    {
        let count: u16 = super::clamp_count(wanted, self.min_count, self.max_count);
        self.indicators = self.indicators + count as usize;
        count
    }

    /// What has to be painted.
    pub fn repaint(&self) -> (r: Repaint)
        ensures
            r == (if self.base.status.dirty {
                Repaint::Whole
            } else {
                Repaint::Nothing
            }),
            self.wf() ==> r == super::repaint_of(self.base.status),
    {
        if self.base.status.dirty {
            Repaint::Whole
        } else {
            Repaint::Nothing
        }
    }

    /// Whether the element `ix` is lit.
    pub open spec fn is_lit(self, ix: int) -> bool {
        &&& self.base.pass.len > 0
        &&& {
            ||| self.base.status.show_selection_do
            ||| super::lit_element(self.base.pass.len as nat, self.indicators as nat) == ix
        }
    }

    /// Which elements are lit when the row is painted.
    pub fn paint(&self) -> (r: Vec<bool>)
        ensures
            r@.len() == self.indicators,
            forall|ix: int| 0 <= ix < r@.len() ==> #[trigger] r@[ix] == self.is_lit(ix),
    {
        let len: usize = self.base.pass.len;
        let mut lit: Vec<bool> = Vec::new();
        for ix in 0..self.indicators
            invariant
                len == self.base.pass.len,
                lit@.len() == ix,
                forall|j: int| 0 <= j < ix ==> #[trigger] lit@[j] == self.is_lit(j),
        {
            let is_lit = len > 0 && (self.base.status.show_selection_do || (len - 1)
                % self.indicators == ix);
            lit.push(is_lit);
        }
        lit
    }
}

/// While something is entered, exactly one element of a row is lit; while what was pasted is
/// shown, all of them are; without a passphrase, none is.
pub proof fn lemma_row_lights(row: Classic)
    requires
        row.wf(),
        row.indicators > 0,
    ensures
        row.base.pass@.len() == 0 ==> forall|ix: int|
            0 <= ix < row.indicators ==> !#[trigger] row.is_lit(ix),
        row.base.pass@.len() > 0 && row.base.status.show_selection_do ==> forall|ix: int|
            0 <= ix < row.indicators ==> #[trigger] row.is_lit(ix),
        row.base.pass@.len() > 0 && !row.base.status.show_selection_do ==> exists|ix: int|
            0 <= ix < row.indicators && #[trigger] row.is_lit(ix) && (forall|other: int|
                0 <= other < row.indicators && #[trigger] row.is_lit(other) ==> other == ix),
{
    let at = super::lit_element(row.base.pass.len as nat, row.indicators as nat);
    if row.base.pass.len > 0 && !row.base.status.show_selection_do {
        assert(0 <= at < row.indicators);
        assert(row.is_lit(at));
    }
}

/// The light of a row goes round and round: the first character lights the first element, and
/// each further one the element after the one that was lit, or the first after the last,
/// however long the passphrase is.
pub proof fn lemma_row_light_moves_on(before: Classic, after: Classic, ix: int)
    requires
        before.indicators == after.indicators,
        !before.base.status.show_selection_do && !after.base.status.show_selection_do,
        after.base.pass.len == before.base.pass.len + 1,
        0 <= ix < before.indicators,
    ensures
        before.base.pass.len == 0 ==> (after.is_lit(ix) <==> ix == 0),
        before.base.pass.len > 0 ==> before.is_lit(ix) == after.is_lit(
            if ix == before.indicators - 1 {
                0
            } else {
                ix + 1
            },
        ),
        before.base.pass.len > 0 && before.indicators >= 2 ==> !(before.is_lit(ix)
            && after.is_lit(ix)),
{
    super::lemma_step_round(
        if before.base.pass.len > 0 {
            before.base.pass.len - 1
        } else {
            0
        },
        before.indicators as int,
    );
}

/// Without a passphrase nothing in a row is lit, and while what was pasted is shown all of it
/// is.
pub proof fn lemma_row_light_switch(row: Classic, ix: int)
    requires
        0 <= ix < row.indicators,
    ensures
        row.base.pass.len == 0 ==> !row.is_lit(ix),
        row.base.pass.len > 0 && row.base.status.show_selection_do ==> row.is_lit(ix),
{
}

} // verus!
