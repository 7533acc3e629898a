//! Errors of the X server, told by their numbers.
use vstd::prelude::*;

use crate::text::decimal;

verus! {

/// Makes errors that can be told.
#[derive(Clone, Copy, Debug)]
pub struct Builder {}

/// An error of the X server.
#[derive(Debug)]
pub struct XError {
    /// The kind of the error, as it is called in programs.
    pub kind: String,
    pub major_opcode: u8,
    pub minor_opcode: u16,
    pub bad_value: u32,
    pub sequence: u16,
}

impl XError {
    /// The error in words.
    pub open spec fn text(self) -> Seq<char> {
        "kind: "@ + self.kind@ + ": (major "@ + crate::text::decimal_digits(
            self.major_opcode as nat,
        ) + ", minor "@ + crate::text::decimal_digits(self.minor_opcode as nat)
            + ", bad_value: "@ + crate::text::decimal_digits(self.bad_value as nat)
            + ", sequence: "@ + crate::text::decimal_digits(self.sequence as nat) + ")"@
    }

    /// The error in words.
    pub fn message(&self) -> (r: String)
        ensures
            r@ == self.text(),
    {
        let mut r = String::from_str("kind: ");
        r.append(self.kind.as_str());
        r.append(": (major ");
        r.append(decimal(self.major_opcode as u64).as_str());
        r.append(", minor ");
        r.append(decimal(self.minor_opcode as u64).as_str());
        r.append(", bad_value: ");
        r.append(decimal(self.bad_value as u64).as_str());
        r.append(", sequence: ");
        r.append(decimal(self.sequence as u64).as_str());
        r.append(")");
        r
    }
}

impl Builder {
    /// A builder needs nothing of the server.
    pub fn new() -> (r: Builder)
        ensures
            r == (Builder {  }),
    {
        Builder {  }
    }

    /// The error with these numbers.
    pub fn from(
        &self,
        kind: String,
        major_opcode: u8,
        minor_opcode: u16,
        bad_value: u32,
        sequence: u16,
    ) -> (r: XError)
        ensures
            r == (XError { kind, major_opcode, minor_opcode, bad_value, sequence }),
    {
        XError { kind, major_opcode, minor_opcode, bad_value, sequence }
    }
}

/// An error is told by its kind, and then by the numbers of the request, of the value that was
/// bad and of the request's place in the sequence, each in decimal behind its name.
pub proof fn lemma_numbers_are_told(e: XError)
    ensures
        ({
            let kind = "kind: "@ + e.kind@;
            let rest = e.text().skip(kind.len() as int);
            &&& kind.is_prefix_of(e.text())
            &&& rest == ": (major "@ + crate::text::decimal_digits(e.major_opcode as nat) + (
            ", minor "@ + crate::text::decimal_digits(e.minor_opcode as nat)) + (", bad_value: "@
                + crate::text::decimal_digits(e.bad_value as nat)) + (", sequence: "@
                + crate::text::decimal_digits(e.sequence as nat)) + ")"@
        }),
{
    let kind = "kind: "@ + e.kind@;
    let rest = ": (major "@ + crate::text::decimal_digits(e.major_opcode as nat) + (", minor "@
        + crate::text::decimal_digits(e.minor_opcode as nat)) + (", bad_value: "@
        + crate::text::decimal_digits(e.bad_value as nat)) + (", sequence: "@
        + crate::text::decimal_digits(e.sequence as nat)) + ")"@;
    assert(e.text() =~= kind + rest);
    assert(e.text().skip(kind.len() as int) =~= rest);
    assert(e.text().take(kind.len() as int) =~= kind);
}

} // verus!
