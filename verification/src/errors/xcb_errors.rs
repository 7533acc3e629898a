//! Errors of the X server, told by the names that the library for errors has for them.
use vstd::prelude::*;

use crate::text::decimal;

verus! {

/// Makes errors that can be told.
#[derive(Clone, Copy, Debug)]
pub struct Builder {}

/// An error of the X server.
#[derive(Debug)]
pub struct XError {
    pub major: String,
    pub minor: String,
    pub extension: String,
    pub error: String,
    pub major_code: u8,
    pub minor_code: u16,
    pub error_code: u8,
}

/// The hyphen between two names, which is left out where `name` is empty.
pub open spec fn hyphen_for(name: Seq<char>) -> Seq<char> {
    if name.len() == 0 {
        ""@
    } else {
        "-"@
    }
}

impl XError {
    /// The error in words.
    pub open spec fn text(self) -> Seq<char> {
        "request: "@ + self.major@ + hyphen_for(self.minor@) + self.minor@ + " (major "@
            + crate::text::decimal_digits(self.major_code as nat) + ", minor "@
            + crate::text::decimal_digits(self.minor_code as nat) + "), error: "@
            + self.extension@ + hyphen_for(self.extension@) + self.error@ + " ("@
            + crate::text::decimal_digits(self.error_code as nat) + ")"@
    }

    /// The error in words.
    pub fn message(&self) -> (r: String)
        ensures
            r@ == self.text(),
    {
        let mut r = String::from_str("request: ");
        r.append(self.major.as_str());
        r.append(
            if self.minor.as_str().is_empty() {
                ""
            } else {
                "-"
            },
        );
        r.append(self.minor.as_str());
        r.append(" (major ");
        r.append(decimal(self.major_code as u64).as_str());
        r.append(", minor ");
        r.append(decimal(self.minor_code as u64).as_str());
        r.append("), error: ");
        r.append(self.extension.as_str());
        r.append(
            if self.extension.as_str().is_empty() {
                ""
            } else {
                "-"
            },
        );
        r.append(self.error.as_str());
        r.append(" (");
        r.append(decimal(self.error_code as u64).as_str());
        r.append(")");
        r
    }
}

fn name_or_empty(name: Option<String>) -> (r: String)
    ensures
        r@ == (match name {
            Some(name) => name@,
            None => Seq::<char>::empty(),
        }),
{
    match name {
        Some(name) => name,
        None => String::new(),
    }
}

impl Builder {
    /// The error with these names and numbers. A request that is its extension's only one
    /// has no name of its own, and an error of the core protocol no extension.
    pub fn from(
        &self,
        major: String,
        minor: Option<String>,
        extension: Option<String>,
        error: String,
        codes: (u8, u16, u8),
    ) -> (r: XError)
        ensures
            r.major == major,
            r.minor@ == (match minor {
                Some(name) => name@,
                None => Seq::<char>::empty(),
            }),
            r.extension@ == (match extension {
                Some(name) => name@,
                None => Seq::<char>::empty(),
            }),
            r.error == error,
            (r.major_code, r.minor_code, r.error_code) == codes,
    {
        XError {
            major,
            minor: name_or_empty(minor),
            extension: name_or_empty(extension),
            error,
            major_code: codes.0,
            minor_code: codes.1,
            error_code: codes.2,
        }
    }
}

/// An error is told by the names of its request and of itself, and by their numbers. A hyphen
/// stands between two names, and none where there is only one.
pub proof fn lemma_names_are_told(e: XError)
    ensures
        ({
            let request = "request: "@ + e.major@ + (if e.minor@.len() == 0 {
                Seq::<char>::empty()
            } else {
                seq!['-'] + e.minor@
            });
            let codes = " (major "@ + crate::text::decimal_digits(e.major_code as nat)
                + ", minor "@ + crate::text::decimal_digits(e.minor_code as nat) + ")"@;
            let error = ", error: "@ + (if e.extension@.len() == 0 {
                Seq::<char>::empty()
            } else {
                e.extension@ + seq!['-']
            }) + e.error@ + " ("@ + crate::text::decimal_digits(e.error_code as nat) + ")"@;
            e.text() == request + codes + error
        }),
{
    reveal_strlit("");
    reveal_strlit("-");
    reveal_strlit(")");
    reveal_strlit(", error: ");
    reveal_strlit("), error: ");
    assert(""@ =~= Seq::<char>::empty());
    assert("-"@ =~= seq!['-']);
    assert("), error: "@ =~= ")"@ + ", error: "@);
    let request = "request: "@ + e.major@ + (if e.minor@.len() == 0 {
        Seq::<char>::empty()
    } else {
        seq!['-'] + e.minor@
    });
    let codes = " (major "@ + crate::text::decimal_digits(e.major_code as nat) + ", minor "@
        + crate::text::decimal_digits(e.minor_code as nat) + ")"@;
    let error = ", error: "@ + (if e.extension@.len() == 0 {
        Seq::<char>::empty()
    } else {
        e.extension@ + seq!['-']
    }) + e.error@ + " ("@ + crate::text::decimal_digits(e.error_code as nat) + ")"@;
    assert(e.text() =~= request + codes + error);
}

} // verus!
