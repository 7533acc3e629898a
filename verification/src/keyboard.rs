//! Keys, what composing makes of them, and what the keyboard tells of the language.
use vstd::prelude::*;
use vstd::utf8::*;

use crate::config::PangoDirection;
use crate::errors::Unsupported;

verus! {

/// The number of a key.
pub type Keycode = u32;

/// The number of the symbol on a key.
pub type Keysym = u32;

#[allow(non_upper_case_globals)]
pub const XKB_KEY_Return: Keysym = 0xff0d;

#[allow(non_upper_case_globals)]
pub const XKB_KEY_KP_Enter: Keysym = 0xff8d;

#[allow(non_upper_case_globals)]
pub const XKB_KEY_j: Keysym = 0x6a;

#[allow(non_upper_case_globals)]
pub const XKB_KEY_m: Keysym = 0x6d;

#[allow(non_upper_case_globals)]
pub const XKB_KEY_Escape: Keysym = 0xff1b;

#[allow(non_upper_case_globals)]
pub const XKB_KEY_BackSpace: Keysym = 0xff08;

#[allow(non_upper_case_globals)]
pub const XKB_KEY_h: Keysym = 0x68;

#[allow(non_upper_case_globals)]
pub const XKB_KEY_u: Keysym = 0x75;

#[allow(non_upper_case_globals)]
pub const XKB_KEY_v: Keysym = 0x76;

#[allow(non_upper_case_globals)]
pub const XKB_KEY_Left: Keysym = 0xff51;

#[allow(non_upper_case_globals)]
pub const XKB_KEY_Right: Keysym = 0xff53;

#[allow(non_upper_case_globals)]
pub const XKB_KEY_Insert: Keysym = 0xff63;

/// How far a sequence of keys has been composed.
#[derive(Clone, Copy, Debug, PartialEq, Eq, Structural)]
pub enum ComposeStatus {
    Nothing,
    Composing,
    Composed,
    Cancelled,
}

/// What composing makes of a key that was fed to it.
#[derive(Clone, Copy, Debug, PartialEq, Eq, Structural)]
pub struct Compose {
    /// The key took part in composing.
    pub accepted: bool,
    pub status: ComposeStatus,
    /// The symbol that was composed, where one was.
    pub sym: Keysym,
}

/// What a key stands for after composing.
#[derive(Clone, Copy, Debug, PartialEq, Eq, Structural)]
pub enum Composed {
    /// This symbol, which was composed or is that of the key.
    Symbol { sym: Keysym, composed: bool },
    /// Nothing yet.
    Wait,
    /// Nothing, and composing starts anew.
    Reset,
}

/// What the key with the symbol `sym` stands for.
pub open spec fn composed_of(sym: Keysym, compose: Option<Compose>) -> Composed {
    match compose {
        Some(c) if c.accepted => match c.status {
            ComposeStatus::Nothing => Composed::Symbol { sym, composed: false },
            ComposeStatus::Composing => Composed::Wait,
            ComposeStatus::Composed => Composed::Symbol { sym: c.sym, composed: true },
            ComposeStatus::Cancelled => Composed::Reset,
        },
        _ => Composed::Symbol { sym, composed: false },
    }
}

/// What the key with the symbol `sym` stands for, where it was fed to composing if there
/// is any.
pub fn compose_step(sym: Keysym, compose: Option<Compose>) -> (r: Composed)
    ensures
        r == composed_of(sym, compose),
{
    match compose {
        Some(c) => {
            if c.accepted {
                match c.status {
                    ComposeStatus::Nothing => Composed::Symbol { sym, composed: false },
                    ComposeStatus::Composing => Composed::Wait,
                    ComposeStatus::Composed => Composed::Symbol { sym: c.sym, composed: true },
                    ComposeStatus::Cancelled => Composed::Reset,
                }
            } else {
                Composed::Symbol { sym, composed: false }
            }
        },
        None => Composed::Symbol { sym, composed: false },
    }
}

/// The keyboard can be used only where the server has the keyboard extension, in a version
/// that is new enough. `supported` is what the server says of the version.
pub fn check_support(extension_present: bool, supported: bool) -> (r: Result<(), Unsupported>)
    ensures
        match r {
            Ok(()) => extension_present && supported,
            Err(e) => if extension_present {
                !supported && e.0@ == "too old xkb?"@
            } else {
                e.0@ == "x11 xkb extension required"@
            },
        },
{
    if !extension_present {
        return Err(Unsupported(String::from_str("x11 xkb extension required")));
    }
    if !supported {
        return Err(Unsupported(String::from_str("too old xkb?")));
    }
    Ok(())
}

/// `std::char::from_u32`: the character with the code `i`, where that is a Unicode scalar
/// value.
pub assume_specification[ std::char::from_u32 ](i: u32) -> (r: Option<char>)
    ensures
        r == (if is_scalar(i) {
            Some(i as char)
        } else {
            None
        }),
;

/// The character on a key, where its code is one. The code 0 stands for none.
pub fn key_char(code: u32) -> (r: Option<char>)
    ensures
        r == (if code != 0 && is_scalar(code) {
            Some(code as char)
        } else {
            None
        }),
{
    if code == 0 {
        return None;
    }
    std::char::from_u32(code)
}

/// How many more of `directions` run from left to right than from right to left.
pub open spec fn ltr_minus_rtl(directions: Seq<PangoDirection>) -> int
    decreases directions.len(),
{
    if directions.len() == 0 {
        0
    } else {
        ltr_minus_rtl(directions.drop_last()) + match directions.last() {
            PangoDirection::Ltr => 1int,
            PangoDirection::Rtl => -1int,
            _ => 0int,
        }
    }
}

/// The direction of the majority of `directions`.
pub open spec fn majority(directions: Seq<PangoDirection>) -> PangoDirection {
    if ltr_minus_rtl(directions) < 0 {
        PangoDirection::WeakRtl
    } else if ltr_minus_rtl(directions) > 0 {
        PangoDirection::WeakLtr
    } else {
        PangoDirection::Neutral
    }
}

/// The direction of the language that is typed, from the directions of the characters on
/// all keys: that of the majority.
pub fn get_direction(directions: &[PangoDirection]) -> (r: PangoDirection)
    requires
        directions@.len() <= i32::MAX,
    ensures
        r == (if ltr_minus_rtl(directions@) < 0 {
            PangoDirection::WeakRtl
        } else if ltr_minus_rtl(directions@) > 0 {
            PangoDirection::WeakLtr
        } else {
            PangoDirection::Neutral
        }),
        r == majority(directions@),
{
    let mut balance: i32 = 0;
    for i in 0..directions.len()
        invariant
            directions@.len() <= i32::MAX,
            balance == ltr_minus_rtl(directions@.take(i as int)),
            -i <= balance <= i,
    {
        assert(directions@.take(i + 1).drop_last() =~= directions@.take(i as int));
        match directions[i] {
            PangoDirection::Ltr => balance += 1,
            PangoDirection::Rtl => balance -= 1,
            _ => {},
        }
    }
    assert(directions@.take(directions@.len() as int) =~= directions@);
    if balance < 0 {
        PangoDirection::WeakRtl
    } else if balance > 0 {
        PangoDirection::WeakLtr
    } else {
        PangoDirection::Neutral
    }
}

/// The same keys with the directions turned round give the direction turned round.
pub proof fn lemma_direction_mirrored(a: Seq<PangoDirection>, b: Seq<PangoDirection>)
    requires
        a.len() == b.len(),
        forall|i: int|
            0 <= i < a.len() ==> ((#[trigger] a[i]) == PangoDirection::Ltr <==> b[i]
                == PangoDirection::Rtl) && (a[i] == PangoDirection::Rtl <==> b[i]
                == PangoDirection::Ltr),
    ensures
        ltr_minus_rtl(a) == -ltr_minus_rtl(b),
    decreases a.len(),
{
    if a.len() > 0 {
        assert(a.last() == a[a.len() - 1]);
        assert forall|i: int| 0 <= i < a.drop_last().len() implies ((#[trigger] a.drop_last()[i])
            == PangoDirection::Ltr <==> b.drop_last()[i] == PangoDirection::Rtl) && (
        a.drop_last()[i] == PangoDirection::Rtl <==> b.drop_last()[i] == PangoDirection::Ltr) by {
            assert(a[i] == a.drop_last()[i]);
        }
        lemma_direction_mirrored(a.drop_last(), b.drop_last());
    }
}

/// The value of a variable of the environment can name a locale.
pub open spec fn names_locale(value: Option<Vec<u8>>) -> bool {
    match value {
        Some(bytes) => bytes@.len() > 0 && !bytes@.contains(0u8),
        None => false,
    }
}

fn is_locale_name(value: &Option<Vec<u8>>) -> (r: bool)
    ensures
        r == names_locale(*value),
{
    match value {
        None => false,
        Some(bytes) => {
            for i in 0..bytes.len()
                invariant
                    *value == Some(*bytes),
                    forall|j: int| 0 <= j < i ==> bytes@[j] != 0,
            {
                if bytes[i] == 0 {
                    assert(bytes@.contains(0u8));
                    return false;
                }
            }
            bytes.len() > 0
        },
    }
}

/// The locale that is named by the first of three variables that names one, else `C`.
pub open spec fn first_locale(
    lc_all: Option<Vec<u8>>,
    lc_ctype: Option<Vec<u8>>,
    lang: Option<Vec<u8>>,
) -> Seq<u8> {
    if names_locale(lc_all) {
        lc_all->0@
    } else if names_locale(lc_ctype) {
        lc_ctype->0@
    } else if names_locale(lang) {
        lang->0@
    } else {
        seq![67u8]
    }
}

/// The locale whose table is used for composing: that of the first of the variables
/// `LC_ALL`, `LC_CTYPE` and `LANG` that can name one, else `C`.
pub fn compose_locale(
    lc_all: Option<Vec<u8>>,
    lc_ctype: Option<Vec<u8>>,
    lang: Option<Vec<u8>>,
) -> (r: Vec<u8>)
    ensures
        r@ == (if names_locale(lc_all) {
            lc_all->0@
        } else if names_locale(lc_ctype) {
            lc_ctype->0@
        } else if names_locale(lang) {
            lang->0@
        } else {
            seq![67u8]
        }),
        r@ == first_locale(lc_all, lc_ctype, lang),
{
    if is_locale_name(&lc_all) {
        return lc_all.unwrap();
    }
    if is_locale_name(&lc_ctype) {
        return lc_ctype.unwrap();
    }
    if is_locale_name(&lang) {
        return lang.unwrap();
    }
    vec![67u8]
}

/// The balance of the directions is how many keys run from left to right less how many run from
/// right to left, in whatever order they are.
pub proof fn lemma_balance_counts(directions: Seq<PangoDirection>)
    ensures
        ltr_minus_rtl(directions) == directions.to_multiset().count(PangoDirection::Ltr)
            - directions.to_multiset().count(PangoDirection::Rtl),
    decreases directions.len(),
{
    broadcast use vstd::seq_lib::group_to_multiset_ensures;

    if directions.len() > 0 {
        let rest = directions.drop_last();
        lemma_balance_counts(rest);
        assert(directions =~= rest.push(directions.last()));
    } else {
        assert(directions.to_multiset().len() == 0);
    }
}

/// A value of a variable names a locale where it is set, has a character and none that ends it.
pub proof fn lemma_what_names_a_locale(bytes: Vec<u8>)
    ensures
        !names_locale(None),
        names_locale(Some(bytes)) <==> bytes@.len() > 0 && forall|i: int|
            0 <= i < bytes@.len() ==> #[trigger] bytes@[i] != 0,
{
    if names_locale(Some(bytes)) {
        assert forall|i: int| 0 <= i < bytes@.len() implies #[trigger] bytes@[i] != 0 by {
            assert(bytes@.contains(bytes@[i]));
        }
    }
}

/// The symbols of letters are the letters, and those of the keys that have a control character
/// end in it.
pub proof fn lemma_symbols()
    ensures
        XKB_KEY_j == 'j' as u32 && XKB_KEY_m == 'm' as u32 && XKB_KEY_h == 'h' as u32,
        XKB_KEY_u == 'u' as u32 && XKB_KEY_v == 'v' as u32,
        XKB_KEY_Return == 0xff00 + '\r' as u32 && XKB_KEY_KP_Enter == 0xff80 + '\r' as u32,
        XKB_KEY_Escape == 0xff00 + '\u{1b}' as u32 && XKB_KEY_BackSpace == 0xff00 + '\u{8}' as u32,
{
}

/// The direction is that of more keys than run the other way, and none where they are as many.
pub proof fn lemma_majority(directions: Seq<PangoDirection>)
    ensures
        ({
            let ltr = directions.to_multiset().count(PangoDirection::Ltr);
            let rtl = directions.to_multiset().count(PangoDirection::Rtl);
            &&& majority(directions) == PangoDirection::WeakLtr <==> ltr > rtl
            &&& majority(directions) == PangoDirection::WeakRtl <==> rtl > ltr
            &&& majority(directions) == PangoDirection::Neutral <==> ltr == rtl
        }),
{
    lemma_balance_counts(directions);
}

/// A variable that names a locale hides the ones behind it, and one that names none is as if it
/// were not set. Where none of them is set the locale is `C`.
pub proof fn lemma_locale(
    lc_all: Option<Vec<u8>>,
    lc_ctype: Option<Vec<u8>>,
    lang: Option<Vec<u8>>,
    other: Option<Vec<u8>>,
)
    ensures
        names_locale(lc_all) ==> first_locale(lc_all, lc_ctype, lang) == lc_all->0@,
        names_locale(lc_all) ==> first_locale(lc_all, other, other) == first_locale(
            lc_all,
            lc_ctype,
            lang,
        ),
        !names_locale(lc_all) ==> first_locale(lc_all, lc_ctype, lang) == first_locale(
            lc_ctype,
            lang,
            None,
        ),
        first_locale(None, None, None) == seq!['C' as u8],
{
}

} // verus!
