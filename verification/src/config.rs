//! The settings that decide how the dialog behaves, and colours as they are written
//! in the configuration file.
use vstd::prelude::*;
use vstd::utf8::*;

verus! {

/// The name of the program and of its configuration file.
pub const NAME: &'static str = "xaskpass";

/// What can be wrong with the digits of a colour.
#[derive(Clone, Copy, Debug, PartialEq, Eq)]
pub enum HexError {
    OddLength,
    InvalidStringLength,
    InvalidHexCharacter { c: char, index: usize },
}

/// The value of a hexadecimal digit of either case.
pub open spec fn hex_value(b: u8) -> Option<int> {
    if 48 <= b <= 57 {
        Some(b - 48)
    } else if 65 <= b <= 70 {
        Some(b - 55)
    } else if 97 <= b <= 102 {
        Some(b - 87)
    } else {
        None
    }
}

/// All of `data` are hexadecimal digits.
pub open spec fn all_hex(data: Seq<u8>) -> bool {
    forall|i: int| 0 <= i < data.len() ==> hex_value(#[trigger] data[i]) is Some
}

/// The byte that the digits at `2 * i` and `2 * i + 1` stand for.
pub open spec fn hex_byte(data: Seq<u8>, i: int) -> int {
    16 * hex_value(data[2 * i])->0 + hex_value(data[2 * i + 1])->0
}

/// The character at `index` is the first one that is no hexadecimal digit.
pub open spec fn first_bad_digit(data: Seq<u8>, c: char, index: usize) -> bool {
    &&& index < data.len()
    &&& hex_value(data[index as int]) is None
    &&& c == data[index as int] as char
    &&& all_hex(data.take(index as int))
}

/// `hex::decode_to_slice`: two digits of either case make one byte. It fails, in this
/// order, on an odd number of digits, on a number of digits that does not fill `out`
/// and on the first character that is no digit; what `out` holds then is not stated.
#[verifier::external_body]
fn decode_to_slice(data: &[u8], out: &mut [u8]) -> (r: Result<(), HexError>)
    ensures
        final(out)@.len() == old(out)@.len(),
        match r {
            Ok(()) => {
                &&& data@.len() == 2 * old(out)@.len()
                &&& all_hex(data@)
                &&& forall|i: int|
                    0 <= i < old(out)@.len() ==> #[trigger] final(out)@[i] == hex_byte(data@, i)
            },
            Err(HexError::OddLength) => data@.len() % 2 != 0,
            Err(HexError::InvalidStringLength) => data@.len() % 2 == 0 && data@.len() / 2 != old(
                out,
            )@.len(),
            Err(HexError::InvalidHexCharacter { c, index }) => data@.len() == 2 * old(out)@.len()
                && first_bad_digit(data@, c, index),
        },
{
    match hex::decode_to_slice(data, out) {
        Ok(()) => Ok(()),
        Err(hex::FromHexError::OddLength) => Err(HexError::OddLength),
        Err(hex::FromHexError::InvalidStringLength) => Err(HexError::InvalidStringLength),
        Err(hex::FromHexError::InvalidHexCharacter { c, index }) => {
            Err(HexError::InvalidHexCharacter { c, index })
        },
    }
}

/// The lower case digit for a value under 16.
pub open spec fn hex_digit(v: int) -> char {
    if v < 10 {
        (48 + v) as char
    } else {
        (87 + v) as char
    }
}

/// Two lower case digits for each byte.
pub open spec fn hex_digits(data: Seq<u8>) -> Seq<char> {
    Seq::new(
        2 * data.len(),
        |i: int|
            if i % 2 == 0 {
                hex_digit(data[i / 2] as int / 16)
            } else {
                hex_digit(data[i / 2] as int % 16)
            },
    )
}

/// `hex::encode`: two lower case digits for each byte, the upper half first.
#[verifier::external_body]
fn encode(data: &[u8]) -> (r: String)
    ensures
        r@ == hex_digits(data@),
{
    hex::encode(data)
}

/// Why a text is no colour.
#[derive(Clone, Copy, Debug, PartialEq, Eq)]
pub enum ColorError {
    /// There are neither six nor eight digits, but this many bytes.
    Length(usize),
    Hex(HexError),
}

/// What `hex` writes of a character that is no digit.
pub uninterp spec fn bad_digit_words(c: char, index: usize) -> Seq<char>;

/// The `Display` of `hex::FromHexError`: the error in words. Of a character that is no digit
/// they follow from it and its place; one that needs no escape stands between quotes.
#[verifier::external_body]
fn hex_words(err: HexError) -> (r: String)
    ensures
        match err {
            HexError::OddLength => r@ == "Odd number of digits"@,
            HexError::InvalidStringLength => r@ == "Invalid string length"@,
            HexError::InvalidHexCharacter { c, index } => r@ == bad_digit_words(c, index) && (
            needs_no_escape(c) ==> r@ == "Invalid character '"@ + seq![c] + "' at position "@
                + crate::text::decimal_digits(index as nat)),
        },
{
    match err {
        HexError::OddLength => hex::FromHexError::OddLength.to_string(),
        HexError::InvalidStringLength => hex::FromHexError::InvalidStringLength.to_string(),
        HexError::InvalidHexCharacter { c, index } => {
            hex::FromHexError::InvalidHexCharacter { c, index }.to_string()
        },
    }
}

/// A printable ASCII character that is neither a quote nor a backslash.
pub open spec fn needs_no_escape(c: char) -> bool {
    ' ' <= c <= '~' && c != '\'' && c != '"' && c != '\\'
}

impl HexError {
    /// The error in words.
    pub open spec fn words(self) -> Seq<char> {
        match self {
            HexError::OddLength => "Odd number of digits"@,
            HexError::InvalidStringLength => "Invalid string length"@,
            HexError::InvalidHexCharacter { c, index } => if needs_no_escape(c) {
                "Invalid character '"@ + seq![c] + "' at position "@
                    + crate::text::decimal_digits(index as nat)
            } else {
                bad_digit_words(c, index)
            },
        }
    }
}

impl ColorError {
    /// The error in words.
    pub fn message(&self) -> (r: String)
        ensures
            match *self {
                ColorError::Length(n) => r@ == "invalid hex color length: "@
                    + crate::text::decimal_digits(n as nat),
                ColorError::Hex(err) => r@ == "color: "@ + err.words(),
            },
    {
        match self {
            ColorError::Length(n) => String::from_str("invalid hex color length: ").concat(
                crate::text::decimal(*n as u64).as_str(),
            ),
            ColorError::Hex(err) => String::from_str("color: ").concat(hex_words(*err).as_str()),
        }
    }
}

/// A colour with its opacity.
#[derive(Clone, Copy, Debug, PartialEq, Eq, Structural)]
pub struct Rgba {
    pub red: u8,
    pub green: u8,
    pub blue: u8,
    pub alpha: u8,
}

/// `b` from its first byte on that is not `#`.
pub open spec fn without_prefix(b: Seq<u8>) -> Seq<u8>
    decreases b.len(),
{
    if b.len() > 0 && b[0] == 35 {
        without_prefix(b.drop_first())
    } else {
        b
    }
}

/// What the bytes of a text say as a colour.
pub open spec fn parses_as(text: Seq<u8>, r: Result<Rgba, ColorError>) -> bool {
    let digits = without_prefix(text);
    match r {
        Ok(color) => {
            &&& digits.len() == 6 || digits.len() == 8
            &&& all_hex(digits)
            &&& color.red == hex_byte(digits, 0)
            &&& color.green == hex_byte(digits, 1)
            &&& color.blue == hex_byte(digits, 2)
            &&& color.alpha == (if digits.len() == 8 {
                hex_byte(digits, 3)
            } else {
                255
            })
        },
        Err(ColorError::Length(n)) => n == digits.len() && n != 6 && n != 8,
        Err(ColorError::Hex(HexError::InvalidHexCharacter { c, index })) => (digits.len() == 6
            || digits.len() == 8) && first_bad_digit(digits, c, index),
        Err(ColorError::Hex(_)) => false,
    }
}

/// What a colour is written as: the opacity is left out where it is full.
pub open spec fn color_text(c: Rgba) -> Seq<char> {
    seq!['#'] + hex_digits(
        if c.alpha == 255 {
            seq![c.red, c.green, c.blue]
        } else {
            seq![c.red, c.green, c.blue, c.alpha]
        },
    )
}

impl Rgba {
    /// Reads a colour: any number of `#`, and six or eight hexadecimal digits for red,
    /// green, blue and the opacity, which is full where it is left out.
    pub fn from_str(s: &str) -> (r: Result<Rgba, ColorError>)
        ensures
            parses_as(encode_utf8(s@), r),
    {
        let text = s.as_bytes();
        let total: usize = text.len();
        let mut start: usize = 0;
        assert(text@.skip(0) =~= text@);
        while start < total && text[start] == 35
            invariant
                start <= total == text@.len(),
                without_prefix(text@) == without_prefix(text@.skip(start as int)),
            decreases total - start,
        {
            assert(text@.skip(start as int).drop_first() =~= text@.skip(start + 1));
            start += 1;
        }
        let digits = vstd::slice::slice_subrange(text, start, total);
        assert(digits@ =~= text@.skip(start as int));
        assert(without_prefix(text@) == digits@);
        if digits.len() == 8 {
            let mut bytes: [u8; 4] = [0;4];
            match decode_to_slice(digits, &mut bytes) {
                Err(err) => Err(ColorError::Hex(err)),
                Ok(()) => Ok(
                    Rgba { red: bytes[0], green: bytes[1], blue: bytes[2], alpha: bytes[3] },
                ),
            }
        } else if digits.len() == 6 {
            let mut bytes: [u8; 3] = [0;3];
            match decode_to_slice(digits, &mut bytes) {
                Err(err) => Err(ColorError::Hex(err)),
                Ok(()) => Ok(Rgba { red: bytes[0], green: bytes[1], blue: bytes[2], alpha: 255 }),
            }
        } else {
            Err(ColorError::Length(digits.len()))
        }
    }

    /// Writes the colour as `#rrggbb`, or as `#rrggbbaa` where it is not opaque.
    pub fn to_text(&self) -> (r: String)
        ensures
            r@ == color_text(*self),
    {
        let hex = if self.alpha == u8::MAX {
            let bytes: [u8; 3] = [self.red, self.green, self.blue];
            assert(bytes@ =~= seq![self.red, self.green, self.blue]);
            encode(&bytes)
        } else {
            let bytes: [u8; 4] = [self.red, self.green, self.blue, self.alpha];
            assert(bytes@ =~= seq![self.red, self.green, self.blue, self.alpha]);
            encode(&bytes)
        };
        let mut text = String::new();
        text.push('#');
        text.append(hex.as_str());
        assert(text@ =~= color_text(*self));
        text
    }
}

/// A digit that was written for a value is read as that value.
proof fn lemma_hex_digit(v: int)
    requires
        0 <= v < 16,
    ensures
        '\0' <= hex_digit(v) <= '\u{7f}',
        hex_value(hex_digit(v) as u8) == Some(v),
{
}

/// A colour that was written is read back as it was.
pub proof fn lemma_color_round_trip(c: Rgba, r: Result<Rgba, ColorError>)
    requires
        parses_as(encode_utf8(color_text(c)), r),
    ensures
        r == Ok::<Rgba, ColorError>(c),
{
    let data = if c.alpha == 255 {
        seq![c.red, c.green, c.blue]
    } else {
        seq![c.red, c.green, c.blue, c.alpha]
    };
    let chars = color_text(c);
    let bytes = encode_utf8(chars);
    assert forall|i: int| 0 <= i < chars.len() implies '\0' <= #[trigger] chars[i] <= '\u{7f}' by {
        if i > 0 {
            lemma_hex_digit(data[(i - 1) / 2] as int / 16);
            lemma_hex_digit(data[(i - 1) / 2] as int % 16);
        }
    }
    is_ascii_chars_encode_utf8(chars);
    let digits = bytes.drop_first();
    assert forall|i: int| 0 <= i < digits.len() implies hex_value(#[trigger] digits[i]) == Some(
        if i % 2 == 0 {
            data[i / 2] as int / 16
        } else {
            data[i / 2] as int % 16
        },
    ) by {
        assert(chars[i + 1] as u8 == bytes[i + 1]);
        lemma_hex_digit(data[i / 2] as int / 16);
        lemma_hex_digit(data[i / 2] as int % 16);
    }
    assert(bytes[0] == chars[0] as u8);
    assert(hex_value(digits[0]) is Some);
    assert(without_prefix(digits) == digits);
    assert(without_prefix(bytes) == digits);
    assert(all_hex(digits));
    assert forall|i: int| 0 <= i < data.len() implies hex_byte(digits, i) == #[trigger] data[i] by {
        assert((2 * i) / 2 == i);
        assert((2 * i + 1) / 2 == i);
    }
    assert(data[0] == c.red && data[1] == c.green && data[2] == c.blue);
    if c.alpha != 255 {
        assert(data[3] == c.alpha);
    }
}

/// What `str::to_lowercase` makes of a text.
pub uninterp spec fn lowercase(text: Seq<char>) -> Seq<char>;

/// The small letter for a letter from `A` to `Z`, and every other character itself.
pub open spec fn ascii_lower(c: char) -> char {
    if 'A' <= c <= 'Z' {
        (c as u32 + 32) as char
    } else {
        c
    }
}

/// `text` with small letters for those from `A` to `Z`.
pub open spec fn ascii_lowercase(text: Seq<char>) -> Seq<char> {
    Seq::new(text.len(), |i: int| ascii_lower(text[i]))
}

/// `str::to_lowercase`: its result follows from the text alone. In a text of ASCII characters
/// the letters from `A` to `Z` become small and the others stay.
#[verifier::external_body]
fn to_lowercase(text: &str) -> (r: String)
    ensures
        r@ == lowercase(text@),
        is_ascii_chars(text@) ==> r@ == ascii_lowercase(text@),
{
    text.to_lowercase()
}

/// The word that stands for no value.
pub const NONE_WORD: &'static str = "none";

/// A text that stands for no value: the word for it, in any case.
pub open spec fn stands_for_none(text: Seq<char>) -> bool {
    if is_ascii_chars(text) {
        ascii_lowercase(text) == NONE_WORD@
    } else {
        lowercase(text) == NONE_WORD@
    }
}

/// Whether a setting in lower case is the one that stands for no value.
pub fn is_none_word(lowered: &String) -> (r: bool)
    ensures
        r == (lowered@ == NONE_WORD@),
{
    *lowered == String::from_str(NONE_WORD)
}

/// Whether a text setting stands for no value: `none`, in any case.
pub fn is_explicit_none(text: &str) -> (r: bool)
    ensures
        r == stands_for_none(text@),
        r == (lowercase(text@) == NONE_WORD@),
{
    is_none_word(&to_lowercase(text))
}

/// Of texts of ASCII characters those stand for no value that have the four letters of the
/// word, each of them small or large.
pub proof fn lemma_none_in_any_case(text: Seq<char>)
    requires
        is_ascii_chars(text),
    ensures
        stands_for_none(text) <==> {
            &&& text.len() == 4
            &&& text[0] == 'n' || text[0] == 'N'
            &&& text[1] == 'o' || text[1] == 'O'
            &&& text[2] == 'n' || text[2] == 'N'
            &&& text[3] == 'e' || text[3] == 'E'
        },
{
    reveal_strlit("none");
    let lower = ascii_lowercase(text);
    if text.len() == 4 {
        assert(lower[0] == ascii_lower(text[0]));
        assert(lower[1] == ascii_lower(text[1]));
        assert(lower[2] == ascii_lower(text[2]));
        assert(lower[3] == ascii_lower(text[3]));
        if lower == "none"@ {
            assert("none"@[0] == 'n' && "none"@[1] == 'o' && "none"@[2] == 'n' && "none"@[3]
                == 'e');
        }
        if ascii_lower(text[0]) == 'n' && ascii_lower(text[1]) == 'o' && ascii_lower(text[2]) == 'n'
            && ascii_lower(text[3]) == 'e' {
            assert(lower =~= "none"@);
        }
    } else {
        assert(lower.len() != "none"@.len());
    }
}

/// A setting as it stands in the configuration file: a text, or something else.
pub enum Setting<V> {
    Text(String),
    Other(V),
}

impl<V> Setting<V> {
    /// The setting stands for no value.
    pub open spec fn is_none(self) -> bool {
        self matches Setting::Text(text) && stands_for_none(text@)
    }
}

/// `w` is how a value is written that may be missing and has the form `form` where it is not.
pub open spec fn writes<V>(form: Option<Setting<V>>, w: Setting<V>) -> bool {
    match form {
        None => w matches Setting::Text(text) && text@ == NONE_WORD@,
        Some(form) => w == form,
    }
}

/// How a value is written that may be missing.
pub fn option_explicit_serialize<V>(form: Option<Setting<V>>) -> (w: Setting<V>)
    ensures
        writes(form, w),
{
    match form {
        None => Setting::Text(String::from_str(NONE_WORD)),
        Some(form) => form,
    }
}

/// What a setting is read as that may be missing, where `parsed` is what it is read as when
/// it is not: a setting that cannot be read is an error, never missing.
pub open spec fn reads<V, T, E>(w: Setting<V>, parsed: Result<T, E>) -> Result<Option<T>, E> {
    if w.is_none() {
        Ok(None)
    } else {
        match parsed {
            Ok(value) => Ok(Some(value)),
            Err(err) => Err(err),
        }
    }
}

/// Reads a setting that may be missing. `parse` reads one that is not.
pub fn option_explicit_none<V, T, E, F: FnOnce(Setting<V>) -> Result<T, E>>(
    w: Setting<V>,
    parse: F,
) -> (r: Result<Option<T>, E>)
    requires
        !w.is_none() ==> call_requires(parse, (w,)),
    ensures
        w.is_none() ==> r == Ok::<Option<T>, E>(None),
        !w.is_none() ==> exists|parsed: Result<T, E>| #[trigger]
            call_ensures(parse, (w,), parsed) && r == reads(w, parsed),
{
    let missing = match &w {
        Setting::Text(text) => is_explicit_none(text.as_str()),
        Setting::Other(_) => false,
    };
    if missing {
        return Ok(None);
    }
    let ghost given = w;
    let parsed = parse(w);
    assert(call_ensures(parse, (given,), parsed));
    match parsed {
        Ok(value) => Ok(Some(value)),
        Err(err) => Err(err),
    }
}

/// What was written is read back, where the form of a value is read as that value: a missing
/// value as missing, and any other as itself unless its form is the word for a missing one.
/// Only that word is read as missing.
pub proof fn lemma_option_round_trip<V, T, E>(
    value: Option<T>,
    form: Option<Setting<V>>,
    w: Setting<V>,
    parsed: Result<T, E>,
)
    requires
        value is Some <==> form is Some,
        writes(form, w),
        value matches Some(v) ==> parsed == Ok::<T, E>(v),
    ensures
        value is None ==> reads(w, parsed) == Ok::<Option<T>, E>(None),
        value is Some && !form->0.is_none() ==> reads(w, parsed) == Ok::<Option<T>, E>(value),
        value is Some && form->0.is_none() ==> reads(w, parsed) == Ok::<Option<T>, E>(None),
        reads(w, parsed) == Ok::<Option<T>, E>(None) <==> w.is_none(),
{
    reveal_strlit("none");
    if value is None {
        assert(is_ascii_chars(NONE_WORD@));
        lemma_none_in_any_case(NONE_WORD@);
    }
}

/// How text is aligned.
#[derive(Clone, Copy, Debug, PartialEq, Eq, Structural)]
pub enum PangoAlignment {
    Left,
    Center,
    Right,
}

/// The direction in which text runs.
#[derive(Clone, Copy, Debug, PartialEq, Eq, Structural)]
pub enum PangoDirection {
    Ltr,
    Neutral,
    Rtl,
    WeakLtr,
    WeakRtl,
}

/// Why a list of strings cannot be used.
#[derive(Clone, Copy, Debug, PartialEq, Eq, Structural)]
pub enum StringsError {
    TooFew,
}

impl StringsError {
    /// The error in words.
    pub fn message(&self) -> (r: String)
        ensures
            r@ == "strings should have at least 2 elements"@,
    {
        String::from_str("strings should have at least 2 elements")
    }
}

/// Accepts the strings of an indicator: one for what was pasted and at least one other.
pub fn strings(arr: Vec<String>) -> (r: Result<Vec<String>, StringsError>)
    ensures
        match r {
            Ok(v) => v == arr && arr@.len() >= 2,
            Err(_) => arr@.len() < 2,
        },
{
    if arr.len() < 2 {
        return Err(StringsError::TooFew);
    }
    Ok(arr)
}

/// An indicator that shows one of a list of strings, the first one after a paste.
#[derive(Clone, Debug)]
pub struct Custom {
    pub alignment: PangoAlignment,
    pub justify: bool,
    pub randomize: bool,
    pub strings: Vec<String>,
}

impl Default for Custom {
    fn default() -> (r: Custom)
        ensures
            r.alignment == PangoAlignment::Center,
            !r.justify,
            r.randomize,
            r.strings@.len() == 5,
            r.strings@[0]@ == "pasted 🤯"@,
            r.strings@[1]@ == "(っ-̶●̃益●̶̃)っ ,︵‿ "@,
            r.strings@[2]@ == "(⊙.⊙(☉̃ₒ☉)⊙.⊙)"@,
            r.strings@[3]@ == "ʕ•́ᴥ•̀ʔっ"@,
            r.strings@[4]@ == "ヽ(´ー`)人(´∇｀)人(`Д´)ノ"@,
    {
        Custom {
            alignment: PangoAlignment::Center,
            justify: false,
            randomize: true,
            strings: vec![
                String::from_str("pasted 🤯"),
                String::from_str("(っ-̶●̃益●̶̃)っ ,︵‿ "),
                String::from_str("(⊙.⊙(☉̃ₒ☉)⊙.⊙)"),
                String::from_str("ʕ•́ᴥ•̀ʔっ"),
                String::from_str("ヽ(´ー`)人(´∇｀)人(`Д´)ノ"),
            ],
        }
    }
}

/// An indicator of dancing figures.
#[derive(Clone, Copy, Debug, PartialEq, Eq, Structural)]
pub struct Disco {
    pub min_count: u16,
    pub max_count: u16,
    pub three_states: bool,
}

impl Default for Disco {
    fn default() -> (r: Disco)
        ensures
            r == (Disco { min_count: 3, max_count: 3, three_states: false }),
    {
        Disco { min_count: 3, max_count: 3, three_states: false }
    }
}

/// An indicator that repeats one string for each character.
#[derive(Clone, Debug)]
pub struct Asterisk {
    pub alignment: PangoAlignment,
    pub asterisk: String,
    pub min_count: u16,
    pub max_count: u16,
}

impl Default for Asterisk {
    fn default() -> (r: Asterisk)
        ensures
            r.alignment == PangoAlignment::Center,
            r.asterisk@ == "*"@,
            r.min_count == 10,
            r.max_count == 20,
    {
        Asterisk {
            alignment: PangoAlignment::Center,
            asterisk: String::from_str("*"),
            min_count: 10,
            max_count: 20,
        }
    }
}

/// What a text indicator shows in place of the passphrase.
#[derive(Clone, Debug)]
pub enum StringType {
    Disco { disco: Disco },
    Custom { custom: Custom },
    Asterisk { asterisk: Asterisk },
}

/// The settings of the window.
#[derive(Clone, Debug)]
pub struct Config {
    pub title: String,
    pub grab_keyboard: bool,
    pub show_hostname: bool,
    pub resizable: bool,
    pub depth: u8,
}

impl Default for Config {
    fn default() -> (r: Config)
        ensures
            r.title@ == NAME@,
            !r.grab_keyboard,
            !r.show_hostname,
            !r.resizable,
            r.depth == 32,
    {
        Config {
            title: String::from_str(NAME),
            grab_keyboard: false,
            show_hostname: false,
            resizable: false,
            depth: 32,
        }
    }
}

/// A digit means the same in either case, so that a colour may be written in both.
pub proof fn lemma_color_in_either_case(
    a: Seq<u8>,
    b: Seq<u8>,
    r: Result<Rgba, ColorError>,
    s: Result<Rgba, ColorError>,
)
    requires
        a.len() == b.len(),
        forall|i: int|
            0 <= i < a.len() ==> #[trigger] b[i] == (if 'a' as u32 <= a[i] <= 'f' as u32 {
                (a[i] - 32) as u8
            } else {
                a[i]
            }),
        parses_as(a, r),
        parses_as(b, s),
        r is Ok,
    ensures
        s == r,
{
    lemma_prefix_in_either_case(a, b);
    let x = without_prefix(a);
    let y = without_prefix(b);
    assert(x.len() == y.len());
    assert forall|i: int| 0 <= i < x.len() implies hex_value(#[trigger] y[i]) == hex_value(x[i]) by {
        assert(hex_value(x[i]) is Some);
    }
    assert(all_hex(y)) by {
        assert forall|i: int| 0 <= i < y.len() implies hex_value(#[trigger] y[i]) is Some by {
            assert(hex_value(x[i]) is Some);
        }
    }
}

proof fn lemma_prefix_in_either_case(a: Seq<u8>, b: Seq<u8>)
    requires
        a.len() == b.len(),
        forall|i: int|
            0 <= i < a.len() ==> #[trigger] b[i] == (if 'a' as u32 <= a[i] <= 'f' as u32 {
                (a[i] - 32) as u8
            } else {
                a[i]
            }),
    ensures
        without_prefix(a).len() == without_prefix(b).len(),
        forall|i: int|
            0 <= i < without_prefix(a).len() ==> #[trigger] without_prefix(b)[i] == (
            if 'a' as u32 <= without_prefix(a)[i] <= 'f' as u32 {
                (without_prefix(a)[i] - 32) as u8
            } else {
                without_prefix(a)[i]
            }),
    decreases a.len(),
{
    if a.len() > 0 {
        assert(b[0] == (if 'a' as u32 <= a[0] <= 'f' as u32 {
            (a[0] - 32) as u8
        } else {
            a[0]
        }));
        if a[0] == 35 {
            let x = a.drop_first();
            let y = b.drop_first();
            assert forall|i: int| 0 <= i < x.len() implies #[trigger] y[i] == (
            if 'a' as u32 <= x[i] <= 'f' as u32 {
                (x[i] - 32) as u8
            } else {
                x[i]
            }) by {
                assert(y[i] == b[i + 1]);
            }
            lemma_prefix_in_either_case(x, y);
        }
    }
}

/// It does not matter how many `#` stand before the digits of a colour, nor whether there is any.
pub proof fn lemma_color_prefix(text: Seq<u8>, r: Result<Rgba, ColorError>)
    ensures
        parses_as(seq!['#' as u8] + text, r) <==> parses_as(text, r),
{
    assert((seq!['#' as u8] + text).drop_first() =~= text);
}

/// A colour whose opacity is left out is that with the digits for full opacity behind it.
pub proof fn lemma_color_opaque(
    digits: Seq<u8>,
    r: Result<Rgba, ColorError>,
    s: Result<Rgba, ColorError>,
)
    requires
        digits.len() == 6,
        digits[0] != '#' as u8,
        parses_as(digits, r),
        parses_as(digits + seq!['f' as u8, 'f' as u8], s),
        r is Ok,
    ensures
        s == r,
        r->Ok_0.alpha == 255,
{
    let more = digits + seq!['f' as u8, 'f' as u8];
    assert(without_prefix(digits) == digits);
    assert(without_prefix(more) == more);
    assert forall|i: int| 0 <= i < 8 implies hex_value(#[trigger] more[i]) is Some by {
        if i < 6 {
            assert(hex_value(digits[i]) is Some);
        }
    }
    assert(all_hex(more));
    assert(more[6] == 'f' as u8 && more[7] == 'f' as u8);
}

/// A text is a colour just where it has six or eight digits behind its `#`, and nothing else;
/// else the error tells its length, or the first character that is no digit and its place.
pub proof fn lemma_what_is_a_color(digits: Seq<u8>, r: Result<Rgba, ColorError>)
    requires
        digits.len() == 0 || digits[0] != '#' as u8,
        digits.len() <= usize::MAX,
        parses_as(digits, r),
    ensures
        digits.len() != 6 && digits.len() != 8 <==> r is Err && r->Err_0 is Length,
        digits.len() != 6 && digits.len() != 8 ==> r->Err_0 == ColorError::Length(
            digits.len() as usize,
        ),
        r is Ok <==> (digits.len() == 6 || digits.len() == 8) && forall|i: int|
            0 <= i < digits.len() ==> {
                ||| '0' as u32 <= #[trigger] digits[i] <= '9' as u32
                ||| 'a' as u32 <= digits[i] <= 'f' as u32
                ||| 'A' as u32 <= digits[i] <= 'F' as u32
            },
        r matches Err(ColorError::Hex(err)) ==> (err matches HexError::InvalidHexCharacter {
            c,
            index,
        } && index < digits.len() && c as u32 == digits[index as int]),
{
    assert(without_prefix(digits) == digits);
    if r is Ok {
        assert forall|i: int| 0 <= i < digits.len() implies {
            ||| '0' as u32 <= #[trigger] digits[i] <= '9' as u32
            ||| 'a' as u32 <= digits[i] <= 'f' as u32
            ||| 'A' as u32 <= digits[i] <= 'F' as u32
        } by {
            assert(hex_value(digits[i]) is Some);
        }
    }
}

} // verus!
