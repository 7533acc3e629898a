//! Characters, their UTF-8 encodings and decimal numbers.
use vstd::prelude::*;
use vstd::utf8::*;

verus! {

/// `std::string::String::push` appends one character.
pub assume_specification[ std::string::String::push ](s: &mut String, c: char)
    ensures
        final(s)@ == old(s)@.push(c),
;

/// Encoding one more character appends its encoding.
pub proof fn lemma_encode_push(chars: Seq<char>, c: char)
    ensures
        encode_utf8(chars.push(c)) == encode_utf8(chars) + encode_scalar(c as u32),
    decreases chars.len(),
{
    if chars.len() == 0 {
        assert(chars.push(c).drop_first() =~= Seq::<char>::empty());
        assert(encode_utf8(Seq::<char>::empty()) =~= Seq::<u8>::empty());
        assert(encode_utf8(chars.push(c)) =~= encode_scalar(c as u32));
    } else {
        lemma_encode_push(chars.drop_first(), c);
        assert(chars.push(c).drop_first() =~= chars.drop_first().push(c));
        assert(encode_utf8(chars.push(c)) =~= encode_utf8(chars) + encode_scalar(c as u32));
    }
}

/// Every character takes between one and four bytes.
pub proof fn lemma_encode_len(chars: Seq<char>)
    ensures
        chars.len() <= encode_utf8(chars).len() <= 4 * chars.len(),
    decreases chars.len(),
{
    if chars.len() > 0 {
        lemma_encode_len(chars.drop_first());
    }
}

/// The byte at which the character with index `k` starts in the encoding of `chars`.
pub open spec fn byte_offset(chars: Seq<char>, k: int) -> nat {
    encode_utf8(chars.take(k)).len()
}

/// The next character starts after the encoding of the one before it.
pub proof fn lemma_byte_offset_step(chars: Seq<char>, k: int)
    requires
        0 <= k < chars.len(),
    ensures
        byte_offset(chars, k + 1) == byte_offset(chars, k) + encode_scalar(chars[k] as u32).len(),
        byte_offset(chars, k) < byte_offset(chars, k + 1),
{
    assert(chars.take(k + 1) =~= chars.take(k).push(chars[k]));
    lemma_encode_push(chars.take(k), chars[k]);
}

/// Characters start in the order in which they stand in the text.
pub proof fn lemma_byte_offset_increasing(chars: Seq<char>, i: int, j: int)
    requires
        0 <= i < j <= chars.len(),
    ensures
        byte_offset(chars, i) < byte_offset(chars, j),
    decreases j - i,
{
    lemma_byte_offset_step(chars, j - 1);
    if i < j - 1 {
        lemma_byte_offset_increasing(chars, i, j - 1);
    }
}

/// The number of bytes that encode `c`.
pub fn len_utf8(c: char) -> (n: usize)
    ensures
        n == encode_scalar(c as u32).len(),
        1 <= n <= 4,
{
    let code: u32 = c as u32;
    if code < 0x80 {
        1
    } else if code < 0x800 {
        2
    } else if code < 0x10000 {
        3
    } else {
        4
    }
}

/// The number of characters that start before byte `byte`, where a character starts there.
pub fn char_index(s: &str, byte: usize) -> (k: Option<usize>)
    ensures
        match k {
            Some(k) => k < s@.len() && byte_offset(s@, k as int) == byte,
            None => forall|i: int| 0 <= i < s@.len() ==> #[trigger] byte_offset(s@, i) != byte,
        },
{
    let mut k: usize = 0;
    let mut at: usize = 0;
    proof {
        assert(s@.take(0) =~= Seq::<char>::empty());
        assert(byte_offset(s@, 0) == 0);
        lemma_encode_len(s@);
        assert(s@.take(s@.len() as int) =~= s@);
    }
    let total: usize = s.as_bytes().len();
    for c in it: s.chars()
        invariant
            it.seq() == s@,
            k == it.index(),
            at == byte_offset(s@, k as int),
            total == encode_utf8(s@).len(),
            s@.take(s@.len() as int) == s@,
            s@.len() <= total,
            forall|i: int| 0 <= i < k ==> #[trigger] byte_offset(s@, i) != byte,
    {
        if at == byte {
            return Some(k);
        }
        proof {
            lemma_byte_offset_step(s@, k as int);
            if k + 1 < s@.len() {
                lemma_byte_offset_increasing(s@, k + 1, s@.len() as int);
            }
        }
        at += len_utf8(c);
        k += 1;
    }
    None
}

/// The byte just behind the first `count` characters, where there are that many.
pub fn byte_index(s: &str, count: usize) -> (byte: Option<usize>)
    ensures
        match byte {
            Some(byte) => count <= s@.len() && byte == byte_offset(s@, count as int),
            None => count > s@.len(),
        },
{
    let mut k: usize = 0;
    let mut at: usize = 0;
    proof {
        assert(s@.take(0) =~= Seq::<char>::empty());
        lemma_encode_len(s@);
        assert(s@.take(s@.len() as int) =~= s@);
    }
    if count == 0 {
        return Some(0);
    }
    let total: usize = s.as_bytes().len();
    for c in it: s.chars()
        invariant
            it.seq() == s@,
            k == it.index(),
            at == byte_offset(s@, k as int),
            total == encode_utf8(s@).len(),
            s@.take(s@.len() as int) == s@,
            s@.len() <= total,
            k < count,
    {
        proof {
            lemma_byte_offset_step(s@, k as int);
            if k + 1 < s@.len() {
                lemma_byte_offset_increasing(s@, k + 1, s@.len() as int);
            }
        }
        at += len_utf8(c);
        k += 1;
        if k == count {
            return Some(at);
        }
    }
    None
}

/// `n` copies of `unit`, one after another.
pub open spec fn repeated(unit: Seq<char>, n: nat) -> Seq<char>
    decreases n,
{
    if n == 0 {
        seq![]
    } else {
        repeated(unit, (n - 1) as nat) + unit
    }
}

/// The string `unit` written `n` times.
pub fn repeat(unit: &str, n: usize) -> (r: String)
    ensures
        r@ == repeated(unit@, n as nat),
{
    let mut r = String::new();
    for i in 0..n
        invariant
            r@ == repeated(unit@, i as nat),
    {
        r.append(unit);
    }
    r
}

/// The digit that stands for `d`.
pub open spec fn digit(d: nat) -> char {
    (48 + d) as char
}

/// A number in decimal digits, without leading zeros.
pub open spec fn decimal_digits(n: nat) -> Seq<char>
    decreases n,
{
    if n < 10 {
        seq![digit(n)]
    } else {
        decimal_digits(n / 10).push(digit(n % 10))
    }
}

/// Writes `n` in decimal.
pub fn decimal(n: u64) -> (r: String)
    ensures
        r@ == decimal_digits(n as nat),
    decreases n,
{
    let mut r = if n < 10 {
        String::new()
    } else {
        decimal(n / 10)
    };
    let d: u8 = (n % 10) as u8;
    r.push((48 + d) as char);
    r
}

/// Copies stand one after another: the length is that of all of them, and each character comes
/// back after the length of one.
pub proof fn lemma_repeated(unit: Seq<char>, n: nat)
    ensures
        repeated(unit, n).len() == n * unit.len(),
        forall|i: int|
            0 <= i < n * unit.len() ==> #[trigger] repeated(unit, n)[i] == unit[i
                % unit.len() as int],
    decreases n,
{
    if n > 0 {
        let m = (n - 1) as nat;
        let len = unit.len() as int;
        lemma_repeated(unit, m);
        assert(n * len == m * len + len) by (nonlinear_arith)
            requires
                n == m + 1,
        ;
        assert forall|i: int| 0 <= i < n * unit.len() implies #[trigger] repeated(unit, n)[i]
            == unit[i % len] by {
            if i < m * len {
                assert(repeated(unit, n)[i] == repeated(unit, m)[i]);
            } else {
                assert(repeated(unit, n)[i] == unit[i - m * len]);
                assert(i % len == i - m * len) by {
                    vstd::arithmetic::div_mod::lemma_fundamental_div_mod_converse(
                        i,
                        len,
                        m as int,
                        i - m * len,
                    );
                }
            }
        }
    } else {
        assert(n * unit.len() == 0) by (nonlinear_arith)
            requires
                n == 0,
        ;
    }
}

/// A number is written as its digits are: ten times a number and a digit is written as that
/// number with the digit behind it, and a number under ten is one digit.
pub proof fn lemma_decimal_digits(n: nat, d: nat)
    requires
        d < 10,
    ensures
        decimal_digits(d) == seq![('0' as u32 + d) as char],
        n > 0 ==> decimal_digits(10 * n + d) == decimal_digits(n).push(('0' as u32 + d) as char),
{
    assert((10 * n + d) / 10 == n);
    assert((10 * n + d) % 10 == d);
}

} // verus!
