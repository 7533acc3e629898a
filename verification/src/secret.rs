//! Buffers that keep a passphrase in locked memory.
use vstd::prelude::*;
use vstd::utf8::*;
use zeroize::Zeroize;

verus! {

/// `secstr::SecVec`: a vector in locked memory that is overwritten when it is dropped.
#[verifier::external_type_specification]
#[verifier::external_body]
#[verifier::reject_recursive_types(T)]
pub struct ExSecVec<T: Sized + Copy>(secstr::SecVec<T>);

/// The characters that a locked vector holds.
pub uninterp spec fn secret_chars(v: secstr::SecVec<char>) -> Seq<char>;

/// The bytes that a locked vector holds.
pub uninterp spec fn secret_bytes(v: secstr::SecVec<u8>) -> Seq<u8>;

/// `secstr::SecVec::new` on characters: the locked vector holds the elements of `buf`.
#[verifier::external_body]
fn lock_chars(buf: Vec<char>) -> (r: secstr::SecVec<char>)
    ensures
        secret_chars(r) == buf@,
{
    secstr::SecVec::new(buf)
}

/// `secstr::SecVec::new` on bytes: the locked vector holds the elements of `buf`.
#[verifier::external_body]
fn lock_bytes(buf: Vec<u8>) -> (r: secstr::SecVec<u8>)
    ensures
        secret_bytes(r) == buf@,
{
    secstr::SecVec::new(buf)
}

/// `secstr::SecVec::unsecure` on characters: a view of all elements.
#[verifier::external_body]
fn view_chars(v: &secstr::SecVec<char>) -> (r: &[char])
    ensures
        r@ == secret_chars(*v),
{
    v.unsecure()
}

/// `secstr::SecVec::unsecure` on bytes: a view of all elements.
#[verifier::external_body]
fn view_bytes(v: &secstr::SecVec<u8>) -> (r: &[u8])
    ensures
        r@ == secret_bytes(*v),
{
    v.unsecure()
}

/// `secstr::SecVec::unsecure_mut` on characters: what is written through the
/// returned slice is what the vector holds afterwards.
#[verifier::external_body]
fn edit_chars(v: &mut secstr::SecVec<char>) -> (r: &mut [char])
    ensures
        r@ == secret_chars(*old(v)),
        secret_chars(*final(v)) == final(r)@,
{
    v.unsecure_mut()
}

/// `secstr::SecVec::unsecure_mut` on bytes: what is written through the
/// returned slice is what the vector holds afterwards.
#[verifier::external_body]
fn edit_bytes(v: &mut secstr::SecVec<u8>) -> (r: &mut [u8])
    ensures
        r@ == secret_bytes(*old(v)),
        secret_bytes(*final(v)) == final(r)@,
{
    v.unsecure_mut()
}

/// `char::encode_utf8`: the encoding of `c` is written to the start of `buf`, and its length
/// is returned. Nothing is said of the bytes behind it.
#[verifier::external_body]
fn encode_char(c: char, buf: &mut [u8]) -> (n: usize)
    requires
        encode_scalar(c as u32).len() <= old(buf)@.len(),
    ensures
        n == encode_scalar(c as u32).len(),
        final(buf)@.len() == old(buf)@.len(),
        final(buf)@.take(n as int) == encode_scalar(c as u32),
{
    c.encode_utf8(buf).len()
}

/// `zeroize::Zeroize::zeroize` on an integer: it becomes zero.
#[verifier::external_body]
pub(crate) fn wipe_u32(n: &mut u32)
    ensures
        *final(n) == 0,
{
    n.zeroize()
}

/// `zeroize::Zeroize::zeroize` on a vector of bytes: it becomes empty. That its memory is
/// overwritten is not stated.
#[verifier::external_body]
pub(crate) fn wipe_bytes(v: &mut Vec<u8>)
    ensures
        final(v)@ == Seq::<u8>::empty(),
{
    v.zeroize()
}

/// `std::str::from_utf8`: the text that the bytes encode, where they are UTF-8.
#[verifier::external_body]
pub(crate) fn utf8_text(bytes: &[u8]) -> (r: Option<&str>)
    ensures
        match r {
            Some(s) => valid_utf8(bytes@) && s@ == decode_utf8(bytes@),
            None => !valid_utf8(bytes@),
        },
{
    match std::str::from_utf8(bytes) {
        Ok(s) => Some(s),
        Err(_) => None,
    }
}

/// The elements that a secret can be made of.
pub trait Unit: Copy {
    /// What a locked vector of such elements holds.
    spec fn contents(v: secstr::SecVec<Self>) -> Seq<Self>;

    /// Moves `buf` into locked memory.
    fn lock(buf: Vec<Self>) -> (r: secstr::SecVec<Self>)
        ensures
            Self::contents(r) == buf@,
    ;

    /// All elements of a locked vector.
    fn read(v: &secstr::SecVec<Self>) -> (r: &[Self])
        ensures
            r@ == Self::contents(*v),
    ;

    /// All elements of a locked vector, to be written.
    fn edit(v: &mut secstr::SecVec<Self>) -> (r: &mut [Self])
        ensures
            r@ == Self::contents(*old(v)),
            Self::contents(*final(v)) == final(r)@,
    ;
}

impl Unit for char {
    open spec fn contents(v: secstr::SecVec<char>) -> Seq<char> {
        secret_chars(v)
    }

    fn lock(buf: Vec<char>) -> (r: secstr::SecVec<char>) {
        lock_chars(buf)
    }

    fn read(v: &secstr::SecVec<char>) -> (r: &[char]) {
        view_chars(v)
    }

    fn edit(v: &mut secstr::SecVec<char>) -> (r: &mut [char]) {
        edit_chars(v)
    }
}

impl Unit for u8 {
    open spec fn contents(v: secstr::SecVec<u8>) -> Seq<u8> {
        secret_bytes(v)
    }

    fn lock(buf: Vec<u8>) -> (r: secstr::SecVec<u8>) {
        lock_bytes(buf)
    }

    fn read(v: &secstr::SecVec<u8>) -> (r: &[u8]) {
        view_bytes(v)
    }

    fn edit(v: &mut secstr::SecVec<u8>) -> (r: &mut [u8]) {
        edit_bytes(v)
    }
}

/// A secret of at most as many elements as its locked buffer has room for: the
/// first `len` elements of `buf`.
#[verifier::reject_recursive_types(T)]
pub struct SecBuf<T: Unit> {
    pub buf: secstr::SecVec<T>,
    pub len: usize,
}

impl<T: Unit> View for SecBuf<T> {
    type V = Seq<T>;

    open spec fn view(&self) -> Seq<T> {
        T::contents(self.buf).take(self.len as int)
    }
}

impl<T: Unit> SecBuf<T> {
    /// The number of elements that there is room for.
    pub open spec fn capacity(self) -> nat {
        T::contents(self.buf).len()
    }

    /// The secret lies within its buffer.
    pub open spec fn wf(self) -> bool {
        self.len <= self.capacity()
    }

    /// An empty secret with the room of `buf`.
    pub fn new(buf: Vec<T>) -> (r: Self)
        ensures
            r.wf(),
            r.len == 0,
            r@ == Seq::<T>::empty(),
            T::contents(r.buf) == buf@,
            r.capacity() == buf@.len(),
    {
        SecBuf { buf: T::lock(buf), len: 0 }
    }

    /// The elements of the secret.
    pub fn unsecure(&self) -> (r: &[T])
        requires
            self.wf(),
        ensures
            r@ == self@,
    {
        let all = T::read(&self.buf);
        let part = vstd::slice::slice_subrange(all, 0, self.len);
        assert(part@ =~= self@);
        part
    }

    /// Appends `val` where there is room, and says whether there was.
    pub fn push(&mut self, val: T) -> (ok: bool)
        requires
            old(self).wf(),
        ensures
            final(self).wf(),
            final(self).capacity() == old(self).capacity(),
            ok == (old(self).len < old(self).capacity()),
            final(self)@ == (if ok { old(self)@.push(val) } else { old(self)@ }),
            final(self).len == old(self).len + (if ok { 1int } else { 0 }),
    {
        let slots = T::edit(&mut self.buf);
        if self.len < slots.len() {
            slots[self.len] = val;
            self.len += 1;
            assert(self@ =~= old(self)@.push(val));
            true
        } else {
            false
        }
    }

    /// Removes the element at `idx`; those behind it move up.
    pub fn delete(&mut self, idx: usize)
        requires
            old(self).wf(),
            idx < old(self).len,
        ensures
            final(self).wf(),
            final(self).capacity() == old(self).capacity(),
            final(self).len == old(self).len - 1,
            final(self)@ == old(self)@.remove(idx as int),
    {
        let ghost before = T::contents(self.buf);
        let len: usize = self.len;
        let slots = T::edit(&mut self.buf);
        for i in idx..len - 1
            invariant
                idx < len <= before.len(),
                slots@.len() == before.len(),
                forall|j: int| 0 <= j < idx ==> slots@[j] == before[j],
                forall|j: int| idx <= j < i ==> slots@[j] == before[j + 1],
                forall|j: int| i <= j < len ==> slots@[j] == before[j],
        {
            slots[i] = slots[i + 1];
        }
        self.len = len - 1;
        assert(self@ =~= old(self)@.remove(idx as int));
    }
}

/// How many of `wanted` characters fit into a buffer of `capacity` of which `len` are taken.
pub open spec fn fitting(wanted: nat, capacity: nat, len: nat) -> nat {
    if wanted <= capacity - len {
        wanted
    } else {
        (capacity - len) as nat
    }
}

impl SecBuf<char> {
    /// Inserts the characters of `s` before the one at `idx`, as many as there is
    /// room for, and returns their number.
    pub fn insert_many(&mut self, idx: usize, s: &str) -> (n: usize)
        requires
            old(self).wf(),
            idx <= old(self).len,
        ensures
            final(self).wf(),
            final(self).capacity() == old(self).capacity(),
            n == fitting(s@.len(), old(self).capacity(), old(self).len as nat),
            final(self).len == old(self).len + n,
            final(self)@ == old(self)@.take(idx as int) + s@.take(n as int) + old(self)@.skip(
                idx as int,
            ),
    {
        let ghost before = secret_chars(self.buf);
        let len: usize = self.len;
        let count: usize = s.unicode_len();
        let slots = char::edit(&mut self.buf);
        let total: usize = slots.len();
        let room: usize = total - len;
        let n: usize = if count <= room {
            count
        } else {
            room
        };
        let mut i: usize = len;
        while i > idx
            invariant
                idx <= i <= len,
                len + n <= before.len(),
                slots@.len() == before.len(),
                forall|j: int| 0 <= j < i ==> slots@[j] == before[j],
                forall|j: int| i <= j < len ==> #[trigger] slots@[j + n] == before[j],
            decreases i,
        {
            i -= 1;
            let moved = slots[i];
            slots[i + n] = moved;
            assert(forall|j: int| i < j < len ==> #[trigger] slots@[j + n] == before[j]);
        }
        let mut k: usize = 0;
        for c in it: s.chars()
            invariant
                it.seq() == s@,
                n <= s@.len(),
                k == (if it.index() <= n { it.index() } else { n as int }),
                idx <= len,
                len + n <= before.len(),
                before.len() == total,
                slots@.len() == before.len(),
                forall|j: int| 0 <= j < idx ==> slots@[j] == before[j],
                forall|j: int| 0 <= j < k ==> #[trigger] slots@[idx + j] == s@[j],
                forall|j: int| idx <= j < len ==> #[trigger] slots@[j + n] == before[j],
        {
            if k < n {
                slots[idx + k] = c;
                assert(forall|j: int| 0 <= j < k ==> #[trigger] slots@[idx + j] == s@[j]);
                k += 1;
            }
        }
        self.len = len + n;
        let ghost after = secret_chars(self.buf);
        assert forall|j: int| 0 <= j < len + n implies after[j] == (old(self)@.take(idx as int)
            + s@.take(n as int) + old(self)@.skip(idx as int))[j] by {
            if idx <= j < idx + n {
                assert(after[idx + (j - idx)] == s@[j - idx]);
            } else if idx + n <= j {
                assert(after[(j - n) + n] == before[j - n]);
            }
        }
        assert(self@ =~= old(self)@.take(idx as int) + s@.take(n as int) + old(self)@.skip(
            idx as int,
        ));
        n
    }
}

/// Appends the UTF-8 encoding of `pass` to `buf`.
fn encode_into(pass: &SecBuf<char>, buf: &mut SecBuf<u8>)
    requires
        pass.wf(),
        old(buf).wf(),
        old(buf).len + 4 * pass.len <= old(buf).capacity(),
    ensures
        final(buf).wf(),
        final(buf).capacity() == old(buf).capacity(),
        final(buf).len <= old(buf).len + 4 * pass.len,
        final(buf)@ == old(buf)@ + encode_utf8(pass@),
{
    let chars = pass.unsecure();
    proof {
        assert(pass@.take(0) =~= Seq::<char>::empty());
        assert(buf@ =~= old(buf)@ + encode_utf8(pass@.take(0)));
    }
    for i in 0..chars.len()
        invariant
            chars@ == pass@,
            pass@.len() == pass.len,
            buf.wf(),
            buf.capacity() == old(buf).capacity(),
            old(buf).len + 4 * pass.len <= buf.capacity(),
            buf.len <= old(buf).len + 4 * i,
            buf@ == old(buf)@ + encode_utf8(pass@.take(i as int)),
    {
        let c: char = chars[i];
        let at: usize = buf.len;
        let ghost before = buf@;
        let n: usize = {
            let slots = u8::edit(&mut buf.buf);
            let room: usize = slots.len();
            assert(at + 4 <= room);
            let (_, free) = slots.split_at_mut(at);
            encode_char(c, free)
        };
        buf.len = at + n;
        proof {
            crate::text::lemma_encode_push(pass@.take(i as int), c);
            assert(pass@.take(i + 1) =~= pass@.take(i as int).push(c));
            let after = secret_bytes(buf.buf);
            assert(after.take(at as int) =~= before);
            assert(buf@ =~= before + after.subrange(at as int, at + n));
        }
    }
    assert(pass@.take(pass.len as int) =~= pass@);
}

impl SecBuf<char> {
    /// The UTF-8 encoding of the secret, in locked memory too.
    pub fn encode(&self) -> (r: SecBuf<u8>)
        requires
            self.wf(),
            4 * self.len <= usize::MAX,
        ensures
            r.wf(),
            r@ == encode_utf8(self@),
    {
        let mut buf: SecBuf<u8> = SecBuf::new(vec![0;4 * self.len]);
        encode_into(self, &mut buf);
        assert(buf@ =~= encode_utf8(self@));
        buf
    }
}

/// The line for a passphrase: its UTF-8 encoding and a newline.
pub open spec fn line_of(pass: Seq<char>) -> Seq<u8> {
    encode_utf8(pass).push(10u8)
}

/// A passphrase that was entered.
pub struct Passphrase(pub SecBuf<char>);

impl Passphrase {
    /// What is written to standard output: the UTF-8 encoding of the passphrase and
    /// a newline, in locked memory too.
    pub fn encode_line(&self) -> (r: SecBuf<u8>)
        requires
            self.0.wf(),
            4 * self.0.len + 1 <= usize::MAX,
        ensures
            r.wf(),
            r@ == encode_utf8(self.0@).push(10u8),
            r@ == line_of(self.0@),
    {
        let mut buf: SecBuf<u8> = SecBuf::new(vec![0;4 * self.0.len + 1]);
        encode_into(&self.0, &mut buf);
        assert(buf@ =~= encode_utf8(self.0@));
        buf.push(10u8);
        buf
    }
}

/// Whoever reads the line up to its newline gets the passphrase back.
pub proof fn lemma_line_gives_passphrase(pass: Seq<char>, line: Seq<u8>)
    requires
        line == encode_utf8(pass).push(10u8),
    ensures
        valid_utf8(line.drop_last()),
        decode_utf8(line.drop_last()) == pass,
{
    assert(line.drop_last() =~= encode_utf8(pass));
    encode_utf8_valid_utf8(pass);
    encode_utf8_decode_utf8(pass);
}

/// Whatever the passphrase is, its line ends in a newline, and what is before that is read back
/// as the passphrase, so that no two passphrases are written alike.
pub proof fn lemma_line_is_read_back(pass: Seq<char>)
    ensures
        line_of(pass).len() > 0,
        line_of(pass).last() == 10,
        valid_utf8(line_of(pass).drop_last()),
        decode_utf8(line_of(pass).drop_last()) == pass,
{
    lemma_line_gives_passphrase(pass, line_of(pass));
}

} // verus!
