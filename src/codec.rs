//! Little-endian, padding-free layout of fixed-size values.
//!
//! Every value that has a fixed binary layout implements [`Field`]: its bytes
//! are given by `append_to`, `put` writes exactly those bytes and `take`
//! reads them back from a [`ByteReader`].

use vstd::prelude::*;

verus! {

/// A position in a byte slice; everything before `pos` has been consumed.
pub struct ByteReader<'a> {
    pub bytes: &'a [u8],
    pub pos: usize,
}

impl<'a> ByteReader<'a> {
    pub open spec fn wf(&self) -> bool {
        self.pos <= self.bytes@.len()
    }

    /// The bytes read so far.
    pub open spec fn consumed(&self) -> Seq<u8> {
        self.bytes@.subrange(0, self.pos as int)
    }

    /// How many bytes are left to read.
    pub open spec fn remaining(&self) -> int {
        self.bytes@.len() - self.pos
    }

    /// A reader at the start of `bytes`.
    pub fn new(bytes: &'a [u8]) -> (r: Self)
        ensures
            r.bytes == bytes,
            r.pos == 0,
            r.wf(),
    {
        ByteReader { bytes, pos: 0 }
    }

    /// Whether at least `n` more bytes can be read.
    pub fn has(&self, n: usize) -> (r: bool)
        requires
            self.wf(),
        ensures
            r == (self.remaining() >= n),
    {
        self.bytes.len() - self.pos >= n
    }

    /// Whether every byte has been read.
    pub fn at_end(&self) -> (r: bool)
        requires
            self.wf(),
        ensures
            r == (self.remaining() == 0),
    {
        self.pos == self.bytes.len()
    }

    /// Reads one byte.
    pub fn take_byte(&mut self) -> (r: u8)
        requires
            old(self).wf(),
            old(self).remaining() >= 1,
        ensures
            final(self).wf(),
            final(self).bytes == old(self).bytes,
            final(self).pos == old(self).pos + 1,
            final(self).consumed() == old(self).consumed().push(r),
    {
        let r = self.bytes[self.pos];
        proof {
            assert(self.bytes@.subrange(0, self.pos + 1) =~= self.consumed().push(r));
        }
        self.pos = self.pos + 1;
        r
    }
}

/// A value with a fixed-size, padding-free binary layout.
pub trait Field: Sized + Copy {
    /// Number of bytes in the layout.
    spec fn width() -> nat;

    /// `acc` followed by the layout of `self`.
    spec fn append_to(self, acc: Seq<u8>) -> Seq<u8>;

    /// The layout adds exactly `width()` bytes and keeps what came before.
    proof fn lemma_extends(self, acc: Seq<u8>)
        ensures
            self.append_to(acc).len() == acc.len() + Self::width(),
            forall|i: int| 0 <= i < acc.len() ==> #[trigger] self.append_to(acc)[i] == acc[i],
    ;

    /// Two values with the same layout after equally long prefixes are equal,
    /// and so are the prefixes.
    proof fn lemma_injective(self, other: Self, acc: Seq<u8>, acc2: Seq<u8>)
        requires
            self.append_to(acc) == other.append_to(acc2),
            acc.len() == acc2.len(),
        ensures
            self == other,
            acc == acc2,
    ;

    /// Every number in the value is zero.
    spec fn is_blank(self) -> bool;

    /// The value whose numbers are all zero.
    fn blank() -> (r: Self)
        ensures
            r.is_blank(),
    ;

    /// Appends the layout of `self` to `out`.
    fn put(&self, out: &mut Vec<u8>)
        ensures
            final(out)@ == self.append_to(old(out)@),
            final(out)@.len() == old(out)@.len() + Self::width(),
    ;

    /// Reads one value from `src`.
    fn take(src: &mut ByteReader) -> (r: Self)
        requires
            old(src).wf(),
            old(src).remaining() >= Self::width(),
        ensures
            final(src).wf(),
            final(src).bytes == old(src).bytes,
            final(src).pos == old(src).pos + Self::width(),
            final(src).consumed() == r.append_to(old(src).consumed()),
    ;
}

impl Field for u8 {
    open spec fn width() -> nat {
        1
    }

    open spec fn append_to(self, acc: Seq<u8>) -> Seq<u8> {
        acc.push(self)
    }

    proof fn lemma_extends(self, acc: Seq<u8>) {
    }

    proof fn lemma_injective(self, other: Self, acc: Seq<u8>, acc2: Seq<u8>) {
        lemma_push_injective(acc, acc2, self, other);
    }

    open spec fn is_blank(self) -> bool {
        self == 0
    }

    fn blank() -> Self {
        0
    }

    fn put(&self, out: &mut Vec<u8>) {
        out.push(*self);
    }

    fn take(src: &mut ByteReader) -> (r: Self) {
        src.take_byte()
    }
}

impl Field for u16 {
    open spec fn width() -> nat {
        2
    }

    open spec fn append_to(self, acc: Seq<u8>) -> Seq<u8> {
        acc.push((self % 256) as u8).push((self / 256) as u8)
    }

    proof fn lemma_extends(self, acc: Seq<u8>) {
    }

    proof fn lemma_injective(self, other: Self, acc: Seq<u8>, acc2: Seq<u8>) {
        let a = acc.push((self % 256) as u8);
        let b = acc2.push((other % 256) as u8);
        lemma_push_injective(a, b, (self / 256) as u8, (other / 256) as u8);
        lemma_push_injective(acc, acc2, (self % 256) as u8, (other % 256) as u8);
    }

    open spec fn is_blank(self) -> bool {
        self == 0
    }

    fn blank() -> Self {
        0
    }

    fn put(&self, out: &mut Vec<u8>) {
        out.push((*self % 256) as u8);
        out.push((*self / 256) as u8);
    }

    fn take(src: &mut ByteReader) -> (r: Self) {
        let b0 = src.take_byte();
        let b1 = src.take_byte();
        let r: u16 = b0 as u16 + (b1 as u16) * 256;
        assert(r % 256 == b0 && r / 256 == b1);
        r
    }
}

impl Field for u32 {
    open spec fn width() -> nat {
        4
    }

    open spec fn append_to(self, acc: Seq<u8>) -> Seq<u8> {
        acc.push((self % 256) as u8).push(((self / 256) % 256) as u8).push(
            ((self / 65536) % 256) as u8,
        ).push((self / 16777216) as u8)
    }

    proof fn lemma_extends(self, acc: Seq<u8>) {
    }

    proof fn lemma_injective(self, other: Self, acc: Seq<u8>, acc2: Seq<u8>) {
        let a1 = acc.push((self % 256) as u8);
        let b1 = acc2.push((other % 256) as u8);
        let a2 = a1.push(((self / 256) % 256) as u8);
        let b2 = b1.push(((other / 256) % 256) as u8);
        let a3 = a2.push(((self / 65536) % 256) as u8);
        let b3 = b2.push(((other / 65536) % 256) as u8);
        lemma_push_injective(a3, b3, (self / 16777216) as u8, (other / 16777216) as u8);
        lemma_push_injective(a2, b2, ((self / 65536) % 256) as u8, ((other / 65536) % 256) as u8);
        lemma_push_injective(a1, b1, ((self / 256) % 256) as u8, ((other / 256) % 256) as u8);
        lemma_push_injective(acc, acc2, (self % 256) as u8, (other % 256) as u8);
        lemma_u32_digits(self);
        lemma_u32_digits(other);
    }

    open spec fn is_blank(self) -> bool {
        self == 0
    }

    fn blank() -> Self {
        0
    }

    fn put(&self, out: &mut Vec<u8>) {
        out.push((*self % 256) as u8);
        out.push(((*self / 256) % 256) as u8);
        out.push(((*self / 65536) % 256) as u8);
        out.push((*self / 16777216) as u8);
    }

    fn take(src: &mut ByteReader) -> (r: Self) {
        let b0 = src.take_byte();
        let b1 = src.take_byte();
        let b2 = src.take_byte();
        let b3 = src.take_byte();
        let r: u32 = b0 as u32 + (b1 as u32) * 256 + (b2 as u32) * 65536 + (b3 as u32) * 16777216;
        assert(r % 256 == b0 && (r / 256) % 256 == b1 && (r / 65536) % 256 == b2 && r / 16777216
            == b3);
        r
    }
}

/// `push` determines both the sequence and the new item.
pub proof fn lemma_push_injective(a: Seq<u8>, b: Seq<u8>, x: u8, y: u8)
    requires
        a.push(x) == b.push(y),
    ensures
        a == b,
        x == y,
{
    assert(a =~= a.push(x).drop_last());
    assert(b =~= b.push(y).drop_last());
    assert(a.push(x)[a.len() as int] == x);
}

/// A `u32` is the sum of its four little-endian digits.
pub proof fn lemma_u32_digits(v: u32)
    ensures
        v == (v % 256) as int + 256 * ((v / 256) % 256) as int + 65536 * ((v / 65536) % 256) as int
            + 16777216 * (v / 16777216) as int,
{
}

proof fn lemma_i8_bits(b: u8)
    ensures
        (b as i8) as u8 == b,
{
    assert((b as i8) as u8 == b) by (bit_vector);
}

proof fn lemma_i16_bits(v: u16)
    ensures
        (v as i16) as u16 == v,
{
    assert((v as i16) as u16 == v) by (bit_vector);
}

proof fn lemma_i32_bits(v: u32)
    ensures
        (v as i32) as u32 == v,
{
    assert((v as i32) as u32 == v) by (bit_vector);
}

proof fn lemma_i8_bits_injective(x: i8, y: i8)
    requires
        x as u8 == y as u8,
    ensures
        x == y,
{
    assert(x as u8 == y as u8 ==> x == y) by (bit_vector);
}

proof fn lemma_i16_bits_injective(x: i16, y: i16)
    requires
        x as u16 == y as u16,
    ensures
        x == y,
{
    assert(x as u16 == y as u16 ==> x == y) by (bit_vector);
}

proof fn lemma_i32_bits_injective(x: i32, y: i32)
    requires
        x as u32 == y as u32,
    ensures
        x == y,
{
    assert(x as u32 == y as u32 ==> x == y) by (bit_vector);
}

impl Field for i8 {
    open spec fn width() -> nat {
        1
    }

    open spec fn append_to(self, acc: Seq<u8>) -> Seq<u8> {
        (self as u8).append_to(acc)
    }

    proof fn lemma_extends(self, acc: Seq<u8>) {
        (self as u8).lemma_extends(acc);
    }

    proof fn lemma_injective(self, other: Self, acc: Seq<u8>, acc2: Seq<u8>) {
        (self as u8).lemma_injective(other as u8, acc, acc2);
        lemma_i8_bits_injective(self, other);
    }

    open spec fn is_blank(self) -> bool {
        self == 0
    }

    fn blank() -> Self {
        0
    }

    fn put(&self, out: &mut Vec<u8>) {
        (*self as u8).put(out);
    }

    fn take(src: &mut ByteReader) -> (r: Self) {
        let b = src.take_byte();
        proof {
            lemma_i8_bits(b);
        }
        b as i8
    }
}

impl Field for i16 {
    open spec fn width() -> nat {
        2
    }

    open spec fn append_to(self, acc: Seq<u8>) -> Seq<u8> {
        (self as u16).append_to(acc)
    }

    proof fn lemma_extends(self, acc: Seq<u8>) {
        (self as u16).lemma_extends(acc);
    }

    proof fn lemma_injective(self, other: Self, acc: Seq<u8>, acc2: Seq<u8>) {
        (self as u16).lemma_injective(other as u16, acc, acc2);
        lemma_i16_bits_injective(self, other);
    }

    open spec fn is_blank(self) -> bool {
        self == 0
    }

    fn blank() -> Self {
        0
    }

    fn put(&self, out: &mut Vec<u8>) {
        (*self as u16).put(out);
    }

    fn take(src: &mut ByteReader) -> (r: Self) {
        let v = u16::take(src);
        proof {
            lemma_i16_bits(v);
        }
        v as i16
    }
}

impl Field for i32 {
    open spec fn width() -> nat {
        4
    }

    open spec fn append_to(self, acc: Seq<u8>) -> Seq<u8> {
        (self as u32).append_to(acc)
    }

    proof fn lemma_extends(self, acc: Seq<u8>) {
        (self as u32).lemma_extends(acc);
    }

    proof fn lemma_injective(self, other: Self, acc: Seq<u8>, acc2: Seq<u8>) {
        (self as u32).lemma_injective(other as u32, acc, acc2);
        lemma_i32_bits_injective(self, other);
    }

    open spec fn is_blank(self) -> bool {
        self == 0
    }

    fn blank() -> Self {
        0
    }

    fn put(&self, out: &mut Vec<u8>) {
        (*self as u32).put(out);
    }

    fn take(src: &mut ByteReader) -> (r: Self) {
        let v = u32::take(src);
        proof {
            lemma_i32_bits(v);
        }
        v as i32
    }
}

/// `acc` followed by the layouts of the items of `s`, in order.
pub open spec fn append_all<T: Field>(s: Seq<T>, acc: Seq<u8>) -> Seq<u8>
    decreases s.len(),
{
    if s.len() == 0 {
        acc
    } else {
        s.last().append_to(append_all(s.drop_last(), acc))
    }
}

/// `append_all` adds `width()` bytes per item and keeps what came before.
pub proof fn lemma_append_all_extends<T: Field>(s: Seq<T>, acc: Seq<u8>)
    ensures
        append_all(s, acc).len() == acc.len() + s.len() * T::width(),
        forall|i: int| 0 <= i < acc.len() ==> #[trigger] append_all(s, acc)[i] == acc[i],
    decreases s.len(),
{
    if s.len() > 0 {
        let n = s.len();
        lemma_append_all_extends(s.drop_last(), acc);
        s.last().lemma_extends(append_all(s.drop_last(), acc));
        assert(n * T::width() == (n - 1) * T::width() + T::width()) by (nonlinear_arith)
            requires
                n > 0,
        ;
    }
}

/// Equally many items with the same layouts after equally long prefixes
/// are the same items, and the prefixes are equal.
pub proof fn lemma_append_all_injective<T: Field>(
    s: Seq<T>,
    t: Seq<T>,
    acc: Seq<u8>,
    acc2: Seq<u8>,
)
    requires
        append_all(s, acc) == append_all(t, acc2),
        s.len() == t.len(),
        acc.len() == acc2.len(),
    ensures
        s == t,
        acc == acc2,
    decreases s.len(),
{
    if s.len() > 0 {
        lemma_append_all_extends(s.drop_last(), acc);
        lemma_append_all_extends(t.drop_last(), acc2);
        let before_s = append_all(s.drop_last(), acc);
        let before_t = append_all(t.drop_last(), acc2);
        s.last().lemma_injective(t.last(), before_s, before_t);
        lemma_append_all_injective(s.drop_last(), t.drop_last(), acc, acc2);
        assert(s =~= t) by {
            assert(s =~= s.drop_last().push(s.last()));
            assert(t =~= t.drop_last().push(t.last()));
        }
    }
}

/// The layout of a byte sequence is the bytes themselves.
pub proof fn lemma_append_all_bytes(s: Seq<u8>, acc: Seq<u8>)
    ensures
        append_all(s, acc) == acc + s,
    decreases s.len(),
{
    if s.len() > 0 {
        lemma_append_all_bytes(s.drop_last(), acc);
        assert(acc + s =~= (acc + s.drop_last()).push(s.last()));
    }
}

/// Appends the layouts of the items of `items` to `out`.
pub fn put_all<T: Field>(items: &[T], out: &mut Vec<u8>)
    ensures
        final(out)@ == append_all(items@, old(out)@),
        final(out)@.len() == old(out)@.len() + items@.len() * T::width(),
{
    let ghost start = out@;
    let mut i: usize = 0;
    while i < items.len()
        invariant
            i <= items@.len(),
            out@ == append_all(items@.take(i as int), start),
            out@.len() == start.len() + i * T::width(),
        decreases items@.len() - i,
    {
        items[i].put(out);
        proof {
            assert(items@.take(i + 1).drop_last() =~= items@.take(i as int));
            assert((i + 1) * T::width() == i * T::width() + T::width()) by (nonlinear_arith);
        }
        i = i + 1;
    }
    assert(items@.take(i as int) =~= items@);
}

impl<T: Field, const N: usize> Field for [T; N] {
    open spec fn width() -> nat {
        N as nat * T::width()
    }

    open spec fn append_to(self, acc: Seq<u8>) -> Seq<u8> {
        append_all(self@, acc)
    }

    proof fn lemma_extends(self, acc: Seq<u8>) {
        lemma_append_all_extends(self@, acc);
    }

    proof fn lemma_injective(self, other: Self, acc: Seq<u8>, acc2: Seq<u8>) {
        lemma_append_all_injective(self@, other@, acc, acc2);
        assert(self =~= other);
    }

    open spec fn is_blank(self) -> bool {
        forall|i: int| 0 <= i < N ==> #[trigger] self@[i].is_blank()
    }

    fn blank() -> Self {
        [T::blank();N]
    }

    fn put(&self, out: &mut Vec<u8>) {
        put_all(self.as_slice(), out);
    }

    fn take(src: &mut ByteReader) -> (r: Self) {
        let ghost start = src.consumed();
        let ghost p0 = src.pos;
        let mut a: [T; N] = [T::blank();N];
        let mut i: usize = 0;
        while i < N
            invariant
                i <= N,
                src.wf(),
                src.bytes == old(src).bytes,
                src.pos == p0 + i * T::width(),
                src.remaining() >= (N - i) * T::width(),
                src.consumed() == append_all(a@.take(i as int), start),
            decreases N - i,
        {
            proof {
                assert((N - i) * T::width() == (N - i - 1) * T::width() + T::width())
                    by (nonlinear_arith);
            }
            let ghost before = a@;
            let item = T::take(src);
            a[i] = item;
            proof {
                assert(a@.take(i + 1).drop_last() =~= before.take(i as int));
                assert((i + 1) * T::width() == i * T::width() + T::width()) by (nonlinear_arith);
            }
            i = i + 1;
        }
        assert(a@.take(N as int) =~= a@);
        a
    }
}

/// A fixed-size array kept as one value; it reads through to the array and
/// has the array's layout.
#[derive(Clone, Copy, Debug)]
pub struct Array<T>(pub T);

impl<T> core::ops::Deref for Array<T> {
    type Target = T;

    fn deref(&self) -> (r: &T)
        ensures
            *r == self.0,
    {
        &self.0
    }
}

impl<T: Field> Field for Array<T> {
    open spec fn width() -> nat {
        T::width()
    }

    open spec fn append_to(self, acc: Seq<u8>) -> Seq<u8> {
        self.0.append_to(acc)
    }

    proof fn lemma_extends(self, acc: Seq<u8>) {
        self.0.lemma_extends(acc);
    }

    proof fn lemma_injective(self, other: Self, acc: Seq<u8>, acc2: Seq<u8>) {
        self.0.lemma_injective(other.0, acc, acc2);
    }

    open spec fn is_blank(self) -> bool {
        self.0.is_blank()
    }

    fn blank() -> Self {
        Array(T::blank())
    }

    fn put(&self, out: &mut Vec<u8>) {
        self.0.put(out);
    }

    fn take(src: &mut ByteReader) -> (r: Self) {
        Array(T::take(src))
    }
}

} // verus!
