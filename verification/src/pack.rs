use vstd::prelude::*;

use vstd::bytes::spec_u128_to_le_bytes;
use vstd::bytes::spec_u16_to_le_bytes;
use vstd::bytes::spec_u32_to_le_bytes;
use vstd::bytes::spec_u64_to_le_bytes;
use vstd::bytes::u128_to_le_bytes;
use vstd::bytes::u16_to_le_bytes;
use vstd::bytes::u32_to_le_bytes;
use vstd::bytes::u64_to_le_bytes;
use vstd::array::array_as_slice;
use vstd::slice::slice_to_vec;

use crate::error::PackError;
use crate::order::orient;
use crate::order::oriented;
use crate::order::ByteOrder;
use crate::scalar::i128_as_u128;
use crate::scalar::i16_as_u16;
use crate::scalar::i32_as_u32;
use crate::scalar::i64_as_u64;
use crate::scalar::i8_as_u8;
use crate::scalar::spec_i128_as_u128;
use crate::scalar::spec_i16_as_u16;
use crate::scalar::spec_i32_as_u32;
use crate::scalar::spec_i64_as_u64;
use crate::scalar::spec_i8_as_u8;
use crate::sink::Sink;

verus! {

/// Serialization into a [`Sink`]: a value's canonical fixed-width wire form.
///
/// `wire_bytes` is the mathematical wire form; `pack_to` writes exactly
/// those bytes, or fails leaving the sink with whatever prefix was written
/// before the failing component.
pub trait PackTo: Sized {
    /// How many bytes `self` occupies on the wire, under either order.
    spec fn wire_width(self) -> nat;

    /// The exact bytes `self` is written as under order `o`.
    spec fn wire_bytes(self, o: ByteOrder) -> Seq<u8>;

    /// The wire form always holds exactly `wire_width` bytes, whatever the
    /// order and whatever the value's magnitude or sign.
    proof fn lemma_wire_width(self, o: ByteOrder)
        ensures
            self.wire_bytes(o).len() == self.wire_width(),
    ;

    /// Writes `self`'s wire form under order `o` into `dst`.  Succeeds
    /// exactly when the sink has room for the whole form.
    fn pack_to(&self, o: ByteOrder, dst: &mut Sink) -> (r: Result<(), PackError>)
        ensures
            final(dst).limit() == old(dst).limit(),
            r is Ok <==> old(dst).room() >= (*self).wire_bytes(o).len(),
            r is Ok ==> final(dst)@ == old(dst)@ + (*self).wire_bytes(o),
            r is Err ==> old(dst)@.is_prefix_of(final(dst)@) && final(dst)@.is_prefix_of(
                old(dst)@ + (*self).wire_bytes(o),
            ),
    ;

    /// `pack_to` with the order fixed to big-endian.
    fn pack_to_be(&self, dst: &mut Sink) -> (r: Result<(), PackError>)
        ensures
            final(dst).limit() == old(dst).limit(),
            r is Ok <==> old(dst).room() >= (*self).wire_bytes(ByteOrder::Big).len(),
            r is Ok ==> final(dst)@ == old(dst)@ + (*self).wire_bytes(ByteOrder::Big),
            r is Err ==> old(dst)@.is_prefix_of(final(dst)@) && final(dst)@.is_prefix_of(
                old(dst)@ + (*self).wire_bytes(ByteOrder::Big),
            ),
    {
        self.pack_to(ByteOrder::Big, dst)
    }

    /// `pack_to` with the order fixed to little-endian.
    fn pack_to_le(&self, dst: &mut Sink) -> (r: Result<(), PackError>)
        ensures
            final(dst).limit() == old(dst).limit(),
            r is Ok <==> old(dst).room() >= (*self).wire_bytes(ByteOrder::Little).len(),
            r is Ok ==> final(dst)@ == old(dst)@ + (*self).wire_bytes(ByteOrder::Little),
            r is Err ==> old(dst)@.is_prefix_of(final(dst)@) && final(dst)@.is_prefix_of(
                old(dst)@ + (*self).wire_bytes(ByteOrder::Little),
            ),
    {
        self.pack_to(ByteOrder::Little, dst)
    }

    /// Writes every element of `buf` in index order, with no separators.
    /// A byte-sized scalar may replace the element loop by one block write;
    /// the written bytes are the same either way.
    fn pack_multiple_to(buf: &Vec<Self>, o: ByteOrder, dst: &mut Sink) -> (r: Result<
        (),
        PackError,
    >)
        ensures
            final(dst).limit() == old(dst).limit(),
            r is Ok <==> old(dst).room() >= glued(buf@, |t: Self| t.wire_bytes(o)).len(),
            r is Ok ==> final(dst)@ == old(dst)@ + glued(buf@, |t: Self| t.wire_bytes(o)),
            r is Err ==> old(dst)@.is_prefix_of(final(dst)@) && final(dst)@.is_prefix_of(
                old(dst)@ + glued(buf@, |t: Self| t.wire_bytes(o)),
            ),
    {
        let ghost pc = |t: Self| t.wire_bytes(o);
        let n = buf.len();
        let mut i: usize = 0;
        while i < n
            invariant
                n == buf@.len(),
                i <= n,
                pc == (|t: Self| t.wire_bytes(o)),
                dst.limit() == old(dst).limit(),
                dst@ =~= old(dst)@ + glued(buf@.take(i as int), pc),
                dst.room() + glued(buf@.take(i as int), pc).len() == old(dst).room(),
            decreases n - i,
        {
            proof {
                lemma_glued_take_step(buf@, pc, i as int);
                lemma_glued_split_prefix(buf@, pc, i + 1);
                assert(pc(buf@[i as int]) == buf@[i as int].wire_bytes(o));
            }
            match buf[i].pack_to(o, dst) {
                Ok(_) => {},
                Err(e) => {
                    proof {
                        lemma_prefix_chain(
                            old(dst)@,
                            old(dst)@ + glued(buf@.take(i as int), pc),
                            dst@,
                        );
                        assert(old(dst)@ + glued(buf@.take(i as int), pc) + buf@[
                            i as int
                        ].wire_bytes(o) =~= old(dst)@ + glued(buf@.take(i + 1), pc));
                        lemma_prefix_append(
                            glued(buf@.take(i + 1), pc),
                            glued(buf@, pc),
                            old(dst)@,
                        );
                        lemma_prefix_chain(
                            dst@,
                            old(dst)@ + glued(buf@.take(i + 1), pc),
                            old(dst)@ + glued(buf@, pc),
                        );
                    }
                    return Err(e);
                },
            }
            i = i + 1;
        }
        proof {
            assert(buf@.take(n as int) =~= buf@);
        }
        Ok(())
    }
}

/// The concatenation of `piece(x)` over the elements of `s`, in index
/// order.  `run_bytes` instantiates `piece` with the wire form; the trait
/// states its run contracts through this function so that the run model
/// does not feed back into the trait's own declaration.
pub open spec fn glued<T>(s: Seq<T>, piece: spec_fn(T) -> Seq<u8>) -> Seq<u8>
    decreases s.len(),
{
    if s.len() == 0 {
        Seq::empty()
    } else {
        piece(s[0]) + glued(s.drop_first(), piece)
    }
}

/// The concatenation of the wire forms of `s`'s elements, in index order.
pub open spec fn run_bytes<T: PackTo>(s: Seq<T>, o: ByteOrder) -> Seq<u8> {
    glued(s, |t: T| t.wire_bytes(o))
}

/// The total wire width of a run: the sum of its elements' widths.
pub open spec fn run_width<T: PackTo>(s: Seq<T>) -> nat
    decreases s.len(),
{
    if s.len() == 0 {
        0
    } else {
        s[0].wire_width() + run_width(s.drop_first())
    }
}

/// A glued run splits at any element boundary.
pub proof fn lemma_glued_split<T>(s: Seq<T>, piece: spec_fn(T) -> Seq<u8>, k: int)
    requires
        0 <= k <= s.len(),
    ensures
        glued(s, piece) == glued(s.take(k), piece) + glued(s.skip(k), piece),
    decreases k,
{
    if k == 0 {
        assert(s.take(0) =~= Seq::<T>::empty());
        assert(s.skip(0) =~= s);
        assert(glued(s, piece) =~= glued(s.take(0), piece) + glued(s.skip(0), piece));
    } else {
        lemma_glued_split(s.drop_first(), piece, k - 1);
        assert(s.take(k).drop_first() =~= s.drop_first().take(k - 1));
        assert(s.skip(k) =~= s.drop_first().skip(k - 1));
        assert(s.take(k)[0] == s[0]);
        assert(glued(s, piece) =~= glued(s.take(k), piece) + glued(s.skip(k), piece));
    }
}

/// One more element extends a glued run by that element's piece.
pub proof fn lemma_glued_take_step<T>(s: Seq<T>, piece: spec_fn(T) -> Seq<u8>, k: int)
    requires
        0 <= k < s.len(),
    ensures
        glued(s.take(k + 1), piece) == glued(s.take(k), piece) + piece(s[k]),
{
    lemma_glued_split(s.take(k + 1), piece, k);
    assert(s.take(k + 1).take(k) =~= s.take(k));
    let tail = s.take(k + 1).skip(k);
    assert(tail =~= seq![s[k]]);
    assert(tail.drop_first().len() == 0);
    assert(glued(tail.drop_first(), piece) == Seq::<u8>::empty());
    assert(glued(tail, piece) == piece(tail[0]) + glued(tail.drop_first(), piece));
    assert(piece(tail[0]) + Seq::<u8>::empty() =~= piece(s[k]));
}

/// A leading part of a glued run is a prefix of the whole.
pub proof fn lemma_glued_split_prefix<T>(s: Seq<T>, piece: spec_fn(T) -> Seq<u8>, k: int)
    requires
        0 <= k <= s.len(),
    ensures
        glued(s.take(k), piece).is_prefix_of(glued(s, piece)),
{
    lemma_glued_split(s, piece, k);
    let front = glued(s.take(k), piece);
    assert(front =~= (front + glued(s.skip(k), piece)).subrange(0, front.len() as int));
}

/// A run's wire form holds exactly the run's total width in bytes.
pub proof fn lemma_run_bytes_len<T: PackTo>(s: Seq<T>, o: ByteOrder)
    ensures
        run_bytes(s, o).len() == run_width(s),
    decreases s.len(),
{
    if s.len() > 0 {
        s[0].lemma_wire_width(o);
        assert(run_bytes(s.drop_first(), o) == glued(s.drop_first(), |t: T| t.wire_bytes(o)));
        lemma_run_bytes_len(s.drop_first(), o);
    }
}

/// Prefixes chain: a prefix of a prefix is a prefix.
pub proof fn lemma_prefix_chain(a: Seq<u8>, b: Seq<u8>, c: Seq<u8>)
    requires
        a.is_prefix_of(b),
        b.is_prefix_of(c),
    ensures
        a.is_prefix_of(c),
{
    assert(a =~= c.subrange(0, a.len() as int));
}

/// A sequence is a prefix of itself extended by anything.
pub proof fn lemma_prefix_of_append(a: Seq<u8>, b: Seq<u8>)
    ensures
        a.is_prefix_of(a + b),
{
    assert(a =~= (a + b).subrange(0, a.len() as int));
}

/// Appending to both sides keeps a prefix a prefix.
pub proof fn lemma_prefix_append(a: Seq<u8>, b: Seq<u8>, front: Seq<u8>)
    requires
        a.is_prefix_of(b),
    ensures
        (front + a).is_prefix_of(front + b),
{
    assert((front + a) =~= (front + b).subrange(0, (front + a).len() as int));
}

impl PackTo for u8 {
    open spec fn wire_width(self) -> nat {
        1
    }

    open spec fn wire_bytes(self, o: ByteOrder) -> Seq<u8> {
        seq![self]
    }

    proof fn lemma_wire_width(self, o: ByteOrder) {
    }

    fn pack_to(&self, o: ByteOrder, dst: &mut Sink) -> (r: Result<(), PackError>)
        ensures
            r is Err ==> final(dst)@ == old(dst)@,
    {
        let mut b: Vec<u8> = Vec::new();
        b.push(*self);
        proof {
            assert(b@ =~= (*self).wire_bytes(o));
        }
        write_wire(&b, dst)
    }

    /// The byte run writes as one block: its wire form is the run itself.
    fn pack_multiple_to(buf: &Vec<u8>, o: ByteOrder, dst: &mut Sink) -> (r: Result<
        (),
        PackError,
    >) {
        proof {
            lemma_glued_singletons(buf@, |t: u8| t.wire_bytes(o));
        }
        write_wire(buf, dst)
    }
}

/// A run of bytes glues to itself: each piece is the byte alone.
pub proof fn lemma_glued_singletons(s: Seq<u8>, piece: spec_fn(u8) -> Seq<u8>)
    requires
        forall|b: u8| #[trigger] piece(b) == seq![b],
    ensures
        glued(s, piece) == s,
    decreases s.len(),
{
    if s.len() == 0 {
        assert(glued(s, piece) =~= s);
    } else {
        lemma_glued_singletons(s.drop_first(), piece);
        assert(glued(s, piece) =~= s);
    }
}

/// Writes one whole wire block, turning the sink's outcome into the shape
/// every `pack_to` promises.
fn write_wire(block: &Vec<u8>, dst: &mut Sink) -> (r: Result<(), PackError>)
    ensures
        final(dst).limit() == old(dst).limit(),
        r is Ok <==> old(dst).room() >= block@.len(),
        r is Ok ==> final(dst)@ == old(dst)@ + block@,
        r is Err ==> final(dst)@ == old(dst)@ && old(dst)@.is_prefix_of(final(dst)@)
            && final(dst)@.is_prefix_of(old(dst)@ + block@),
    {
    let r = dst.write_bytes(block);
    proof {
        if r is Err {
            assert(dst@.is_prefix_of(dst@ + block@)) by {
                assert(dst@ =~= (dst@ + block@).subrange(0, dst@.len() as int));
            }
            assert(dst@.is_prefix_of(dst@)) by {
                assert(dst@ =~= dst@.subrange(0, dst@.len() as int));
            }
        }
    }
    r
}

impl PackTo for i8 {
    open spec fn wire_width(self) -> nat {
        1
    }

    open spec fn wire_bytes(self, o: ByteOrder) -> Seq<u8> {
        seq![spec_i8_as_u8(self)]
    }

    proof fn lemma_wire_width(self, o: ByteOrder) {
    }

    fn pack_to(&self, o: ByteOrder, dst: &mut Sink) -> (r: Result<(), PackError>)
        ensures
            r is Err ==> final(dst)@ == old(dst)@,
    {
        let mut b: Vec<u8> = Vec::new();
        b.push(i8_as_u8(*self));
        proof {
            assert(b@ =~= (*self).wire_bytes(o));
        }
        write_wire(&b, dst)
    }
}

impl PackTo for u16 {
    open spec fn wire_width(self) -> nat {
        2
    }

    open spec fn wire_bytes(self, o: ByteOrder) -> Seq<u8> {
        oriented(spec_u16_to_le_bytes(self), o)
    }

    proof fn lemma_wire_width(self, o: ByteOrder) {
        vstd::bytes::lemma_auto_spec_u16_to_from_le_bytes();
    }

    fn pack_to(&self, o: ByteOrder, dst: &mut Sink) -> (r: Result<(), PackError>)
        ensures
            r is Err ==> final(dst)@ == old(dst)@,
    {
        let le = u16_to_le_bytes(*self);
        let b = orient(le, o);
        write_wire(&b, dst)
    }
}

impl PackTo for i16 {
    open spec fn wire_width(self) -> nat {
        2
    }

    open spec fn wire_bytes(self, o: ByteOrder) -> Seq<u8> {
        oriented(spec_u16_to_le_bytes(spec_i16_as_u16(self)), o)
    }

    proof fn lemma_wire_width(self, o: ByteOrder) {
        vstd::bytes::lemma_auto_spec_u16_to_from_le_bytes();
    }

    fn pack_to(&self, o: ByteOrder, dst: &mut Sink) -> (r: Result<(), PackError>)
        ensures
            r is Err ==> final(dst)@ == old(dst)@,
    {
        let le = u16_to_le_bytes(i16_as_u16(*self));
        let b = orient(le, o);
        write_wire(&b, dst)
    }
}

impl PackTo for u32 {
    open spec fn wire_width(self) -> nat {
        4
    }

    open spec fn wire_bytes(self, o: ByteOrder) -> Seq<u8> {
        oriented(spec_u32_to_le_bytes(self), o)
    }

    proof fn lemma_wire_width(self, o: ByteOrder) {
        vstd::bytes::lemma_auto_spec_u32_to_from_le_bytes();
    }

    fn pack_to(&self, o: ByteOrder, dst: &mut Sink) -> (r: Result<(), PackError>)
        ensures
            r is Err ==> final(dst)@ == old(dst)@,
    {
        let le = u32_to_le_bytes(*self);
        let b = orient(le, o);
        write_wire(&b, dst)
    }
}

impl PackTo for i32 {
    open spec fn wire_width(self) -> nat {
        4
    }

    open spec fn wire_bytes(self, o: ByteOrder) -> Seq<u8> {
        oriented(spec_u32_to_le_bytes(spec_i32_as_u32(self)), o)
    }

    proof fn lemma_wire_width(self, o: ByteOrder) {
        vstd::bytes::lemma_auto_spec_u32_to_from_le_bytes();
    }

    fn pack_to(&self, o: ByteOrder, dst: &mut Sink) -> (r: Result<(), PackError>)
        ensures
            r is Err ==> final(dst)@ == old(dst)@,
    {
        let le = u32_to_le_bytes(i32_as_u32(*self));
        let b = orient(le, o);
        write_wire(&b, dst)
    }
}

impl PackTo for u64 {
    open spec fn wire_width(self) -> nat {
        8
    }

    open spec fn wire_bytes(self, o: ByteOrder) -> Seq<u8> {
        oriented(spec_u64_to_le_bytes(self), o)
    }

    proof fn lemma_wire_width(self, o: ByteOrder) {
        vstd::bytes::lemma_auto_spec_u64_to_from_le_bytes();
    }

    fn pack_to(&self, o: ByteOrder, dst: &mut Sink) -> (r: Result<(), PackError>)
        ensures
            r is Err ==> final(dst)@ == old(dst)@,
    {
        let le = u64_to_le_bytes(*self);
        let b = orient(le, o);
        write_wire(&b, dst)
    }
}

impl PackTo for i64 {
    open spec fn wire_width(self) -> nat {
        8
    }

    open spec fn wire_bytes(self, o: ByteOrder) -> Seq<u8> {
        oriented(spec_u64_to_le_bytes(spec_i64_as_u64(self)), o)
    }

    proof fn lemma_wire_width(self, o: ByteOrder) {
        vstd::bytes::lemma_auto_spec_u64_to_from_le_bytes();
    }

    fn pack_to(&self, o: ByteOrder, dst: &mut Sink) -> (r: Result<(), PackError>)
        ensures
            r is Err ==> final(dst)@ == old(dst)@,
    {
        let le = u64_to_le_bytes(i64_as_u64(*self));
        let b = orient(le, o);
        write_wire(&b, dst)
    }
}

impl PackTo for u128 {
    open spec fn wire_width(self) -> nat {
        16
    }

    open spec fn wire_bytes(self, o: ByteOrder) -> Seq<u8> {
        oriented(spec_u128_to_le_bytes(self), o)
    }

    proof fn lemma_wire_width(self, o: ByteOrder) {
        vstd::bytes::lemma_auto_spec_u128_to_from_le_bytes();
    }

    fn pack_to(&self, o: ByteOrder, dst: &mut Sink) -> (r: Result<(), PackError>)
        ensures
            r is Err ==> final(dst)@ == old(dst)@,
    {
        let le = u128_to_le_bytes(*self);
        let b = orient(le, o);
        write_wire(&b, dst)
    }
}

impl PackTo for i128 {
    open spec fn wire_width(self) -> nat {
        16
    }

    open spec fn wire_bytes(self, o: ByteOrder) -> Seq<u8> {
        oriented(spec_u128_to_le_bytes(spec_i128_as_u128(self)), o)
    }

    proof fn lemma_wire_width(self, o: ByteOrder) {
        vstd::bytes::lemma_auto_spec_u128_to_from_le_bytes();
    }

    fn pack_to(&self, o: ByteOrder, dst: &mut Sink) -> (r: Result<(), PackError>)
        ensures
            r is Err ==> final(dst)@ == old(dst)@,
    {
        let le = u128_to_le_bytes(i128_as_u128(*self));
        let b = orient(le, o);
        write_wire(&b, dst)
    }
}

impl PackTo for () {
    open spec fn wire_width(self) -> nat {
        0
    }

    open spec fn wire_bytes(self, o: ByteOrder) -> Seq<u8> {
        Seq::empty()
    }

    proof fn lemma_wire_width(self, o: ByteOrder) {
    }

    fn pack_to(&self, o: ByteOrder, dst: &mut Sink) -> (r: Result<(), PackError>) {
        proof {
            assert(old(dst)@ + (*self).wire_bytes(o) =~= old(dst)@);
        }
        Ok(())
    }
}

// Indirection is transparent: encoding a reference to a value is encoding
// the value, and adds no bytes.
impl<T: PackTo> PackTo for &T {
    open spec fn wire_width(self) -> nat {
        (*self).wire_width()
    }

    open spec fn wire_bytes(self, o: ByteOrder) -> Seq<u8> {
        (*self).wire_bytes(o)
    }

    proof fn lemma_wire_width(self, o: ByteOrder) {
        (*self).lemma_wire_width(o);
    }

    fn pack_to(&self, o: ByteOrder, dst: &mut Sink) -> (r: Result<(), PackError>) {
        (**self).pack_to(o, dst)
    }
}

impl<T: PackTo> PackTo for Vec<T> {
    open spec fn wire_width(self) -> nat {
        run_width(self@)
    }

    open spec fn wire_bytes(self, o: ByteOrder) -> Seq<u8> {
        run_bytes(self@, o)
    }

    proof fn lemma_wire_width(self, o: ByteOrder) {
        lemma_run_bytes_len(self@, o);
    }

    fn pack_to(&self, o: ByteOrder, dst: &mut Sink) -> (r: Result<(), PackError>) {
        T::pack_multiple_to(self, o, dst)
    }
}

// A fixed-size homogeneous sequence is written as the run of its
// elements in index order: the concatenation of the element layouts,
// with no length prefix and no padding.
impl<T: PackTo + Copy, const N: usize> PackTo for [T; N] {
    open spec fn wire_width(self) -> nat {
        run_width(self@)
    }

    open spec fn wire_bytes(self, o: ByteOrder) -> Seq<u8> {
        run_bytes(self@, o)
    }

    proof fn lemma_wire_width(self, o: ByteOrder) {
        lemma_run_bytes_len(self@, o);
    }

    fn pack_to(&self, o: ByteOrder, dst: &mut Sink) -> (r: Result<(), PackError>) {
        let v: Vec<T> = slice_to_vec(array_as_slice(self));
        T::pack_multiple_to(&v, o, dst)
    }
}

// A borrowed run of values is written like the run itself: element by
// element in index order, with no separators.
impl<T: PackTo + Copy> PackTo for &[T] {
    open spec fn wire_width(self) -> nat {
        run_width(self@)
    }

    open spec fn wire_bytes(self, o: ByteOrder) -> Seq<u8> {
        run_bytes(self@, o)
    }

    proof fn lemma_wire_width(self, o: ByteOrder) {
        lemma_run_bytes_len(self@, o);
    }

    fn pack_to(&self, o: ByteOrder, dst: &mut Sink) -> (r: Result<(), PackError>) {
        let v: Vec<T> = slice_to_vec(*self);
        T::pack_multiple_to(&v, o, dst)
    }
}

} // verus!
