use vstd::prelude::*;

use vstd::bytes::spec_u128_from_le_bytes;
use vstd::bytes::spec_u16_from_le_bytes;
use vstd::bytes::spec_u32_from_le_bytes;
use vstd::bytes::spec_u64_from_le_bytes;
use vstd::bytes::u128_from_le_bytes;
use vstd::bytes::u16_from_le_bytes;
use vstd::bytes::u32_from_le_bytes;
use vstd::bytes::u64_from_le_bytes;

use crate::error::UnpackError;
use crate::order::orient;
use crate::order::oriented;
use crate::order::ByteOrder;
use crate::scalar::spec_u128_as_i128;
use crate::scalar::spec_u16_as_i16;
use crate::scalar::spec_u32_as_i32;
use crate::scalar::spec_u64_as_i64;
use crate::scalar::spec_u8_as_i8;
use crate::scalar::u128_as_i128;
use crate::scalar::u16_as_i16;
use crate::scalar::u32_as_i32;
use crate::scalar::u64_as_i64;
use crate::scalar::u8_as_i8;
use crate::source::Source;

verus! {

/// The `w`-byte block of `b` that starts `off` bytes in.
pub open spec fn chunk(b: Seq<u8>, off: int, w: nat) -> Seq<u8> {
    b.skip(off).take(w as int)
}

/// A chunk taken inside the leading `total` bytes ignores the cut.
pub proof fn lemma_chunk_of_take(b: Seq<u8>, total: int, off: int, w: nat)
    requires
        0 <= off,
        off + w <= total,
        total <= b.len(),
    ensures
        chunk(b.take(total), off, w) == chunk(b, off, w),
{
    assert(chunk(b.take(total), off, w) =~= chunk(b, off, w));
}

/// Deserialization from a [`Source`]: the exact mirror of packing.
///
/// `read_value` is the meaning of one `read_width`-byte wire block;
/// `unpack_from` consumes exactly that many bytes and returns that value,
/// or fails on a short source without fabricating anything.
pub trait UnpackFrom: Sized {
    /// How many bytes one value occupies on the wire.
    spec fn read_width() -> nat;

    /// The value a `read_width`-byte wire block stands for under order `o`.
    spec fn read_value(o: ByteOrder, b: Seq<u8>) -> Self;

    /// The default value a decode destination is pre-filled with.
    spec fn fill_value() -> Self;

    /// Computes `fill_value`: the pre-fill for decode destinations.
    fn fill() -> (r: Self)
        ensures
            r == Self::fill_value(),
    ;

    /// Reads exactly `read_width` bytes from `src` under order `o` and
    /// reconstructs the value they stand for.  Succeeds exactly when the
    /// source still holds that many bytes; on failure no value is made up,
    /// and the source stays wherever the failing component stopped.
    fn unpack_from(o: ByteOrder, src: &mut Source) -> (r: Result<Self, UnpackError>)
        ensures
            final(src).all_bytes() == old(src).all_bytes(),
            r is Ok <==> old(src).remaining() >= Self::read_width(),
            r is Ok ==> final(src).pos() == old(src).pos() + Self::read_width() && r->Ok_0
                == Self::read_value(o, old(src).rest().take(Self::read_width() as int)),
            r is Err ==> old(src).pos() <= final(src).pos() && final(src).pos() <= old(src).pos()
                + Self::read_width(),
    ;

    /// `unpack_from` with the order fixed to big-endian.
    fn unpack_from_be(src: &mut Source) -> (r: Result<Self, UnpackError>)
        ensures
            final(src).all_bytes() == old(src).all_bytes(),
            r is Ok <==> old(src).remaining() >= Self::read_width(),
            r is Ok ==> final(src).pos() == old(src).pos() + Self::read_width() && r->Ok_0
                == Self::read_value(ByteOrder::Big, old(src).rest().take(Self::read_width() as int)),
            r is Err ==> old(src).pos() <= final(src).pos() && final(src).pos() <= old(src).pos()
                + Self::read_width(),
    {
        Self::unpack_from(ByteOrder::Big, src)
    }

    /// `unpack_from` with the order fixed to little-endian.
    fn unpack_from_le(src: &mut Source) -> (r: Result<Self, UnpackError>)
        ensures
            final(src).all_bytes() == old(src).all_bytes(),
            r is Ok <==> old(src).remaining() >= Self::read_width(),
            r is Ok ==> final(src).pos() == old(src).pos() + Self::read_width() && r->Ok_0
                == Self::read_value(
                ByteOrder::Little,
                old(src).rest().take(Self::read_width() as int),
            ),
            r is Err ==> old(src).pos() <= final(src).pos() && final(src).pos() <= old(src).pos()
                + Self::read_width(),
    {
        Self::unpack_from(ByteOrder::Little, src)
    }

    /// Fills every slot of `dst`, in index order, with one decoded value
    /// each.  Succeeds exactly when the source holds bytes for all slots;
    /// on failure the slots before the failing one keep their decoded
    /// values and the slots from it on keep what they held before.  A
    /// byte-sized scalar may replace the element loop by one block read;
    /// the outcome is the same either way.
    fn unpack_multiple_into(o: ByteOrder, src: &mut Source, dst: &mut Vec<Self>) -> (r: Result<
        (),
        UnpackError,
    >)
        ensures
            final(src).all_bytes() == old(src).all_bytes(),
            final(dst)@.len() == old(dst)@.len(),
            r is Ok <==> old(src).remaining() >= old(dst)@.len() * Self::read_width(),
            r is Ok ==> final(src).pos() == old(src).pos() + old(dst)@.len() * Self::read_width()
                && (forall|j: int|
                0 <= j < old(dst)@.len() ==> final(dst)@[j] == Self::read_value(
                    o,
                    chunk(old(src).rest(), j * Self::read_width() as int, Self::read_width()),
                )),
            r is Err ==> Self::read_width() > 0 && ({
                let k = old(src).remaining() as int / Self::read_width() as int;
                &&& k < old(dst)@.len()
                &&& old(src).pos() + k * Self::read_width() as int <= final(src).pos()
                &&& final(src).pos() <= old(src).pos() + (k + 1) * Self::read_width() as int
                &&& (forall|j: int|
                    0 <= j < k ==> final(dst)@[j] == Self::read_value(
                        o,
                        chunk(old(src).rest(), j * Self::read_width() as int, Self::read_width()),
                    ))
                &&& (forall|j: int| k <= j < old(dst)@.len() ==> final(dst)@[j] == old(dst)@[j])
            }),
    {
        let ghost w = Self::read_width() as int;
        let n = dst.len();
        let mut i: usize = 0;
        while i < n
            invariant
                n == dst@.len(),
                dst@.len() == old(dst)@.len(),
                i <= n,
                w == Self::read_width() as int,
                src.all_bytes() == old(src).all_bytes(),
                old(src).remaining() >= i * w,
                src.pos() == old(src).pos() + i * w,
                src.rest() == old(src).rest().skip(i * w),
                forall|j: int|
                    0 <= j < i ==> dst@[j] == Self::read_value(
                        o,
                        chunk(old(src).rest(), j * w, Self::read_width()),
                    ),
                forall|j: int| i <= j < n ==> dst@[j] == old(dst)@[j],
            decreases n - i,
        {
            let ghost before = *src;
            match Self::unpack_from(o, src) {
                Ok(v) => {
                    proof {
                        Source::lemma_rest_advance(before, *src, Self::read_width());
                        assert((i + 1) * w == i * w + w) by (nonlinear_arith);
                        assert(src.rest() =~= old(src).rest().skip((i + 1) * w));
                        assert(before.rest().take(w) =~= chunk(old(src).rest(), i * w, Self::read_width()));
                    }
                    dst[i] = v;
                    i = i + 1;
                },
                Err(e) => {
                    proof {
                        let rem0 = old(src).remaining() as int;
                        assert(before.remaining() < Self::read_width());
                        assert(Self::read_width() > 0);
                        assert(rem0 == i * w + before.remaining()) by {
                            assert(before.rest() == old(src).rest().skip(i * w));
                        };
                        vstd::arithmetic::div_mod::lemma_fundamental_div_mod_converse(
                            rem0,
                            w,
                            i as int,
                            before.remaining() as int,
                        );
                        assert((i + 1) * w == i * w + w) by (nonlinear_arith);
                        vstd::arithmetic::mul::lemma_mul_inequality(i + 1, n as int, w);
                    }
                    return Err(e);
                },
            }
        }
        proof {
            vstd::arithmetic::mul::lemma_mul_inequality(i as int, n as int, w);
            assert(i * w == n * w);
        }
        Ok(())
    }
}

impl UnpackFrom for u8 {
    open spec fn read_width() -> nat {
        1
    }

    open spec fn read_value(o: ByteOrder, b: Seq<u8>) -> u8 {
        b[0]
    }

    open spec fn fill_value() -> u8 {
        0
    }

    fn fill() -> (r: u8) {
        0
    }

    fn unpack_from(o: ByteOrder, src: &mut Source) -> (r: Result<u8, UnpackError>)
        ensures
            r is Err ==> final(src).pos() == old(src).pos(),
    {
        let b = match src.read_bytes(1) {
            Ok(b) => b,
            Err(e) => {
                return Err(e);
            },
        };
        Ok(b[0])
    }

    /// The byte run reads as one block: each slot takes one byte as it is.
    fn unpack_multiple_into(o: ByteOrder, src: &mut Source, dst: &mut Vec<u8>) -> (r: Result<
        (),
        UnpackError,
    >) {
        let n = dst.len();
        let left = src.bytes_left();
        proof {
            assert(n * 1 == n);
        }
        if left >= n {
            match src.read_bytes(n) {
                Ok(b) => {
                    *dst = b;
                    proof {
                        assert forall|j: int| 0 <= j < n implies dst@[j] == <u8 as UnpackFrom>::read_value(
                            o,
                            chunk(old(src).rest(), j * 1, 1),
                        ) by {
                            assert(chunk(old(src).rest(), j, 1)[0] == old(src).rest()[j]);
                        }
                    }
                    Ok(())
                },
                Err(e) => Err(e),
            }
        } else {
            let b = match src.read_bytes(left) {
                Ok(b) => b,
                Err(e) => {
                    return Err(e);
                },
            };
            let mut i: usize = 0;
            while i < left
                invariant
                    n == dst@.len(),
                    dst@.len() == old(dst)@.len(),
                    left < n,
                    i <= left,
                    b@.len() == left,
                    b@ == old(src).rest().take(left as int),
                    src.all_bytes() == old(src).all_bytes(),
                    src.pos() == old(src).pos() + left,
                    left == old(src).remaining(),
                    forall|j: int| 0 <= j < i ==> dst@[j] == b@[j],
                    forall|j: int| i <= j < n ==> dst@[j] == old(dst)@[j],
                decreases left - i,
            {
                let x = b[i];
                dst[i] = x;
                i = i + 1;
            }
            proof {
                let rem0 = old(src).remaining() as int;
                vstd::arithmetic::div_mod::lemma_fundamental_div_mod_converse(rem0, 1, rem0, 0);
                assert(rem0 * 1 == rem0) by (nonlinear_arith);
                assert((rem0 + 1) * 1 == rem0 + 1) by (nonlinear_arith);
                assert forall|j: int| 0 <= j < rem0 implies dst@[j] == <u8 as UnpackFrom>::read_value(
                    o,
                    chunk(old(src).rest(), j * 1, 1),
                ) by {
                    assert(j * 1 == j);
                    assert(dst@[j] == b@[j]);
                    assert(b@[j] == old(src).rest().take(rem0)[j]);
                    assert(old(src).rest().take(rem0)[j] == old(src).rest()[j]);
                    assert(chunk(old(src).rest(), j, 1)[0] == old(src).rest()[j]);
                }
            }
            Err(UnpackError::ShortRead)
        }
    }
}

impl UnpackFrom for i8 {
    open spec fn read_width() -> nat {
        1
    }

    open spec fn read_value(o: ByteOrder, b: Seq<u8>) -> i8 {
        spec_u8_as_i8(b[0])
    }

    open spec fn fill_value() -> i8 {
        0
    }

    fn fill() -> (r: i8) {
        0
    }

    fn unpack_from(o: ByteOrder, src: &mut Source) -> (r: Result<i8, UnpackError>)
        ensures
            r is Err ==> final(src).pos() == old(src).pos(),
    {
        let b = match src.read_bytes(1) {
            Ok(b) => b,
            Err(e) => {
                return Err(e);
            },
        };
        Ok(u8_as_i8(b[0]))
    }
}

impl UnpackFrom for u16 {
    open spec fn read_width() -> nat {
        2
    }

    open spec fn read_value(o: ByteOrder, b: Seq<u8>) -> u16 {
        spec_u16_from_le_bytes(oriented(b, o))
    }

    open spec fn fill_value() -> u16 {
        0
    }

    fn fill() -> (r: u16) {
        0
    }

    fn unpack_from(o: ByteOrder, src: &mut Source) -> (r: Result<u16, UnpackError>)
        ensures
            r is Err ==> final(src).pos() == old(src).pos(),
    {
        let b = match src.read_bytes(2) {
            Ok(b) => b,
            Err(e) => {
                return Err(e);
            },
        };
        let le = orient(b, o);
        Ok(u16_from_le_bytes(le.as_slice()))
    }
}

impl UnpackFrom for i16 {
    open spec fn read_width() -> nat {
        2
    }

    open spec fn read_value(o: ByteOrder, b: Seq<u8>) -> i16 {
        spec_u16_as_i16(spec_u16_from_le_bytes(oriented(b, o)))
    }

    open spec fn fill_value() -> i16 {
        0
    }

    fn fill() -> (r: i16) {
        0
    }

    fn unpack_from(o: ByteOrder, src: &mut Source) -> (r: Result<i16, UnpackError>)
        ensures
            r is Err ==> final(src).pos() == old(src).pos(),
    {
        let b = match src.read_bytes(2) {
            Ok(b) => b,
            Err(e) => {
                return Err(e);
            },
        };
        let le = orient(b, o);
        Ok(u16_as_i16(u16_from_le_bytes(le.as_slice())))
    }
}

impl UnpackFrom for u32 {
    open spec fn read_width() -> nat {
        4
    }

    open spec fn read_value(o: ByteOrder, b: Seq<u8>) -> u32 {
        spec_u32_from_le_bytes(oriented(b, o))
    }

    open spec fn fill_value() -> u32 {
        0
    }

    fn fill() -> (r: u32) {
        0
    }

    fn unpack_from(o: ByteOrder, src: &mut Source) -> (r: Result<u32, UnpackError>)
        ensures
            r is Err ==> final(src).pos() == old(src).pos(),
    {
        let b = match src.read_bytes(4) {
            Ok(b) => b,
            Err(e) => {
                return Err(e);
            },
        };
        let le = orient(b, o);
        Ok(u32_from_le_bytes(le.as_slice()))
    }
}

impl UnpackFrom for i32 {
    open spec fn read_width() -> nat {
        4
    }

    open spec fn read_value(o: ByteOrder, b: Seq<u8>) -> i32 {
        spec_u32_as_i32(spec_u32_from_le_bytes(oriented(b, o)))
    }

    open spec fn fill_value() -> i32 {
        0
    }

    fn fill() -> (r: i32) {
        0
    }

    fn unpack_from(o: ByteOrder, src: &mut Source) -> (r: Result<i32, UnpackError>)
        ensures
            r is Err ==> final(src).pos() == old(src).pos(),
    {
        let b = match src.read_bytes(4) {
            Ok(b) => b,
            Err(e) => {
                return Err(e);
            },
        };
        let le = orient(b, o);
        Ok(u32_as_i32(u32_from_le_bytes(le.as_slice())))
    }
}

impl UnpackFrom for u64 {
    open spec fn read_width() -> nat {
        8
    }

    open spec fn read_value(o: ByteOrder, b: Seq<u8>) -> u64 {
        spec_u64_from_le_bytes(oriented(b, o))
    }

    open spec fn fill_value() -> u64 {
        0
    }

    fn fill() -> (r: u64) {
        0
    }

    fn unpack_from(o: ByteOrder, src: &mut Source) -> (r: Result<u64, UnpackError>)
        ensures
            r is Err ==> final(src).pos() == old(src).pos(),
    {
        let b = match src.read_bytes(8) {
            Ok(b) => b,
            Err(e) => {
                return Err(e);
            },
        };
        let le = orient(b, o);
        Ok(u64_from_le_bytes(le.as_slice()))
    }
}

impl UnpackFrom for i64 {
    open spec fn read_width() -> nat {
        8
    }

    open spec fn read_value(o: ByteOrder, b: Seq<u8>) -> i64 {
        spec_u64_as_i64(spec_u64_from_le_bytes(oriented(b, o)))
    }

    open spec fn fill_value() -> i64 {
        0
    }

    fn fill() -> (r: i64) {
        0
    }

    fn unpack_from(o: ByteOrder, src: &mut Source) -> (r: Result<i64, UnpackError>)
        ensures
            r is Err ==> final(src).pos() == old(src).pos(),
    {
        let b = match src.read_bytes(8) {
            Ok(b) => b,
            Err(e) => {
                return Err(e);
            },
        };
        let le = orient(b, o);
        Ok(u64_as_i64(u64_from_le_bytes(le.as_slice())))
    }
}

impl UnpackFrom for u128 {
    open spec fn read_width() -> nat {
        16
    }

    open spec fn read_value(o: ByteOrder, b: Seq<u8>) -> u128 {
        spec_u128_from_le_bytes(oriented(b, o))
    }

    open spec fn fill_value() -> u128 {
        0
    }

    fn fill() -> (r: u128) {
        0
    }

    fn unpack_from(o: ByteOrder, src: &mut Source) -> (r: Result<u128, UnpackError>)
        ensures
            r is Err ==> final(src).pos() == old(src).pos(),
    {
        let b = match src.read_bytes(16) {
            Ok(b) => b,
            Err(e) => {
                return Err(e);
            },
        };
        let le = orient(b, o);
        Ok(u128_from_le_bytes(le.as_slice()))
    }
}

impl UnpackFrom for i128 {
    open spec fn read_width() -> nat {
        16
    }

    open spec fn read_value(o: ByteOrder, b: Seq<u8>) -> i128 {
        spec_u128_as_i128(spec_u128_from_le_bytes(oriented(b, o)))
    }

    open spec fn fill_value() -> i128 {
        0
    }

    fn fill() -> (r: i128) {
        0
    }

    fn unpack_from(o: ByteOrder, src: &mut Source) -> (r: Result<i128, UnpackError>)
        ensures
            r is Err ==> final(src).pos() == old(src).pos(),
    {
        let b = match src.read_bytes(16) {
            Ok(b) => b,
            Err(e) => {
                return Err(e);
            },
        };
        let le = orient(b, o);
        Ok(u128_as_i128(u128_from_le_bytes(le.as_slice())))
    }
}

impl UnpackFrom for () {
    open spec fn read_width() -> nat {
        0
    }

    open spec fn read_value(o: ByteOrder, b: Seq<u8>) -> () {
        ()
    }

    open spec fn fill_value() -> () {
        ()
    }

    fn fill() -> (r: ()) {
        ()
    }

    fn unpack_from(o: ByteOrder, src: &mut Source) -> (r: Result<(), UnpackError>) {
        Ok(())
    }
}

} // verus!
