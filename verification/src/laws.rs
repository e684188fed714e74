use vstd::prelude::*;

use vstd::bytes::spec_u128_to_le_bytes;
use vstd::bytes::spec_u16_to_le_bytes;
use vstd::bytes::spec_u32_to_le_bytes;
use vstd::bytes::spec_u64_to_le_bytes;

use crate::order::oriented;
use crate::order::ByteOrder;
use crate::pack::PackTo;
use crate::scalar::lemma_signed_unsigned_inverse;
use crate::scalar::spec_i128_as_u128;
use crate::scalar::spec_i16_as_u16;
use crate::scalar::spec_i32_as_u32;
use crate::scalar::spec_i64_as_u64;
use crate::scalar::spec_i8_as_u8;
use crate::unpack::chunk;
use crate::unpack::UnpackFrom;

verus! {

/// A type's two wire contracts are exact mirrors: the decode width equals
/// the encode width, the wire form always holds exactly that many bytes,
/// and reading a value's wire form back under the same order yields the
/// value itself — for every value and both orders.
pub open spec fn round_trips<T: PackTo + UnpackFrom>() -> bool {
    &&& forall|v: T| (#[trigger] v.wire_width()) == T::read_width()
    &&& forall|v: T, o: ByteOrder| (#[trigger] v.wire_bytes(o)).len() == v.wire_width()
    &&& forall|v: T, o: ByteOrder| T::read_value(o, #[trigger] v.wire_bytes(o)) == v
}

/// Orienting twice under the same order gives the bytes back.
proof fn lemma_oriented_involutes(b: Seq<u8>, o: ByteOrder)
    ensures
        oriented(oriented(b, o), o) == b,
{
    match o {
        ByteOrder::Big => {
            assert(b.reverse().reverse() =~= b);
        },
        ByteOrder::Little => {},
    }
}

/// Round trip for `u8`: one byte out, the same byte back.
pub proof fn lemma_round_trips_u8()
    ensures
        round_trips::<u8>(),
{
    assert forall|v: u8, o: ByteOrder| u8::read_value(o, #[trigger] v.wire_bytes(o)) == v by {
        assert(v.wire_bytes(o)[0] == v);
    }
}

/// Round trip for `i8`.
pub proof fn lemma_round_trips_i8()
    ensures
        round_trips::<i8>(),
{
    lemma_signed_unsigned_inverse();
    assert forall|v: i8, o: ByteOrder| i8::read_value(o, #[trigger] v.wire_bytes(o)) == v by {
        assert(v.wire_bytes(o)[0] == spec_i8_as_u8(v));
    }
}

/// Round trip for `u16`.
pub proof fn lemma_round_trips_u16()
    ensures
        round_trips::<u16>(),
{
    vstd::bytes::lemma_auto_spec_u16_to_from_le_bytes();
    assert forall|v: u16, o: ByteOrder| u16::read_value(o, #[trigger] v.wire_bytes(o)) == v by {
        lemma_oriented_involutes(spec_u16_to_le_bytes(v), o);
    }
}

/// Round trip for `i16`.
pub proof fn lemma_round_trips_i16()
    ensures
        round_trips::<i16>(),
{
    vstd::bytes::lemma_auto_spec_u16_to_from_le_bytes();
    lemma_signed_unsigned_inverse();
    assert forall|v: i16, o: ByteOrder| i16::read_value(o, #[trigger] v.wire_bytes(o)) == v by {
        lemma_oriented_involutes(spec_u16_to_le_bytes(spec_i16_as_u16(v)), o);
    }
}

/// Round trip for `u32`.
pub proof fn lemma_round_trips_u32()
    ensures
        round_trips::<u32>(),
{
    vstd::bytes::lemma_auto_spec_u32_to_from_le_bytes();
    assert forall|v: u32, o: ByteOrder| u32::read_value(o, #[trigger] v.wire_bytes(o)) == v by {
        lemma_oriented_involutes(spec_u32_to_le_bytes(v), o);
    }
}

/// Round trip for `i32`.
pub proof fn lemma_round_trips_i32()
    ensures
        round_trips::<i32>(),
{
    vstd::bytes::lemma_auto_spec_u32_to_from_le_bytes();
    lemma_signed_unsigned_inverse();
    assert forall|v: i32, o: ByteOrder| i32::read_value(o, #[trigger] v.wire_bytes(o)) == v by {
        lemma_oriented_involutes(spec_u32_to_le_bytes(spec_i32_as_u32(v)), o);
    }
}

/// Round trip for `u64`.
pub proof fn lemma_round_trips_u64()
    ensures
        round_trips::<u64>(),
{
    vstd::bytes::lemma_auto_spec_u64_to_from_le_bytes();
    assert forall|v: u64, o: ByteOrder| u64::read_value(o, #[trigger] v.wire_bytes(o)) == v by {
        lemma_oriented_involutes(spec_u64_to_le_bytes(v), o);
    }
}

/// Round trip for `i64`.
pub proof fn lemma_round_trips_i64()
    ensures
        round_trips::<i64>(),
{
    vstd::bytes::lemma_auto_spec_u64_to_from_le_bytes();
    lemma_signed_unsigned_inverse();
    assert forall|v: i64, o: ByteOrder| i64::read_value(o, #[trigger] v.wire_bytes(o)) == v by {
        lemma_oriented_involutes(spec_u64_to_le_bytes(spec_i64_as_u64(v)), o);
    }
}

/// Round trip for `u128`.
pub proof fn lemma_round_trips_u128()
    ensures
        round_trips::<u128>(),
{
    vstd::bytes::lemma_auto_spec_u128_to_from_le_bytes();
    assert forall|v: u128, o: ByteOrder| u128::read_value(o, #[trigger] v.wire_bytes(o)) == v by {
        lemma_oriented_involutes(spec_u128_to_le_bytes(v), o);
    }
}

/// Round trip for `i128`.
pub proof fn lemma_round_trips_i128()
    ensures
        round_trips::<i128>(),
{
    vstd::bytes::lemma_auto_spec_u128_to_from_le_bytes();
    lemma_signed_unsigned_inverse();
    assert forall|v: i128, o: ByteOrder| i128::read_value(o, #[trigger] v.wire_bytes(o)) == v by {
        lemma_oriented_involutes(spec_u128_to_le_bytes(spec_i128_as_u128(v)), o);
    }
}

/// Round trip for the zero-field composition: zero bytes, always back.
pub proof fn lemma_round_trips_unit()
    ensures
        round_trips::<()>(),
{
}

/// Composition: a pair that round-trips is built from parts that do.  The
/// pair's wire form is the two fields' forms concatenated, and decoding
/// that concatenation under the same order rebuilds the pair.
pub proof fn lemma_round_trips_pair<A: PackTo + UnpackFrom, B: PackTo + UnpackFrom>()
    requires
        round_trips::<A>(),
        round_trips::<B>(),
    ensures
        round_trips::<(A, B)>(),
{
    assert forall|v: (A, B)| (#[trigger] v.wire_width()) == <(A, B)>::read_width() by {
        assert(v.0.wire_width() == A::read_width());
        assert(v.1.wire_width() == B::read_width());
    }
    assert forall|v: (A, B), o: ByteOrder| (#[trigger] v.wire_bytes(o)).len() == v.wire_width() by {
        assert(v.0.wire_bytes(o).len() == v.0.wire_width());
        assert(v.1.wire_bytes(o).len() == v.1.wire_width());
    }
    assert forall|v: (A, B), o: ByteOrder|
        <(A, B)>::read_value(o, #[trigger] v.wire_bytes(o)) == v by {
        let a = v.0.wire_bytes(o);
        let b = v.1.wire_bytes(o);
        assert(a.len() == A::read_width());
        assert(b.len() == B::read_width());
        assert(chunk(a + b, 0, A::read_width()) =~= a);
        assert(chunk(a + b, A::read_width() as int, B::read_width()) =~= b);
        assert(A::read_value(o, a) == v.0);
        assert(B::read_value(o, b) == v.1);
    }
}

/// Composition at the byte level: a pair's wire form is the first field's
/// form followed by the second's, with no separator.
pub proof fn lemma_pair_bytes_concat<A: PackTo, B: PackTo>(a: A, b: B, o: ByteOrder)
    ensures
        (a, b).wire_bytes(o) == a.wire_bytes(o) + b.wire_bytes(o),
{
}

/// A type whose big-endian wire form is the exact reversal of its
/// little-endian one, for every value.
pub open spec fn order_reversing<T: PackTo>() -> bool {
    forall|v: T|
        (#[trigger] v.wire_bytes(ByteOrder::Big)) == v.wire_bytes(ByteOrder::Little).reverse()
}

/// Every scalar's two orders write byte-reversed forms of each other.
pub proof fn lemma_order_reversal_scalars()
    ensures
        order_reversing::<u8>(),
        order_reversing::<i8>(),
        order_reversing::<u16>(),
        order_reversing::<i16>(),
        order_reversing::<u32>(),
        order_reversing::<i32>(),
        order_reversing::<u64>(),
        order_reversing::<i64>(),
        order_reversing::<u128>(),
        order_reversing::<i128>(),
{
    assert forall|v: u8| (#[trigger] v.wire_bytes(ByteOrder::Big)) == v.wire_bytes(
        ByteOrder::Little,
    ).reverse() by {
        assert(seq![v].reverse() =~= seq![v]);
    }
    assert forall|v: i8| (#[trigger] v.wire_bytes(ByteOrder::Big)) == v.wire_bytes(
        ByteOrder::Little,
    ).reverse() by {
        assert(seq![spec_i8_as_u8(v)].reverse() =~= seq![spec_i8_as_u8(v)]);
    }
}

/// A single-byte scalar's wire form does not depend on the order at all.
pub proof fn lemma_single_byte_order_blind()
    ensures
        forall|v: u8, o1: ByteOrder, o2: ByteOrder|
            #![trigger v.wire_bytes(o1), v.wire_bytes(o2)]
            v.wire_bytes(o1) == v.wire_bytes(o2),
        forall|v: i8, o1: ByteOrder, o2: ByteOrder|
            #![trigger v.wire_bytes(o1), v.wire_bytes(o2)]
            v.wire_bytes(o1) == v.wire_bytes(o2),
{
}

} // verus!
