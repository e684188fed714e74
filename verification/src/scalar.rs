use vstd::prelude::*;

verus! {

// The signed scalars share their wire form with the unsigned scalar of the
// same width: a signed value is laid out as its two's-complement unsigned
// counterpart.  The pairs of spec functions below are exact inverses.

/// The two's-complement unsigned counterpart of an `i8`.
pub open spec fn spec_i8_as_u8(x: i8) -> u8 {
    if x >= 0 {
        x as u8
    } else {
        (x + 0x100) as u8
    }
}

/// The `i8` a two's-complement `u8` stands for.
pub open spec fn spec_u8_as_i8(x: u8) -> i8 {
    if x < 0x80 {
        x as i8
    } else {
        (x - 0x100) as i8
    }
}

/// The two's-complement unsigned counterpart of an `i16`.
pub open spec fn spec_i16_as_u16(x: i16) -> u16 {
    if x >= 0 {
        x as u16
    } else {
        (x + 0x1_0000) as u16
    }
}

/// The `i16` a two's-complement `u16` stands for.
pub open spec fn spec_u16_as_i16(x: u16) -> i16 {
    if x < 0x8000 {
        x as i16
    } else {
        (x - 0x1_0000) as i16
    }
}

/// The two's-complement unsigned counterpart of an `i32`.
pub open spec fn spec_i32_as_u32(x: i32) -> u32 {
    if x >= 0 {
        x as u32
    } else {
        (x + 0x1_0000_0000) as u32
    }
}

/// The `i32` a two's-complement `u32` stands for.
pub open spec fn spec_u32_as_i32(x: u32) -> i32 {
    if x < 0x8000_0000 {
        x as i32
    } else {
        (x - 0x1_0000_0000) as i32
    }
}

/// The two's-complement unsigned counterpart of an `i64`.
pub open spec fn spec_i64_as_u64(x: i64) -> u64 {
    if x >= 0 {
        x as u64
    } else {
        (x + 0x1_0000_0000_0000_0000) as u64
    }
}

/// The `i64` a two's-complement `u64` stands for.
pub open spec fn spec_u64_as_i64(x: u64) -> i64 {
    if x < 0x8000_0000_0000_0000 {
        x as i64
    } else {
        (x - 0x1_0000_0000_0000_0000) as i64
    }
}

/// The two's-complement unsigned counterpart of an `i128`.
pub open spec fn spec_i128_as_u128(x: i128) -> u128 {
    if x >= 0 {
        x as u128
    } else {
        (x + 0x1_0000_0000_0000_0000_0000_0000_0000_0000) as u128
    }
}

/// The `i128` a two's-complement `u128` stands for.
pub open spec fn spec_u128_as_i128(x: u128) -> i128 {
    if x < 0x8000_0000_0000_0000_0000_0000_0000_0000 {
        x as i128
    } else {
        (x - 0x1_0000_0000_0000_0000_0000_0000_0000_0000) as i128
    }
}

/// The two conversions at each width undo one another.
pub proof fn lemma_signed_unsigned_inverse()
    ensures
        forall|x: i8| #[trigger] spec_u8_as_i8(spec_i8_as_u8(x)) == x,
        forall|y: u8| #[trigger] spec_i8_as_u8(spec_u8_as_i8(y)) == y,
        forall|x: i16| #[trigger] spec_u16_as_i16(spec_i16_as_u16(x)) == x,
        forall|y: u16| #[trigger] spec_i16_as_u16(spec_u16_as_i16(y)) == y,
        forall|x: i32| #[trigger] spec_u32_as_i32(spec_i32_as_u32(x)) == x,
        forall|y: u32| #[trigger] spec_i32_as_u32(spec_u32_as_i32(y)) == y,
        forall|x: i64| #[trigger] spec_u64_as_i64(spec_i64_as_u64(x)) == x,
        forall|y: u64| #[trigger] spec_i64_as_u64(spec_u64_as_i64(y)) == y,
        forall|x: i128| #[trigger] spec_u128_as_i128(spec_i128_as_u128(x)) == x,
        forall|y: u128| #[trigger] spec_i128_as_u128(spec_u128_as_i128(y)) == y,
{
}

/// Computes `spec_i8_as_u8`.
pub fn i8_as_u8(x: i8) -> (r: u8)
    ensures
        r == spec_i8_as_u8(x),
{
    if x >= 0 {
        x as u8
    } else {
        ((x as i16) + 0x100) as u8
    }
}

/// Computes `spec_u8_as_i8`.
pub fn u8_as_i8(x: u8) -> (r: i8)
    ensures
        r == spec_u8_as_i8(x),
{
    if x < 0x80 {
        x as i8
    } else {
        ((x as i16) - 0x100) as i8
    }
}

/// Computes `spec_i16_as_u16`.
pub fn i16_as_u16(x: i16) -> (r: u16)
    ensures
        r == spec_i16_as_u16(x),
{
    if x >= 0 {
        x as u16
    } else {
        ((x as i32) + 0x1_0000) as u16
    }
}

/// Computes `spec_u16_as_i16`.
pub fn u16_as_i16(x: u16) -> (r: i16)
    ensures
        r == spec_u16_as_i16(x),
{
    if x < 0x8000 {
        x as i16
    } else {
        ((x as i32) - 0x1_0000) as i16
    }
}

/// Computes `spec_i32_as_u32`.
pub fn i32_as_u32(x: i32) -> (r: u32)
    ensures
        r == spec_i32_as_u32(x),
{
    if x >= 0 {
        x as u32
    } else {
        ((x as i64) + 0x1_0000_0000) as u32
    }
}

/// Computes `spec_u32_as_i32`.
pub fn u32_as_i32(x: u32) -> (r: i32)
    ensures
        r == spec_u32_as_i32(x),
{
    if x < 0x8000_0000 {
        x as i32
    } else {
        ((x as i64) - 0x1_0000_0000) as i32
    }
}

/// Computes `spec_i64_as_u64`.
pub fn i64_as_u64(x: i64) -> (r: u64)
    ensures
        r == spec_i64_as_u64(x),
{
    if x >= 0 {
        x as u64
    } else {
        ((x as i128) + 0x1_0000_0000_0000_0000) as u64
    }
}

/// Computes `spec_u64_as_i64`.
pub fn u64_as_i64(x: u64) -> (r: i64)
    ensures
        r == spec_u64_as_i64(x),
{
    if x < 0x8000_0000_0000_0000 {
        x as i64
    } else {
        ((x as i128) - 0x1_0000_0000_0000_0000) as i64
    }
}

/// Computes `spec_i128_as_u128`.
pub fn i128_as_u128(x: i128) -> (r: u128)
    ensures
        r == spec_i128_as_u128(x),
{
    if x >= 0 {
        x as u128
    } else {
        ((x - i128::MIN) as u128) + 0x8000_0000_0000_0000_0000_0000_0000_0000
    }
}

/// Computes `spec_u128_as_i128`.
pub fn u128_as_i128(x: u128) -> (r: i128)
    ensures
        r == spec_u128_as_i128(x),
{
    if x < 0x8000_0000_0000_0000_0000_0000_0000_0000 {
        x as i128
    } else {
        ((x - 0x8000_0000_0000_0000_0000_0000_0000_0000) as i128) + i128::MIN
    }
}

} // verus!
