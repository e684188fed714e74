use byteorder_pack::ByteOrder;
use byteorder_pack::PackError;
use byteorder_pack::PackTo;
use byteorder_pack::Sink;
use byteorder_pack::Source;
use byteorder_pack::UnpackError;
use byteorder_pack::UnpackFrom;

fn packed<T: PackTo>(v: &T, o: ByteOrder) -> Vec<u8> {
    let mut sink = Sink::unbounded();
    v.pack_to(o, &mut sink).unwrap();
    sink.into_bytes()
}

fn unpacked<T: UnpackFrom>(bytes: Vec<u8>, o: ByteOrder) -> T {
    let mut src = Source::from_bytes(bytes);
    T::unpack_from(o, &mut src).unwrap()
}

fn round_trip<T: PackTo + UnpackFrom + PartialEq + Clone + std::fmt::Debug>(v: T) {
    for o in [ByteOrder::Big, ByteOrder::Little] {
        let bytes = packed(&v, o);
        let back: T = unpacked(bytes, o);
        assert_eq!(back, v);
    }
}

#[test]
fn tuple_packs_big_endian() {
    let mut sink = Sink::unbounded();
    (1u8, 2u8, 3u16, 4u16).pack_to(ByteOrder::Big, &mut sink).unwrap();
    assert_eq!(sink.into_bytes(), vec![0x01, 0x02, 0x00, 0x03, 0x00, 0x04]);
}

#[test]
fn tuple_packs_little_endian() {
    let mut sink = Sink::unbounded();
    (1u8, 2u8, 3u16, 4u16).pack_to_le(&mut sink).unwrap();
    assert_eq!(sink.into_bytes(), vec![0x01, 0x02, 0x03, 0x00, 0x04, 0x00]);
}

#[test]
fn convenience_big_endian_matches_explicit_order() {
    let mut a = Sink::unbounded();
    let mut b = Sink::unbounded();
    (7u32, 9i16).pack_to_be(&mut a).unwrap();
    (7u32, 9i16).pack_to(ByteOrder::Big, &mut b).unwrap();
    assert_eq!(a.into_bytes(), b.into_bytes());
}

#[test]
fn tuple_with_run_unpacks_big_endian() {
    let mut src = Source::from_bytes(vec![0x01, 0x02, 0x00, 0x03, 0x00, 0x04]);
    let (a, b) = <(u8, u8)>::unpack_from(ByteOrder::Big, &mut src).unwrap();
    let mut cd = vec![u16::fill(), u16::fill()];
    u16::unpack_multiple_into(ByteOrder::Big, &mut src, &mut cd).unwrap();
    assert_eq!(a, 1);
    assert_eq!(b, 2);
    assert_eq!(cd, vec![3, 4]);
    assert_eq!(src.bytes_left(), 0);
}

#[test]
fn tuple_unpacks_little_endian() {
    let mut src = Source::from_bytes(vec![0x01, 0x02, 0x03, 0x00, 0x04, 0x00]);
    let (a, b, c, d) = <(u8, u8, u16, u16)>::unpack_from_le(&mut src).unwrap();
    assert_eq!((a, b, c, d), (1, 2, 3, 4));
}

#[test]
fn empty_tuple_writes_nothing_and_always_succeeds() {
    let mut sink = Sink::with_room(0);
    ().pack_to(ByteOrder::Big, &mut sink).unwrap();
    ().pack_to(ByteOrder::Little, &mut sink).unwrap();
    assert_eq!(sink.into_bytes(), Vec::<u8>::new());
    let mut src = Source::from_bytes(vec![]);
    <()>::unpack_from(ByteOrder::Big, &mut src).unwrap();
    assert_eq!(src.bytes_left(), 0);
}

#[test]
fn byte_run_is_order_independent() {
    for o in [ByteOrder::Big, ByteOrder::Little] {
        let mut sink = Sink::unbounded();
        u8::pack_multiple_to(&vec![10u8, 20, 30], o, &mut sink).unwrap();
        assert_eq!(sink.into_bytes(), vec![0x0A, 0x14, 0x1E]);
    }
}

#[test]
fn short_run_decode_fills_prefix_and_fails() {
    let mut src = Source::from_bytes(vec![0x00, 0x03, 0x00]);
    let mut dst = vec![u16::fill(), u16::fill()];
    let r = u16::unpack_multiple_into(ByteOrder::Big, &mut src, &mut dst);
    assert_eq!(r, Err(UnpackError::ShortRead));
    assert_eq!(dst, vec![3, 0]);
}

#[test]
fn scalar_round_trips_at_extremes() {
    round_trip(0u8);
    round_trip(u8::MAX);
    round_trip(0i8);
    round_trip(i8::MIN);
    round_trip(i8::MAX);
    round_trip(-1i8);
    round_trip(0u16);
    round_trip(u16::MAX);
    round_trip(0x1234u16);
    round_trip(i16::MIN);
    round_trip(i16::MAX);
    round_trip(-2i16);
    round_trip(0u32);
    round_trip(u32::MAX);
    round_trip(0xDEAD_BEEFu32);
    round_trip(i32::MIN);
    round_trip(i32::MAX);
    round_trip(-1i32);
    round_trip(0u64);
    round_trip(u64::MAX);
    round_trip(i64::MIN);
    round_trip(i64::MAX);
    round_trip(-3i64);
    round_trip(0u128);
    round_trip(u128::MAX);
    round_trip(i128::MIN);
    round_trip(i128::MAX);
    round_trip(-4i128);
}

#[test]
fn tuple_round_trips() {
    round_trip((1u8, -2i16, 3u32, -4i64));
    round_trip((u128::MAX, i128::MIN));
    round_trip((1u8,));
    round_trip((1u8, 2u8, 3u8, 4u8, 5u8, 6u8, 7u8, 8u8, 9u8, 10u8, 11u8, 12u8));
}

#[test]
fn signed_values_use_twos_complement_bytes() {
    assert_eq!(packed(&-1i8, ByteOrder::Big), vec![0xFF]);
    assert_eq!(packed(&-2i16, ByteOrder::Big), vec![0xFF, 0xFE]);
    assert_eq!(packed(&-2i16, ByteOrder::Little), vec![0xFE, 0xFF]);
    assert_eq!(packed(&i32::MIN, ByteOrder::Big), vec![0x80, 0x00, 0x00, 0x00]);
}

#[test]
fn width_is_fixed_whatever_the_value() {
    for v in [0u64, 1, u64::MAX] {
        assert_eq!(packed(&v, ByteOrder::Big).len(), 8);
        assert_eq!(packed(&v, ByteOrder::Little).len(), 8);
    }
    for v in [0u128, 7, u128::MAX] {
        assert_eq!(packed(&v, ByteOrder::Little).len(), 16);
    }
}

#[test]
fn orders_write_reversed_bytes() {
    let v = 0x0102030405060708u64;
    let be = packed(&v, ByteOrder::Big);
    let mut le = packed(&v, ByteOrder::Little);
    assert_eq!(be, vec![1, 2, 3, 4, 5, 6, 7, 8]);
    le.reverse();
    assert_eq!(be, le);
}

#[test]
fn single_byte_scalars_ignore_the_order() {
    assert_eq!(packed(&0xABu8, ByteOrder::Big), packed(&0xABu8, ByteOrder::Little));
    assert_eq!(packed(&-5i8, ByteOrder::Big), packed(&-5i8, ByteOrder::Little));
}

#[test]
fn pair_bytes_are_the_fields_concatenated() {
    let ab = packed(&(0x0102u16, 0x0304u16), ByteOrder::Big);
    let mut cat = packed(&0x0102u16, ByteOrder::Big);
    cat.extend(packed(&0x0304u16, ByteOrder::Big));
    assert_eq!(ab, cat);
}

#[test]
fn full_sink_rejects_the_write_whole() {
    let mut sink = Sink::with_room(1);
    let r = 0x1234u16.pack_to(ByteOrder::Big, &mut sink);
    assert_eq!(r, Err(PackError::SinkFull));
    assert_eq!(sink.byte_count(), 0);
    assert_eq!(sink.room_left(), 1);
}

#[test]
fn composite_failure_keeps_the_written_prefix() {
    let mut sink = Sink::with_room(3);
    let r = (0x0102u16, 0x0304u16).pack_to(ByteOrder::Big, &mut sink);
    assert_eq!(r, Err(PackError::SinkFull));
    assert_eq!(sink.into_bytes(), vec![0x01, 0x02]);
}

#[test]
fn exact_room_is_enough() {
    let mut sink = Sink::with_room(4);
    (0x0102u16, 0x0304u16).pack_to(ByteOrder::Big, &mut sink).unwrap();
    assert_eq!(sink.room_left(), 0);
    assert_eq!(sink.into_bytes(), vec![1, 2, 3, 4]);
}

#[test]
fn short_scalar_read_fails_without_consuming() {
    let mut src = Source::from_bytes(vec![1, 2, 3]);
    let r = u32::unpack_from(ByteOrder::Big, &mut src);
    assert_eq!(r, Err(UnpackError::ShortRead));
    assert_eq!(src.bytes_left(), 3);
}

#[test]
fn short_composite_read_fails_after_leading_fields() {
    let mut src = Source::from_bytes(vec![1, 2, 3]);
    let r = <(u16, u16)>::unpack_from(ByteOrder::Big, &mut src);
    assert_eq!(r, Err(UnpackError::ShortRead));
    assert_eq!(src.bytes_left(), 1);
}

#[test]
fn byte_runs_block_transfer_both_ways() {
    let mut sink = Sink::unbounded();
    vec![9u8, 8, 7, 6].pack_to(ByteOrder::Little, &mut sink).unwrap();
    assert_eq!(sink.byte_count(), 4);
    let mut src = Source::from_bytes(sink.into_bytes());
    let mut dst = vec![0u8; 4];
    u8::unpack_multiple_into(ByteOrder::Little, &mut src, &mut dst).unwrap();
    assert_eq!(dst, vec![9, 8, 7, 6]);
}

#[test]
fn short_byte_run_fills_prefix_and_fails() {
    let mut src = Source::from_bytes(vec![5, 6]);
    let mut dst = vec![0u8; 4];
    let r = u8::unpack_multiple_into(ByteOrder::Big, &mut src, &mut dst);
    assert_eq!(r, Err(UnpackError::ShortRead));
    assert_eq!(dst, vec![5, 6, 0, 0]);
}

#[test]
fn run_of_multibyte_scalars_packs_each_in_order() {
    let mut sink = Sink::unbounded();
    u16::pack_multiple_to(&vec![0x0102u16, 0x0304], ByteOrder::Big, &mut sink).unwrap();
    assert_eq!(sink.into_bytes(), vec![1, 2, 3, 4]);
    let mut sink = Sink::unbounded();
    u16::pack_multiple_to(&vec![0x0102u16, 0x0304], ByteOrder::Little, &mut sink).unwrap();
    assert_eq!(sink.into_bytes(), vec![2, 1, 4, 3]);
}

#[test]
fn fill_values_are_zero() {
    assert_eq!(u8::fill(), 0);
    assert_eq!(i32::fill(), 0);
    assert_eq!(u128::fill(), 0);
    assert_eq!(<(u8, i16)>::fill(), (0, 0));
}

#[test]
fn nested_tuples_compose() {
    let v = ((1u8, 0x0203u16), (0x0405u16, 6u8));
    let bytes = packed(&v, ByteOrder::Big);
    assert_eq!(bytes, vec![1, 2, 3, 4, 5, 6]);
    let back: ((u8, u16), (u16, u8)) = unpacked(bytes, ByteOrder::Big);
    assert_eq!(back, v);
}

#[test]
fn twelve_field_tuple_packs_in_declared_order() {
    let v = (1u8, 2u8, 3u8, 4u8, 5u8, 6u8, 7u8, 8u8, 9u8, 10u8, 11u8, 0x0C0Du16);
    assert_eq!(
        packed(&v, ByteOrder::Big),
        vec![1, 2, 3, 4, 5, 6, 7, 8, 9, 10, 11, 0x0C, 0x0D]
    );
}

#[test]
fn consumed_bytes_stay_consumed_after_failure() {
    let mut src = Source::from_bytes(vec![0, 1, 0, 2, 0]);
    let (a, b) = <(u16, u16)>::unpack_from(ByteOrder::Big, &mut src).unwrap();
    assert_eq!((a, b), (1, 2));
    let r = u16::unpack_from(ByteOrder::Big, &mut src);
    assert_eq!(r, Err(UnpackError::ShortRead));
    assert_eq!(src.bytes_left(), 1);
}

#[test]
fn run_pack_failure_keeps_whole_elements_only() {
    let mut sink = Sink::with_room(3);
    let r = u16::pack_multiple_to(&vec![0x0001u16, 0x0002, 0x0003], ByteOrder::Big, &mut sink);
    assert_eq!(r, Err(PackError::SinkFull));
    assert_eq!(sink.into_bytes(), vec![0x00, 0x01]);
}

#[test]
fn signed_byte_runs_use_the_element_loop() {
    let mut sink = Sink::unbounded();
    i8::pack_multiple_to(&vec![-1i8, 0, 1], ByteOrder::Little, &mut sink).unwrap();
    assert_eq!(sink.byte_count(), 3);
    let mut src = Source::from_bytes(sink.into_bytes());
    let mut dst = vec![i8::fill(); 3];
    i8::unpack_multiple_into(ByteOrder::Little, &mut src, &mut dst).unwrap();
    assert_eq!(dst, vec![-1, 0, 1]);
}

#[test]
fn reference_packs_like_the_referent() {
    let v = 0x0102u16;
    assert_eq!(packed(&&v, ByteOrder::Big), packed(&v, ByteOrder::Big));
}

#[test]
fn slice_packs_like_the_run() {
    let v: Vec<u16> = vec![0x0102, 0x0304];
    let mut sink = Sink::unbounded();
    (&v[..]).pack_to(ByteOrder::Little, &mut sink).unwrap();
    assert_eq!(sink.into_bytes(), vec![2, 1, 4, 3]);
}

#[test]
fn array_packs_as_its_run() {
    let mut sink = Sink::unbounded();
    [10u8, 20, 30].pack_to(ByteOrder::Big, &mut sink).unwrap();
    assert_eq!(sink.into_bytes(), vec![0x0A, 0x14, 0x1E]);
    let mut sink = Sink::unbounded();
    [0x0102u16, 0x0304].pack_to(ByteOrder::Little, &mut sink).unwrap();
    assert_eq!(sink.into_bytes(), vec![2, 1, 4, 3]);
}
