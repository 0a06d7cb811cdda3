use asprim::{AsPrim, CastFrom, CastTo};

fn widen_to_i64<P: AsPrim>(x: P) -> i64 {
    x.as_i64()
}

fn narrow_back<P: CastFrom>(x: i64) -> P {
    x.as_::<P>()
}

#[test]
fn integer_truncation() {
    assert_eq!(300i32.as_u8(), 44);
    assert_eq!(300u16.as_u8(), 44);
    assert_eq!(300i64.as_::<u8>(), 44);
    assert_eq!(u8::cast_from(300u32), 44);
    assert_eq!(0x1234_5678u32.as_u16(), 0x5678);
    assert_eq!(0x1_0000_0001u64.as_u32(), 1);
    assert_eq!(u128::MAX.as_u64(), u64::MAX);
}

#[test]
fn negative_to_unsigned() {
    assert_eq!((-1i32).as_u32(), 4294967295);
    assert_eq!((-1i32).as_::<u32>(), 4294967295);
    assert_eq!((-1i8).as_u16(), 65535);
    assert_eq!((-1i64).as_u128(), u128::MAX);
    assert_eq!((-2i16).as_u8(), 254);
    assert_eq!(i128::MIN.as_u8(), 0);
}

#[test]
fn unsigned_to_signed_reinterprets() {
    assert_eq!(200u8.as_i8(), -56);
    assert_eq!(u128::MAX.as_i128(), -1);
    assert_eq!(0x8000u16.as_i16(), i16::MIN);
    assert_eq!(0xffu32.as_i8(), -1);
    assert_eq!(0x7fu32.as_i8(), 127);
}

#[test]
fn widening_extends() {
    assert_eq!((-1i8).as_i128(), -1);
    assert_eq!((-5i16).as_i64(), -5);
    assert_eq!(255u8.as_i16(), 255);
    assert_eq!(u64::MAX.as_i128(), 18446744073709551615);
    assert_eq!(i32::MIN.as_i64(), -2147483648);
}

#[test]
fn signed_narrowing() {
    assert_eq!(200i32.as_i8(), -56);
    assert_eq!((-129i32).as_i8(), 127);
    assert_eq!(70000i64.as_i16(), 4464);
    assert_eq!(i64::MIN.as_i32(), 0);
}

#[test]
fn pointer_sized() {
    assert_eq!((-1i8).as_usize(), usize::MAX);
    assert_eq!(usize::MAX.as_isize(), -1);
    assert_eq!(7usize.as_u8(), 7);
    assert_eq!(isize::MIN.as_i128(), isize::MIN as i128);
    assert_eq!(300isize.as_u8(), 44);
    assert_eq!(u64::MAX.as_usize() as u64, u64::MAX.as_usize() as u64);
    assert_eq!((usize::MAX as u128).as_usize(), usize::MAX);
}

#[test]
fn identity_conversion() {
    assert_eq!(u8::MAX.as_u8(), u8::MAX);
    assert_eq!(i8::MIN.as_i8(), i8::MIN);
    assert_eq!(u16::MAX.as_u16(), u16::MAX);
    assert_eq!(i16::MIN.as_i16(), i16::MIN);
    assert_eq!(u32::MAX.as_u32(), u32::MAX);
    assert_eq!(i32::MIN.as_i32(), i32::MIN);
    assert_eq!(u64::MAX.as_u64(), u64::MAX);
    assert_eq!(i64::MIN.as_i64(), i64::MIN);
    assert_eq!(u128::MAX.as_u128(), u128::MAX);
    assert_eq!(i128::MIN.as_i128(), i128::MIN);
    assert_eq!(usize::MAX.as_usize(), usize::MAX);
    assert_eq!(isize::MIN.as_isize(), isize::MIN);
    assert_eq!((-7i32).as_::<i32>(), -7);
}

#[test]
fn round_trip_of_representable_values() {
    assert_eq!(100i8.as_u64().as_i8(), 100);
    assert_eq!((-5i16).as_i64().as_i16(), -5);
    assert_eq!(65535u16.as_u32().as_u16(), 65535);
    assert_eq!(127u32.as_i8().as_u32(), 127);
    assert_eq!(i64::MIN.as_i128().as_i64(), i64::MIN);
    assert_eq!(u64::MAX.as_::<u128>().as_::<u64>(), u64::MAX);
}

#[test]
fn generic_dispatch_across_widths() {
    assert_eq!(1i128.as_::<i32>(), 1);
    assert_eq!(1u8.as_::<u64>(), 1);
    assert_eq!(1.as_::<i16>(), 1);
    assert_eq!(i32::cast_from(-1i128), -1);
    assert_eq!(widen_to_i64(-3i8), -3);
    assert_eq!(widen_to_i64(u64::MAX), -1);
    assert_eq!(narrow_back::<u8>(258), 2);
    assert_eq!(narrow_back::<i128>(-9), -9);
}

#[test]
fn it_works() {
    // The float step is the native cast: float targets are not part of the
    // verified library, so the dispatch is checked up to the integer that
    // the cast to `f32` starts from.
    assert_eq!(1.as_::<i32>() as f32, 1.0);
    assert_eq!(1i128.as_::<i128>() as f32, 1.0);
}
