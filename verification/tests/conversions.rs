use cadd::convert::{convert_checked, convert_saturating, Cfrom, Cinto, IntoType, SaturatingFrom, SaturatingInto};
use cadd::kind::{classify, Bound, Kind};
use cadd::wide::Wide;
use cadd::Error;

fn assert_err<T: std::fmt::Debug>(value: Result<T, Error>, expected: &str) {
    let actual = value.expect_err("expected error");
    assert_eq!(actual.message(), expected);
    assert!(actual.backtrace().is_none());
}

#[test]
fn checked_conversions_within_range() {
    assert_eq!(u16::cfrom(200u8).unwrap(), 200);
    assert_eq!(u32::cfrom(65535u16).unwrap(), 65535);
    assert_eq!(i16::cfrom(-128i8).unwrap(), -128);
    assert_eq!(u8::cfrom(255u16).unwrap(), 255);
    assert_eq!(i8::cfrom(127i32).unwrap(), 127);
    assert_eq!(i8::cfrom(-128i32).unwrap(), -128);
    assert_eq!(u32::cfrom(0i32).unwrap(), 0);
    assert_eq!(u128::cfrom(i128::MAX).unwrap(), i128::MAX as u128);
    assert_eq!(2i32.cinto_type::<u32>().unwrap(), 2);
    let v: u64 = 7u32.cinto().unwrap();
    assert_eq!(v, 7);
}

#[test]
fn checked_conversions_out_of_range() {
    assert_err(
        u8::cfrom(256u16),
        "cannot convert value 256 from u16 to u8: value is out of bounds",
    );
    assert_err(
        i8::cfrom(128i32),
        "cannot convert value 128 from i32 to i8: value is out of bounds",
    );
    assert_err(
        i8::cfrom(-129i32),
        "cannot convert value -129 from i32 to i8: value is out of bounds",
    );
    assert_err(
        u64::cfrom(-1i64),
        "cannot convert value -1 from i64 to u64: value is out of bounds",
    );
    assert_err(
        i64::cfrom(u64::MAX),
        "cannot convert value 18446744073709551615 from u64 to i64: value is out of bounds",
    );
    assert_err(
        (-5i32).cinto_type::<u32>(),
        "cannot convert value -5 from i32 to u32: value is out of bounds",
    );
}

#[test]
fn round_trips_preserve_the_value() {
    let up = u16::cfrom(200u8).unwrap();
    assert_eq!(u8::cfrom(up).unwrap(), 200);
    let there: i64 = 12345i32.cinto().unwrap();
    assert_eq!(i32::cfrom(there).unwrap(), 12345);
    let wide = u128::cfrom(u64::MAX).unwrap();
    assert_eq!(u64::cfrom(wide).unwrap(), u64::MAX);
}

#[test]
fn saturating_conversions_clamp() {
    assert_eq!(u8::saturating_from(300u32), 255);
    assert_eq!(u8::saturating_from(200u32), 200);
    assert_eq!(u8::saturating_from(-300i32), 0);
    assert_eq!(i8::saturating_from(-300i32), -128);
    assert_eq!(i8::saturating_from(300i32), 127);
    assert_eq!(u16::saturating_from(70000u32), 65535);
    assert_eq!(300u32.saturating_into_type::<u8>(), 255);
    let v: u8 = 300u32.saturating_into();
    assert_eq!(v, 255);
}

#[test]
fn saturating_agrees_with_checked_where_checked_succeeds() {
    for v in [-128i32, -1, 0, 1, 127] {
        assert_eq!(i8::cfrom(v).unwrap(), i8::saturating_from(v));
    }
    for v in [0u32, 1, 200, 255] {
        assert_eq!(u8::cfrom(v).unwrap(), u8::saturating_from(v));
    }
}

#[test]
fn kind_classification() {
    assert_eq!(classify(Kind::of_u8(), Kind::of_u16()), Bound::Unbounded);
    assert_eq!(classify(Kind::of_u8(), Kind::of_i16()), Bound::Unbounded);
    assert_eq!(classify(Kind::of_i32(), Kind::of_u32()), Bound::LowerBounded);
    assert_eq!(classify(Kind::of_i32(), Kind::of_u64()), Bound::LowerBounded);
    assert_eq!(classify(Kind::of_u16(), Kind::of_u8()), Bound::UpperBounded);
    assert_eq!(classify(Kind::of_u8(), Kind::of_i8()), Bound::UpperBounded);
    assert_eq!(classify(Kind::of_i32(), Kind::of_i8()), Bound::BothBounded);
    assert_eq!(classify(Kind::of_i32(), Kind::of_u8()), Bound::BothBounded);
}

#[test]
fn engine_converts_between_pointer_kinds() {
    // a 64-bit platform's usize, converted down to u32
    let src = Kind::of_pointer_unsigned(64);
    let dst = Kind::of_u32();
    let ok = convert_checked(src, dst, Wide::from_u64(4294967295)).unwrap();
    assert_eq!(ok.to_u32(), 4294967295);
    assert_err(
        convert_checked(src, dst, Wide::from_u64(4294967296)),
        "cannot convert value 4294967296 from usize to u32: value is out of bounds",
    );
    assert_err(
        convert_checked(Kind::of_i64(), Kind::of_pointer_unsigned(16), Wide::from_i64(-7)),
        "cannot convert value -7 from i64 to usize: value is out of bounds",
    );
    let clamped = convert_saturating(Kind::of_i64(), Kind::of_pointer_signed(16), Wide::from_i64(99999));
    assert_eq!(clamped.to_i64(), 32767);
}

#[test]
fn into_type_forwards_to_std_conversions() {
    assert_eq!(2u32.into_type::<u64>(), 2);
    assert_eq!(2i32.try_into_type::<u32>().unwrap(), 2);
    assert!((-2i32).try_into_type::<u32>().is_err());
}

#[test]
fn char_conversions() {
    assert_eq!(u8::cfrom('A').unwrap(), 65);
    assert_eq!(u16::cfrom('\u{20AC}').unwrap(), 0x20AC);
    let e = u8::cfrom('\u{20AC}').unwrap_err();
    assert!(e.message().starts_with("cannot convert value "));
    assert!(e.message().ends_with(" from char to u8: value is out of bounds"));
    assert!(e.message().contains('\u{20AC}'));
    assert_eq!(char::cfrom(65u32).unwrap(), 'A');
    assert_eq!(char::cfrom(0x10FFFFu32).unwrap(), '\u{10FFFF}');
    assert_err(
        char::cfrom(0xD800u32),
        "cannot convert value 55296 from u32 to char: value is out of bounds",
    );
    assert_err(
        char::cfrom(0x110000u32),
        "cannot convert value 1114112 from u32 to char: value is out of bounds",
    );
}
