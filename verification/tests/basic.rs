use cadd::convert::{non_zero, IntoType, ToNonZero};
use cadd::ops::Cadd;
use cadd::Error;

fn assert_err<T: std::fmt::Debug>(value: Result<T, Error>, expected: &str) {
    let actual = value.expect_err("expected error");
    assert_eq!(actual.message(), expected);
    assert_eq!(actual.display_string(), expected);
    assert!(actual.backtrace().is_none());
}

#[test]
fn test1() {
    assert_eq!(2u8.cadd(3u8).unwrap(), 5);
    assert_err(200u8.cadd(100u8), "overflow: 200 + 100");
    assert_err(
        (-5i32).cinto_type::<u32>(),
        "cannot convert value -5 from i32 to u32: value is out of bounds",
    );

    let _a = 2u32.to_non_zero().unwrap();
    let _b = non_zero(2u32).unwrap();
    assert_err(0u32.to_non_zero(), "unexpected zero value");
    assert_err(non_zero(0u32), "unexpected zero value");
}

#[test]
fn add_at_the_boundary() {
    assert_err(255u8.cadd(1u8), "overflow: 255 + 1");
    assert_eq!(254u8.cadd(1u8).unwrap(), 255);
    assert_eq!(2u8.cadd(3u8).unwrap(), 5);
}

#[test]
fn non_zero_round_trip() {
    assert_eq!(2u32.to_non_zero().unwrap().get(), 2);
    assert_eq!(7u8.to_non_zero().unwrap().get(), 7);
    assert_eq!((-3i64).to_non_zero().unwrap().get(), -3);
    assert_eq!(u64::MAX.to_non_zero().unwrap().get(), u64::MAX);
    assert_eq!(5usize.to_non_zero().unwrap().get(), 5);
    assert_eq!((-9isize).to_non_zero().unwrap().get(), -9);
    assert_err(0i32.to_non_zero(), "unexpected zero value");
    assert_err(0usize.to_non_zero(), "unexpected zero value");
    assert_err(non_zero(0u8), "unexpected zero value");
}

#[test]
fn error_rendering_with_backtrace() {
    let plain = Error::new(String::from("overflow: 1 + 2"));
    assert_eq!(plain.message(), "overflow: 1 + 2");
    assert_eq!(plain.display_string(), "overflow: 1 + 2");
    assert!(plain.backtrace().is_none());

    let traced = Error::new_with_backtrace(
        String::from("overflow: 1 + 2"),
        String::from("   0: main"),
    );
    assert_eq!(traced.message(), "overflow: 1 + 2");
    assert_eq!(
        traced.display_string(),
        "overflow: 1 + 2\nstack backtrace:\n   0: main"
    );
    assert_eq!(traced.backtrace().as_deref(), Some("   0: main"));
}
