use cadd::array::{array_from_slice, array_from_vec, slice_to_array_error};
use cadd::convert::{Cfrom, ToNonZero};
use cadd::non_zero::{NonZeroU32, NonZeroU8};
use cadd::ops::{Cadd, Cmul, Cneg};
use cadd::text::string_from_utf8;
use cadd::Error;

fn assert_err<T: std::fmt::Debug>(value: Result<T, Error>, expected: &str) {
    let actual = value.expect_err("expected error");
    assert_eq!(actual.message(), expected);
    assert!(actual.backtrace().is_none());
}

#[test]
fn array_from_matching_slice() {
    let a: [u64; 3] = array_from_slice(&[10u64, 20, 30][..]).unwrap();
    assert_eq!(a, [10, 20, 30]);
    let b: [i32; 4] = array_from_vec(&vec![-1i32, 2, -3, 4]).unwrap();
    assert_eq!(b, [-1, 2, -3, 4]);
    let empty: [u8; 0] = array_from_slice(&[][..]).unwrap();
    assert_eq!(empty, []);
}

#[test]
fn array_from_mismatched_slice() {
    let r: Result<[u64; 3], Error> = array_from_slice(&[1u64, 2, 3, 4, 5][..]);
    assert_err(r, "expected slice of length 3, got length 5: [1, 2, 3, 4, 5]");
    let r: Result<[i32; 2], Error> = array_from_vec(&vec![-7i32]);
    assert_err(r, "expected slice of length 2, got length 1: [-7]");
    let r: Result<[u8; 1], Error> = array_from_slice(&[][..]);
    assert_err(r, "expected slice of length 1, got length 0: []");
}

#[test]
fn long_slices_are_elided_in_the_message() {
    let long: Vec<u32> = (0..33).collect();
    let r: Result<[u32; 3], Error> = array_from_vec(&long);
    assert_err(
        r,
        "expected slice of length 3, got length 33: \
         [0, 1, 2, 3, 4, 5, 6, 7, 8, 9, 10, 11, 12, 13, 14, 15, \"...\", \
         17, 18, 19, 20, 21, 22, 23, 24, 25, 26, 27, 28, 29, 30, 31, 32]",
    );
    // exactly at the limit, nothing is elided
    let at_limit: Vec<u8> = (0..32).collect();
    let e = slice_to_array_error(2, &at_limit);
    assert!(e.message().ends_with(
        "[0, 1, 2, 3, 4, 5, 6, 7, 8, 9, 10, 11, 12, 13, 14, 15, \
         16, 17, 18, 19, 20, 21, 22, 23, 24, 25, 26, 27, 28, 29, 30, 31]"
    ));
}

#[test]
fn text_from_bytes() {
    assert_eq!(string_from_utf8(b"hello".to_vec()).unwrap(), "hello");
    assert_eq!(string_from_utf8(Vec::new()).unwrap(), "");
    let err = string_from_utf8(vec![0xff, 0xfe]).unwrap_err();
    assert!(err.message().starts_with("not a utf-8 string: "));
    assert!(err.message().contains("255"));
}

#[test]
fn non_zero_arithmetic() {
    let two = 2u32.to_non_zero().unwrap();
    let three = 3u32.to_non_zero().unwrap();
    assert_eq!(two.cmul(three).unwrap().get(), 6);
    assert_eq!(two.cadd(5u32).unwrap().get(), 7);
    let big = u32::MAX.to_non_zero().unwrap();
    assert_err(big.cadd(1u32), "overflow: 4294967295 + 1");
    assert_err(big.cmul(big), "overflow: 4294967295 * 4294967295");
    let neg = (-5i32).to_non_zero().unwrap();
    assert_eq!(neg.cneg().unwrap().get(), 5);
    let min = i32::MIN.to_non_zero().unwrap();
    assert_err(min.cneg(), "overflow: --2147483648");
}

#[test]
fn non_zero_conversions() {
    let small = NonZeroU8::cfrom(200u32.to_non_zero().unwrap()).unwrap();
    assert_eq!(small.get(), 200);
    assert_err(
        NonZeroU8::cfrom(300u32.to_non_zero().unwrap()),
        "cannot convert value 300 from NonZeroU32 to NonZeroU8: value is out of bounds",
    );
    assert_eq!(NonZeroU32::cfrom(7i32.to_non_zero().unwrap()).unwrap().get(), 7);
    assert_err(
        NonZeroU32::cfrom((-7i32).to_non_zero().unwrap()),
        "cannot convert value -7 from NonZeroI32 to NonZeroU32: value is out of bounds",
    );
}
