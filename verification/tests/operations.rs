use cadd::ops::{
    cadd, cdiv, cmul, csub, CILog, CILog10, CILog2, Cabs, Cadd, Cdiv, CdivEuclid, Cmul, Cneg,
    CnextMultipleOf, CnextPowerOfTwo, Cpow, Crem, CremEuclid, Cshl, Cshr, Csub,
};
use cadd::Error;

fn assert_err<T: std::fmt::Debug>(value: Result<T, Error>, expected: &str) {
    let actual = value.expect_err("expected error");
    assert_eq!(actual.message(), expected);
    assert!(actual.backtrace().is_none());
}

#[test]
fn addition() {
    assert_eq!(2u8.cadd(3u8).unwrap(), 5);
    assert_eq!(cadd(2u8, 3u8).unwrap(), 5);
    assert_err(255u8.cadd(1u8), "overflow: 255 + 1");
    assert_eq!(i64::MAX.cadd(0i64).unwrap(), i64::MAX);
    assert_err(i32::MAX.cadd(1i32), "overflow: 2147483647 + 1");
    assert_err(i32::MIN.cadd(-1i32), "overflow: -2147483648 + -1");
}

#[test]
fn mixed_width_addition_and_subtraction() {
    assert_eq!(5u32.cadd(-3i32).unwrap(), 2);
    assert_err(5u32.cadd(-6i32), "overflow: 5 + -6");
    assert_eq!(5i32.cadd(7u32).unwrap(), 12);
    assert_err(i32::MAX.cadd(1u32), "overflow: 2147483647 + 1");
    assert_eq!(5i32.csub(7u32).unwrap(), -2);
    assert_err(i32::MIN.csub(1u32), "overflow: -2147483648 - 1");
}

#[test]
fn subtraction() {
    assert_eq!(5u8.csub(3u8).unwrap(), 2);
    assert_eq!(csub(5u8, 3u8).unwrap(), 2);
    assert_err(100u8.csub(200u8), "overflow: 100 - 200");
    assert_err(i8::MIN.csub(1i8), "overflow: -128 - 1");
}

#[test]
fn multiplication() {
    assert_eq!(6u32.cmul(7u32).unwrap(), 42);
    assert_eq!(cmul(6u32, 7u32).unwrap(), 42);
    assert_err(16u8.cmul(16u8), "overflow: 16 * 16");
    assert_err(i32::MIN.cmul(-1i32), "overflow: -2147483648 * -1");
}

#[test]
fn division_distinguishes_zero_from_overflow() {
    assert_eq!(10u32.cdiv(3u32).unwrap(), 3);
    assert_eq!(cdiv(10u32, 3u32).unwrap(), 3);
    assert_eq!((-7i32).cdiv(2i32).unwrap(), -3);
    assert_err(10u32.cdiv(0u32), "division by zero: 10 / 0");
    assert_err(i32::MIN.cdiv(-1i32), "overflow: -2147483648 / -1");
    assert_err(i32::MIN.cdiv(0i32), "division by zero: -2147483648 / 0");
}

#[test]
fn euclidean_division_and_remainder() {
    assert_eq!((-7i32).cdiv_euclid(2i32).unwrap(), -4);
    assert_eq!((-7i32).crem_euclid(2i32).unwrap(), 1);
    assert_eq!(7u32.cdiv_euclid(2u32).unwrap(), 3);
    assert_eq!(7u64.crem_euclid(4u64).unwrap(), 3);
    assert_err(7i32.cdiv_euclid(0i32), "division by zero: div_euclid(7, 0)");
    assert_err(7i32.crem_euclid(0i32), "division by zero: rem_euclid(7, 0)");
    assert_err(i32::MIN.cdiv_euclid(-1i32), "overflow: div_euclid(-2147483648, -1)");
    assert_err(i32::MIN.crem_euclid(-1i32), "overflow: rem_euclid(-2147483648, -1)");
}

#[test]
fn remainder() {
    assert_eq!((-7i32).crem(2i32).unwrap(), -1);
    assert_eq!(7u32.crem(4u32).unwrap(), 3);
    assert_err(3u8.crem(0u8), "division by zero: 3 % 0");
    assert_err(i64::MIN.crem(-1i64), "overflow: -9223372036854775808 % -1");
}

#[test]
fn negation_and_absolute_value() {
    assert_eq!(0u32.cneg().unwrap(), 0);
    assert_err(5u32.cneg(), "overflow: -5");
    assert_eq!(5i32.cneg().unwrap(), -5);
    assert_eq!((-5i32).cneg().unwrap(), 5);
    assert_err(i32::MIN.cneg(), "overflow: --2147483648");
    assert_eq!((-5i8).cabs().unwrap(), 5);
    assert_eq!(5i64.cabs().unwrap(), 5);
    assert_err(i32::MIN.cabs(), "overflow: abs(-2147483648)");
}

#[test]
fn logarithms() {
    assert_eq!(100u32.cilog(10u32).unwrap(), 2);
    assert_eq!(99u32.cilog(10u32).unwrap(), 1);
    assert_eq!(1u32.cilog(2u32).unwrap(), 0);
    assert_err(5u32.cilog(1u32), "base is less than 2: ilog(5, 1)");
    assert_err(0u32.cilog(10u32), "number is not positive: ilog(0, 10)");
    assert_eq!(8u32.cilog2().unwrap(), 3);
    assert_eq!(7u32.cilog2().unwrap(), 2);
    assert_err(0u32.cilog2(), "number is not positive: ilog2(0)");
    assert_eq!(1000u32.cilog10().unwrap(), 3);
    assert_err(0u32.cilog10(), "number is not positive: ilog10(0)");
}

#[test]
fn shifts() {
    assert_eq!(1u8.cshl(3u32).unwrap(), 8);
    assert_eq!(255u8.cshl(4u32).unwrap(), 240);
    assert_err(1u8.cshl(8u32), "shift amount is too large: 1 << 8");
    assert_eq!(1u32.cshl(31u32).unwrap(), 0x8000_0000);
    assert_err(1u32.cshl(32u32), "shift amount is too large: 1 << 32");
    assert_eq!(255u8.cshr(4u32).unwrap(), 15);
    assert_err(1u64.cshr(64u32), "shift amount is too large: 1 >> 64");
    assert_eq!((-8i32).cshr(1u32).unwrap(), -4);
}

#[test]
fn exponentiation() {
    assert_eq!(2u32.cpow(10u32).unwrap(), 1024);
    assert_eq!(3u32.cpow(0u32).unwrap(), 1);
    assert_eq!(0u32.cpow(0u32).unwrap(), 1);
    assert_eq!(0u32.cpow(5u32).unwrap(), 0);
    assert_eq!(2u8.cpow(7u32).unwrap(), 128);
    assert_err(2u8.cpow(9u32), "overflow: pow(2, 9)");
    assert_err(100000u32.cpow(2u32), "overflow: pow(100000, 2)");
}

#[test]
fn next_multiple() {
    assert_eq!(16u32.cnext_multiple_of(8u32).unwrap(), 16);
    assert_eq!(23u32.cnext_multiple_of(8u32).unwrap(), 24);
    assert_eq!(0u64.cnext_multiple_of(5u64).unwrap(), 0);
    assert_err(23u32.cnext_multiple_of(0u32), "multiplier is zero: next_multiple_of(23, 0)");
    assert_err(
        u32::MAX.cnext_multiple_of(7u32),
        "overflow: next_multiple_of(4294967295, 7)",
    );
}

#[test]
fn next_power_of_two() {
    assert_eq!(0u32.cnext_power_of_two().unwrap(), 1);
    assert_eq!(1u32.cnext_power_of_two().unwrap(), 1);
    assert_eq!(3u32.cnext_power_of_two().unwrap(), 4);
    assert_eq!(5u32.cnext_power_of_two().unwrap(), 8);
    assert_eq!(64u32.cnext_power_of_two().unwrap(), 64);
    assert_eq!(100u8.cnext_power_of_two().unwrap(), 128);
    assert_err(200u8.cnext_power_of_two(), "overflow: next_power_of_two(200)");
    assert_err(
        (u32::MAX - 1).cnext_power_of_two(),
        "overflow: next_power_of_two(4294967294)",
    );
}

#[test]
fn chained_operations() {
    // a small computation written with the free-function and method forms
    fn kinetic_energy(mass: u32, velocity: u32) -> Result<u32, Error> {
        cmul(mass, velocity.cpow(2u32)?)?.cdiv(2u32)
    }
    assert_eq!(kinetic_energy(10, 100).unwrap(), 50000);
    assert_eq!(
        kinetic_energy(10, 100_000).unwrap_err().message(),
        "overflow: pow(100000, 2)"
    );
}

#[test]
fn widest_and_pointer_sized_kinds() {
    assert_err(
        u128::MAX.cadd(1u128),
        "overflow: 340282366920938463463374607431768211455 + 1",
    );
    assert_eq!(3u128.cmul(5u128).unwrap(), 15);
    assert_eq!(5usize.cmul(6usize).unwrap(), 30);
    assert_eq!(7usize.csub(2usize).unwrap(), 5);
    assert_err(0usize.csub(1usize), "overflow: 0 - 1");
    assert_eq!((-7isize).cdiv(2isize).unwrap(), -3);
    assert_err(isize::MIN.crem(-1isize), "overflow: -9223372036854775808 % -1");
    assert_err(1u128.cdiv(0u128), "division by zero: 1 / 0");
    assert_eq!(i128::MIN.cadd(1i128).unwrap(), i128::MIN + 1);
}
