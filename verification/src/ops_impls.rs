//! Implementations of the checked operations for the primitive integer
//! types.
//!
//! Each implementation wraps the corresponding partial primitive (the
//! standard library's `checked_*` function, or an explicit domain test
//! where the primitive is total once the test passed), classifies the
//! failure, and reports it with the operands embedded in the message.

use vstd::prelude::*;

use vstd::arithmetic::div_mod::{
    lemma_div_is_ordered, lemma_div_multiples_vanish, lemma_fundamental_div_mod,
    lemma_multiply_divide_lt,
};
use vstd::arithmetic::logarithm::{lemma_log0, lemma_log_s, log};
use vstd::arithmetic::mul::{lemma_mul_basics, lemma_mul_inequality};
use vstd::arithmetic::power::{
    lemma_pow0, lemma_pow1, lemma_pow_adds, lemma_pow_increases, lemma_pow_positive, pow,
};
use vstd::arithmetic::power2::{lemma2_to64, lemma_pow2, lemma_pow2_pos, lemma_pow2_unfold, pow2};

use crate::decimal::{dec_int, i128_to_decimal, u128_to_decimal};
use crate::error::Error;
use crate::ops::{
    error_1, error_1c, error_2, error_2c, next_multiple_of, next_power_of_two, trunc_div,
    trunc_rem, Cabs, Cadd, Cdiv, CdivEuclid, CILog, CILog2, CILog10, Cmul, Cneg,
    CnextMultipleOf, CnextPowerOfTwo, Cpow, Crem, CremEuclid, Cshl, Cshr, Csub,
};

verus! {

impl Cadd<u8> for u8 {
    type Output = u8;

    open spec fn cadd_in_range(self, b: u8) -> bool {
        self + b <= u8::MAX
    }

    open spec fn cadd_value(self, b: u8) -> u8 {
        (self + b) as u8
    }

    open spec fn cadd_message(self, b: u8) -> Seq<char> {
        "overflow: "@ + dec_int(self as int) + " + "@ + dec_int(b as int)
    }

    fn cadd(self, b: u8) -> (r: Result<u8, Error>) {
        match self.checked_add(b) {
            Some(v) => Ok(v),
            None => Err(error_2("overflow: ", u128_to_decimal(self as u128), " + ", u128_to_decimal(b as u128))),
        }
    }
}

impl Csub<u8> for u8 {
    type Output = u8;

    open spec fn csub_in_range(self, b: u8) -> bool {
        self - b >= 0
    }

    open spec fn csub_value(self, b: u8) -> u8 {
        (self - b) as u8
    }

    open spec fn csub_message(self, b: u8) -> Seq<char> {
        "overflow: "@ + dec_int(self as int) + " - "@ + dec_int(b as int)
    }

    fn csub(self, b: u8) -> (r: Result<u8, Error>) {
        match self.checked_sub(b) {
            Some(v) => Ok(v),
            None => Err(error_2("overflow: ", u128_to_decimal(self as u128), " - ", u128_to_decimal(b as u128))),
        }
    }
}

impl Cmul<u8> for u8 {
    type Output = u8;

    open spec fn cmul_in_range(self, b: u8) -> bool {
        self * b <= u8::MAX
    }

    open spec fn cmul_value(self, b: u8) -> u8 {
        (self * b) as u8
    }

    open spec fn cmul_message(self, b: u8) -> Seq<char> {
        "overflow: "@ + dec_int(self as int) + " * "@ + dec_int(b as int)
    }

    fn cmul(self, b: u8) -> (r: Result<u8, Error>) {
        match self.checked_mul(b) {
            Some(v) => Ok(v),
            None => Err(error_2("overflow: ", u128_to_decimal(self as u128), " * ", u128_to_decimal(b as u128))),
        }
    }
}

impl Cdiv<u8> for u8 {
    type Output = u8;

    open spec fn cdiv_in_range(self, b: u8) -> bool {
        b != 0
    }

    open spec fn cdiv_value(self, b: u8) -> u8 {
        ((self as int) / (b as int)) as u8
    }

    open spec fn cdiv_message(self, b: u8) -> Seq<char> {
        if b == 0 {
            "division by zero: "@ + dec_int(self as int) + " / "@ + dec_int(b as int)
        } else {
            "overflow: "@ + dec_int(self as int) + " / "@ + dec_int(b as int)
        }
    }

    fn cdiv(self, b: u8) -> (r: Result<u8, Error>) {
        match self.checked_div(b) {
            Some(v) => Ok(v),
            None => {
                if b == 0 {
                    Err(error_2("division by zero: ", u128_to_decimal(self as u128), " / ", u128_to_decimal(b as u128)))
                } else {
                    Err(error_2("overflow: ", u128_to_decimal(self as u128), " / ", u128_to_decimal(b as u128)))
                }
            },
        }
    }
}

impl Crem<u8> for u8 {
    type Output = u8;

    open spec fn crem_in_range(self, b: u8) -> bool {
        b != 0
    }

    open spec fn crem_value(self, b: u8) -> u8 {
        ((self as int) % (b as int)) as u8
    }

    open spec fn crem_message(self, b: u8) -> Seq<char> {
        if b == 0 {
            "division by zero: "@ + dec_int(self as int) + " % "@ + dec_int(b as int)
        } else {
            "overflow: "@ + dec_int(self as int) + " % "@ + dec_int(b as int)
        }
    }

    fn crem(self, b: u8) -> (r: Result<u8, Error>) {
        match self.checked_rem(b) {
            Some(v) => Ok(v),
            None => {
                if b == 0 {
                    Err(error_2("division by zero: ", u128_to_decimal(self as u128), " % ", u128_to_decimal(b as u128)))
                } else {
                    Err(error_2("overflow: ", u128_to_decimal(self as u128), " % ", u128_to_decimal(b as u128)))
                }
            },
        }
    }
}

impl Cadd<u16> for u16 {
    type Output = u16;

    open spec fn cadd_in_range(self, b: u16) -> bool {
        self + b <= u16::MAX
    }

    open spec fn cadd_value(self, b: u16) -> u16 {
        (self + b) as u16
    }

    open spec fn cadd_message(self, b: u16) -> Seq<char> {
        "overflow: "@ + dec_int(self as int) + " + "@ + dec_int(b as int)
    }

    fn cadd(self, b: u16) -> (r: Result<u16, Error>) {
        match self.checked_add(b) {
            Some(v) => Ok(v),
            None => Err(error_2("overflow: ", u128_to_decimal(self as u128), " + ", u128_to_decimal(b as u128))),
        }
    }
}

impl Csub<u16> for u16 {
    type Output = u16;

    open spec fn csub_in_range(self, b: u16) -> bool {
        self - b >= 0
    }

    open spec fn csub_value(self, b: u16) -> u16 {
        (self - b) as u16
    }

    open spec fn csub_message(self, b: u16) -> Seq<char> {
        "overflow: "@ + dec_int(self as int) + " - "@ + dec_int(b as int)
    }

    fn csub(self, b: u16) -> (r: Result<u16, Error>) {
        match self.checked_sub(b) {
            Some(v) => Ok(v),
            None => Err(error_2("overflow: ", u128_to_decimal(self as u128), " - ", u128_to_decimal(b as u128))),
        }
    }
}

impl Cmul<u16> for u16 {
    type Output = u16;

    open spec fn cmul_in_range(self, b: u16) -> bool {
        self * b <= u16::MAX
    }

    open spec fn cmul_value(self, b: u16) -> u16 {
        (self * b) as u16
    }

    open spec fn cmul_message(self, b: u16) -> Seq<char> {
        "overflow: "@ + dec_int(self as int) + " * "@ + dec_int(b as int)
    }

    fn cmul(self, b: u16) -> (r: Result<u16, Error>) {
        match self.checked_mul(b) {
            Some(v) => Ok(v),
            None => Err(error_2("overflow: ", u128_to_decimal(self as u128), " * ", u128_to_decimal(b as u128))),
        }
    }
}

impl Cdiv<u16> for u16 {
    type Output = u16;

    open spec fn cdiv_in_range(self, b: u16) -> bool {
        b != 0
    }

    open spec fn cdiv_value(self, b: u16) -> u16 {
        ((self as int) / (b as int)) as u16
    }

    open spec fn cdiv_message(self, b: u16) -> Seq<char> {
        if b == 0 {
            "division by zero: "@ + dec_int(self as int) + " / "@ + dec_int(b as int)
        } else {
            "overflow: "@ + dec_int(self as int) + " / "@ + dec_int(b as int)
        }
    }

    fn cdiv(self, b: u16) -> (r: Result<u16, Error>) {
        match self.checked_div(b) {
            Some(v) => Ok(v),
            None => {
                if b == 0 {
                    Err(error_2("division by zero: ", u128_to_decimal(self as u128), " / ", u128_to_decimal(b as u128)))
                } else {
                    Err(error_2("overflow: ", u128_to_decimal(self as u128), " / ", u128_to_decimal(b as u128)))
                }
            },
        }
    }
}

impl Crem<u16> for u16 {
    type Output = u16;

    open spec fn crem_in_range(self, b: u16) -> bool {
        b != 0
    }

    open spec fn crem_value(self, b: u16) -> u16 {
        ((self as int) % (b as int)) as u16
    }

    open spec fn crem_message(self, b: u16) -> Seq<char> {
        if b == 0 {
            "division by zero: "@ + dec_int(self as int) + " % "@ + dec_int(b as int)
        } else {
            "overflow: "@ + dec_int(self as int) + " % "@ + dec_int(b as int)
        }
    }

    fn crem(self, b: u16) -> (r: Result<u16, Error>) {
        match self.checked_rem(b) {
            Some(v) => Ok(v),
            None => {
                if b == 0 {
                    Err(error_2("division by zero: ", u128_to_decimal(self as u128), " % ", u128_to_decimal(b as u128)))
                } else {
                    Err(error_2("overflow: ", u128_to_decimal(self as u128), " % ", u128_to_decimal(b as u128)))
                }
            },
        }
    }
}

impl Cadd<u32> for u32 {
    type Output = u32;

    open spec fn cadd_in_range(self, b: u32) -> bool {
        self + b <= u32::MAX
    }

    open spec fn cadd_value(self, b: u32) -> u32 {
        (self + b) as u32
    }

    open spec fn cadd_message(self, b: u32) -> Seq<char> {
        "overflow: "@ + dec_int(self as int) + " + "@ + dec_int(b as int)
    }

    fn cadd(self, b: u32) -> (r: Result<u32, Error>) {
        match self.checked_add(b) {
            Some(v) => Ok(v),
            None => Err(error_2("overflow: ", u128_to_decimal(self as u128), " + ", u128_to_decimal(b as u128))),
        }
    }
}

impl Csub<u32> for u32 {
    type Output = u32;

    open spec fn csub_in_range(self, b: u32) -> bool {
        self - b >= 0
    }

    open spec fn csub_value(self, b: u32) -> u32 {
        (self - b) as u32
    }

    open spec fn csub_message(self, b: u32) -> Seq<char> {
        "overflow: "@ + dec_int(self as int) + " - "@ + dec_int(b as int)
    }

    fn csub(self, b: u32) -> (r: Result<u32, Error>) {
        match self.checked_sub(b) {
            Some(v) => Ok(v),
            None => Err(error_2("overflow: ", u128_to_decimal(self as u128), " - ", u128_to_decimal(b as u128))),
        }
    }
}

impl Cmul<u32> for u32 {
    type Output = u32;

    open spec fn cmul_in_range(self, b: u32) -> bool {
        self * b <= u32::MAX
    }

    open spec fn cmul_value(self, b: u32) -> u32 {
        (self * b) as u32
    }

    open spec fn cmul_message(self, b: u32) -> Seq<char> {
        "overflow: "@ + dec_int(self as int) + " * "@ + dec_int(b as int)
    }

    fn cmul(self, b: u32) -> (r: Result<u32, Error>) {
        match self.checked_mul(b) {
            Some(v) => Ok(v),
            None => Err(error_2("overflow: ", u128_to_decimal(self as u128), " * ", u128_to_decimal(b as u128))),
        }
    }
}

impl Cdiv<u32> for u32 {
    type Output = u32;

    open spec fn cdiv_in_range(self, b: u32) -> bool {
        b != 0
    }

    open spec fn cdiv_value(self, b: u32) -> u32 {
        ((self as int) / (b as int)) as u32
    }

    open spec fn cdiv_message(self, b: u32) -> Seq<char> {
        if b == 0 {
            "division by zero: "@ + dec_int(self as int) + " / "@ + dec_int(b as int)
        } else {
            "overflow: "@ + dec_int(self as int) + " / "@ + dec_int(b as int)
        }
    }

    fn cdiv(self, b: u32) -> (r: Result<u32, Error>) {
        match self.checked_div(b) {
            Some(v) => Ok(v),
            None => {
                if b == 0 {
                    Err(error_2("division by zero: ", u128_to_decimal(self as u128), " / ", u128_to_decimal(b as u128)))
                } else {
                    Err(error_2("overflow: ", u128_to_decimal(self as u128), " / ", u128_to_decimal(b as u128)))
                }
            },
        }
    }
}

impl Crem<u32> for u32 {
    type Output = u32;

    open spec fn crem_in_range(self, b: u32) -> bool {
        b != 0
    }

    open spec fn crem_value(self, b: u32) -> u32 {
        ((self as int) % (b as int)) as u32
    }

    open spec fn crem_message(self, b: u32) -> Seq<char> {
        if b == 0 {
            "division by zero: "@ + dec_int(self as int) + " % "@ + dec_int(b as int)
        } else {
            "overflow: "@ + dec_int(self as int) + " % "@ + dec_int(b as int)
        }
    }

    fn crem(self, b: u32) -> (r: Result<u32, Error>) {
        match self.checked_rem(b) {
            Some(v) => Ok(v),
            None => {
                if b == 0 {
                    Err(error_2("division by zero: ", u128_to_decimal(self as u128), " % ", u128_to_decimal(b as u128)))
                } else {
                    Err(error_2("overflow: ", u128_to_decimal(self as u128), " % ", u128_to_decimal(b as u128)))
                }
            },
        }
    }
}

impl Cadd<u64> for u64 {
    type Output = u64;

    open spec fn cadd_in_range(self, b: u64) -> bool {
        self + b <= u64::MAX
    }

    open spec fn cadd_value(self, b: u64) -> u64 {
        (self + b) as u64
    }

    open spec fn cadd_message(self, b: u64) -> Seq<char> {
        "overflow: "@ + dec_int(self as int) + " + "@ + dec_int(b as int)
    }

    fn cadd(self, b: u64) -> (r: Result<u64, Error>) {
        match self.checked_add(b) {
            Some(v) => Ok(v),
            None => Err(error_2("overflow: ", u128_to_decimal(self as u128), " + ", u128_to_decimal(b as u128))),
        }
    }
}

impl Csub<u64> for u64 {
    type Output = u64;

    open spec fn csub_in_range(self, b: u64) -> bool {
        self - b >= 0
    }

    open spec fn csub_value(self, b: u64) -> u64 {
        (self - b) as u64
    }

    open spec fn csub_message(self, b: u64) -> Seq<char> {
        "overflow: "@ + dec_int(self as int) + " - "@ + dec_int(b as int)
    }

    fn csub(self, b: u64) -> (r: Result<u64, Error>) {
        match self.checked_sub(b) {
            Some(v) => Ok(v),
            None => Err(error_2("overflow: ", u128_to_decimal(self as u128), " - ", u128_to_decimal(b as u128))),
        }
    }
}

impl Cmul<u64> for u64 {
    type Output = u64;

    open spec fn cmul_in_range(self, b: u64) -> bool {
        self * b <= u64::MAX
    }

    open spec fn cmul_value(self, b: u64) -> u64 {
        (self * b) as u64
    }

    open spec fn cmul_message(self, b: u64) -> Seq<char> {
        "overflow: "@ + dec_int(self as int) + " * "@ + dec_int(b as int)
    }

    fn cmul(self, b: u64) -> (r: Result<u64, Error>) {
        match self.checked_mul(b) {
            Some(v) => Ok(v),
            None => Err(error_2("overflow: ", u128_to_decimal(self as u128), " * ", u128_to_decimal(b as u128))),
        }
    }
}

impl Cdiv<u64> for u64 {
    type Output = u64;

    open spec fn cdiv_in_range(self, b: u64) -> bool {
        b != 0
    }

    open spec fn cdiv_value(self, b: u64) -> u64 {
        ((self as int) / (b as int)) as u64
    }

    open spec fn cdiv_message(self, b: u64) -> Seq<char> {
        if b == 0 {
            "division by zero: "@ + dec_int(self as int) + " / "@ + dec_int(b as int)
        } else {
            "overflow: "@ + dec_int(self as int) + " / "@ + dec_int(b as int)
        }
    }

    fn cdiv(self, b: u64) -> (r: Result<u64, Error>) {
        match self.checked_div(b) {
            Some(v) => Ok(v),
            None => {
                if b == 0 {
                    Err(error_2("division by zero: ", u128_to_decimal(self as u128), " / ", u128_to_decimal(b as u128)))
                } else {
                    Err(error_2("overflow: ", u128_to_decimal(self as u128), " / ", u128_to_decimal(b as u128)))
                }
            },
        }
    }
}

impl Crem<u64> for u64 {
    type Output = u64;

    open spec fn crem_in_range(self, b: u64) -> bool {
        b != 0
    }

    open spec fn crem_value(self, b: u64) -> u64 {
        ((self as int) % (b as int)) as u64
    }

    open spec fn crem_message(self, b: u64) -> Seq<char> {
        if b == 0 {
            "division by zero: "@ + dec_int(self as int) + " % "@ + dec_int(b as int)
        } else {
            "overflow: "@ + dec_int(self as int) + " % "@ + dec_int(b as int)
        }
    }

    fn crem(self, b: u64) -> (r: Result<u64, Error>) {
        match self.checked_rem(b) {
            Some(v) => Ok(v),
            None => {
                if b == 0 {
                    Err(error_2("division by zero: ", u128_to_decimal(self as u128), " % ", u128_to_decimal(b as u128)))
                } else {
                    Err(error_2("overflow: ", u128_to_decimal(self as u128), " % ", u128_to_decimal(b as u128)))
                }
            },
        }
    }
}

impl Cadd<i8> for i8 {
    type Output = i8;

    open spec fn cadd_in_range(self, b: i8) -> bool {
        i8::MIN <= self + b <= i8::MAX
    }

    open spec fn cadd_value(self, b: i8) -> i8 {
        (self + b) as i8
    }

    open spec fn cadd_message(self, b: i8) -> Seq<char> {
        "overflow: "@ + dec_int(self as int) + " + "@ + dec_int(b as int)
    }

    fn cadd(self, b: i8) -> (r: Result<i8, Error>) {
        match self.checked_add(b) {
            Some(v) => Ok(v),
            None => Err(error_2("overflow: ", i128_to_decimal(self as i128), " + ", i128_to_decimal(b as i128))),
        }
    }
}

impl Csub<i8> for i8 {
    type Output = i8;

    open spec fn csub_in_range(self, b: i8) -> bool {
        i8::MIN <= self - b <= i8::MAX
    }

    open spec fn csub_value(self, b: i8) -> i8 {
        (self - b) as i8
    }

    open spec fn csub_message(self, b: i8) -> Seq<char> {
        "overflow: "@ + dec_int(self as int) + " - "@ + dec_int(b as int)
    }

    fn csub(self, b: i8) -> (r: Result<i8, Error>) {
        match self.checked_sub(b) {
            Some(v) => Ok(v),
            None => Err(error_2("overflow: ", i128_to_decimal(self as i128), " - ", i128_to_decimal(b as i128))),
        }
    }
}

impl Cmul<i8> for i8 {
    type Output = i8;

    open spec fn cmul_in_range(self, b: i8) -> bool {
        i8::MIN <= self * b <= i8::MAX
    }

    open spec fn cmul_value(self, b: i8) -> i8 {
        (self * b) as i8
    }

    open spec fn cmul_message(self, b: i8) -> Seq<char> {
        "overflow: "@ + dec_int(self as int) + " * "@ + dec_int(b as int)
    }

    fn cmul(self, b: i8) -> (r: Result<i8, Error>) {
        match self.checked_mul(b) {
            Some(v) => Ok(v),
            None => Err(error_2("overflow: ", i128_to_decimal(self as i128), " * ", i128_to_decimal(b as i128))),
        }
    }
}

impl Cdiv<i8> for i8 {
    type Output = i8;

    open spec fn cdiv_in_range(self, b: i8) -> bool {
        b != 0 && i8::MIN <= trunc_div(self as int, b as int) <= i8::MAX
    }

    open spec fn cdiv_value(self, b: i8) -> i8 {
        trunc_div(self as int, b as int) as i8
    }

    open spec fn cdiv_message(self, b: i8) -> Seq<char> {
        if b == 0 {
            "division by zero: "@ + dec_int(self as int) + " / "@ + dec_int(b as int)
        } else {
            "overflow: "@ + dec_int(self as int) + " / "@ + dec_int(b as int)
        }
    }

    fn cdiv(self, b: i8) -> (r: Result<i8, Error>) {
        match self.checked_div(b) {
            Some(v) => Ok(v),
            None => {
                if b == 0 {
                    Err(error_2("division by zero: ", i128_to_decimal(self as i128), " / ", i128_to_decimal(b as i128)))
                } else {
                    Err(error_2("overflow: ", i128_to_decimal(self as i128), " / ", i128_to_decimal(b as i128)))
                }
            },
        }
    }
}

impl Crem<i8> for i8 {
    type Output = i8;

    open spec fn crem_in_range(self, b: i8) -> bool {
        b != 0 && !(self == i8::MIN && b == -1) && i8::MIN <= trunc_rem(self as int, b as int) <= i8::MAX
    }

    open spec fn crem_value(self, b: i8) -> i8 {
        trunc_rem(self as int, b as int) as i8
    }

    open spec fn crem_message(self, b: i8) -> Seq<char> {
        if b == 0 {
            "division by zero: "@ + dec_int(self as int) + " % "@ + dec_int(b as int)
        } else {
            "overflow: "@ + dec_int(self as int) + " % "@ + dec_int(b as int)
        }
    }

    fn crem(self, b: i8) -> (r: Result<i8, Error>) {
        match self.checked_rem(b) {
            Some(v) => Ok(v),
            None => {
                if b == 0 {
                    Err(error_2("division by zero: ", i128_to_decimal(self as i128), " % ", i128_to_decimal(b as i128)))
                } else {
                    Err(error_2("overflow: ", i128_to_decimal(self as i128), " % ", i128_to_decimal(b as i128)))
                }
            },
        }
    }
}

impl Cadd<i16> for i16 {
    type Output = i16;

    open spec fn cadd_in_range(self, b: i16) -> bool {
        i16::MIN <= self + b <= i16::MAX
    }

    open spec fn cadd_value(self, b: i16) -> i16 {
        (self + b) as i16
    }

    open spec fn cadd_message(self, b: i16) -> Seq<char> {
        "overflow: "@ + dec_int(self as int) + " + "@ + dec_int(b as int)
    }

    fn cadd(self, b: i16) -> (r: Result<i16, Error>) {
        match self.checked_add(b) {
            Some(v) => Ok(v),
            None => Err(error_2("overflow: ", i128_to_decimal(self as i128), " + ", i128_to_decimal(b as i128))),
        }
    }
}

impl Csub<i16> for i16 {
    type Output = i16;

    open spec fn csub_in_range(self, b: i16) -> bool {
        i16::MIN <= self - b <= i16::MAX
    }

    open spec fn csub_value(self, b: i16) -> i16 {
        (self - b) as i16
    }

    open spec fn csub_message(self, b: i16) -> Seq<char> {
        "overflow: "@ + dec_int(self as int) + " - "@ + dec_int(b as int)
    }

    fn csub(self, b: i16) -> (r: Result<i16, Error>) {
        match self.checked_sub(b) {
            Some(v) => Ok(v),
            None => Err(error_2("overflow: ", i128_to_decimal(self as i128), " - ", i128_to_decimal(b as i128))),
        }
    }
}

impl Cmul<i16> for i16 {
    type Output = i16;

    open spec fn cmul_in_range(self, b: i16) -> bool {
        i16::MIN <= self * b <= i16::MAX
    }

    open spec fn cmul_value(self, b: i16) -> i16 {
        (self * b) as i16
    }

    open spec fn cmul_message(self, b: i16) -> Seq<char> {
        "overflow: "@ + dec_int(self as int) + " * "@ + dec_int(b as int)
    }

    fn cmul(self, b: i16) -> (r: Result<i16, Error>) {
        match self.checked_mul(b) {
            Some(v) => Ok(v),
            None => Err(error_2("overflow: ", i128_to_decimal(self as i128), " * ", i128_to_decimal(b as i128))),
        }
    }
}

impl Cdiv<i16> for i16 {
    type Output = i16;

    open spec fn cdiv_in_range(self, b: i16) -> bool {
        b != 0 && i16::MIN <= trunc_div(self as int, b as int) <= i16::MAX
    }

    open spec fn cdiv_value(self, b: i16) -> i16 {
        trunc_div(self as int, b as int) as i16
    }

    open spec fn cdiv_message(self, b: i16) -> Seq<char> {
        if b == 0 {
            "division by zero: "@ + dec_int(self as int) + " / "@ + dec_int(b as int)
        } else {
            "overflow: "@ + dec_int(self as int) + " / "@ + dec_int(b as int)
        }
    }

    fn cdiv(self, b: i16) -> (r: Result<i16, Error>) {
        match self.checked_div(b) {
            Some(v) => Ok(v),
            None => {
                if b == 0 {
                    Err(error_2("division by zero: ", i128_to_decimal(self as i128), " / ", i128_to_decimal(b as i128)))
                } else {
                    Err(error_2("overflow: ", i128_to_decimal(self as i128), " / ", i128_to_decimal(b as i128)))
                }
            },
        }
    }
}

impl Crem<i16> for i16 {
    type Output = i16;

    open spec fn crem_in_range(self, b: i16) -> bool {
        b != 0 && !(self == i16::MIN && b == -1) && i16::MIN <= trunc_rem(self as int, b as int) <= i16::MAX
    }

    open spec fn crem_value(self, b: i16) -> i16 {
        trunc_rem(self as int, b as int) as i16
    }

    open spec fn crem_message(self, b: i16) -> Seq<char> {
        if b == 0 {
            "division by zero: "@ + dec_int(self as int) + " % "@ + dec_int(b as int)
        } else {
            "overflow: "@ + dec_int(self as int) + " % "@ + dec_int(b as int)
        }
    }

    fn crem(self, b: i16) -> (r: Result<i16, Error>) {
        match self.checked_rem(b) {
            Some(v) => Ok(v),
            None => {
                if b == 0 {
                    Err(error_2("division by zero: ", i128_to_decimal(self as i128), " % ", i128_to_decimal(b as i128)))
                } else {
                    Err(error_2("overflow: ", i128_to_decimal(self as i128), " % ", i128_to_decimal(b as i128)))
                }
            },
        }
    }
}

impl Cadd<i32> for i32 {
    type Output = i32;

    open spec fn cadd_in_range(self, b: i32) -> bool {
        i32::MIN <= self + b <= i32::MAX
    }

    open spec fn cadd_value(self, b: i32) -> i32 {
        (self + b) as i32
    }

    open spec fn cadd_message(self, b: i32) -> Seq<char> {
        "overflow: "@ + dec_int(self as int) + " + "@ + dec_int(b as int)
    }

    fn cadd(self, b: i32) -> (r: Result<i32, Error>) {
        match self.checked_add(b) {
            Some(v) => Ok(v),
            None => Err(error_2("overflow: ", i128_to_decimal(self as i128), " + ", i128_to_decimal(b as i128))),
        }
    }
}

impl Csub<i32> for i32 {
    type Output = i32;

    open spec fn csub_in_range(self, b: i32) -> bool {
        i32::MIN <= self - b <= i32::MAX
    }

    open spec fn csub_value(self, b: i32) -> i32 {
        (self - b) as i32
    }

    open spec fn csub_message(self, b: i32) -> Seq<char> {
        "overflow: "@ + dec_int(self as int) + " - "@ + dec_int(b as int)
    }

    fn csub(self, b: i32) -> (r: Result<i32, Error>) {
        match self.checked_sub(b) {
            Some(v) => Ok(v),
            None => Err(error_2("overflow: ", i128_to_decimal(self as i128), " - ", i128_to_decimal(b as i128))),
        }
    }
}

impl Cmul<i32> for i32 {
    type Output = i32;

    open spec fn cmul_in_range(self, b: i32) -> bool {
        i32::MIN <= self * b <= i32::MAX
    }

    open spec fn cmul_value(self, b: i32) -> i32 {
        (self * b) as i32
    }

    open spec fn cmul_message(self, b: i32) -> Seq<char> {
        "overflow: "@ + dec_int(self as int) + " * "@ + dec_int(b as int)
    }

    fn cmul(self, b: i32) -> (r: Result<i32, Error>) {
        match self.checked_mul(b) {
            Some(v) => Ok(v),
            None => Err(error_2("overflow: ", i128_to_decimal(self as i128), " * ", i128_to_decimal(b as i128))),
        }
    }
}

impl Cdiv<i32> for i32 {
    type Output = i32;

    open spec fn cdiv_in_range(self, b: i32) -> bool {
        b != 0 && i32::MIN <= trunc_div(self as int, b as int) <= i32::MAX
    }

    open spec fn cdiv_value(self, b: i32) -> i32 {
        trunc_div(self as int, b as int) as i32
    }

    open spec fn cdiv_message(self, b: i32) -> Seq<char> {
        if b == 0 {
            "division by zero: "@ + dec_int(self as int) + " / "@ + dec_int(b as int)
        } else {
            "overflow: "@ + dec_int(self as int) + " / "@ + dec_int(b as int)
        }
    }

    fn cdiv(self, b: i32) -> (r: Result<i32, Error>) {
        match self.checked_div(b) {
            Some(v) => Ok(v),
            None => {
                if b == 0 {
                    Err(error_2("division by zero: ", i128_to_decimal(self as i128), " / ", i128_to_decimal(b as i128)))
                } else {
                    Err(error_2("overflow: ", i128_to_decimal(self as i128), " / ", i128_to_decimal(b as i128)))
                }
            },
        }
    }
}

impl Crem<i32> for i32 {
    type Output = i32;

    open spec fn crem_in_range(self, b: i32) -> bool {
        b != 0 && !(self == i32::MIN && b == -1) && i32::MIN <= trunc_rem(self as int, b as int) <= i32::MAX
    }

    open spec fn crem_value(self, b: i32) -> i32 {
        trunc_rem(self as int, b as int) as i32
    }

    open spec fn crem_message(self, b: i32) -> Seq<char> {
        if b == 0 {
            "division by zero: "@ + dec_int(self as int) + " % "@ + dec_int(b as int)
        } else {
            "overflow: "@ + dec_int(self as int) + " % "@ + dec_int(b as int)
        }
    }

    fn crem(self, b: i32) -> (r: Result<i32, Error>) {
        match self.checked_rem(b) {
            Some(v) => Ok(v),
            None => {
                if b == 0 {
                    Err(error_2("division by zero: ", i128_to_decimal(self as i128), " % ", i128_to_decimal(b as i128)))
                } else {
                    Err(error_2("overflow: ", i128_to_decimal(self as i128), " % ", i128_to_decimal(b as i128)))
                }
            },
        }
    }
}

impl Cadd<i64> for i64 {
    type Output = i64;

    open spec fn cadd_in_range(self, b: i64) -> bool {
        i64::MIN <= self + b <= i64::MAX
    }

    open spec fn cadd_value(self, b: i64) -> i64 {
        (self + b) as i64
    }

    open spec fn cadd_message(self, b: i64) -> Seq<char> {
        "overflow: "@ + dec_int(self as int) + " + "@ + dec_int(b as int)
    }

    fn cadd(self, b: i64) -> (r: Result<i64, Error>) {
        match self.checked_add(b) {
            Some(v) => Ok(v),
            None => Err(error_2("overflow: ", i128_to_decimal(self as i128), " + ", i128_to_decimal(b as i128))),
        }
    }
}

impl Csub<i64> for i64 {
    type Output = i64;

    open spec fn csub_in_range(self, b: i64) -> bool {
        i64::MIN <= self - b <= i64::MAX
    }

    open spec fn csub_value(self, b: i64) -> i64 {
        (self - b) as i64
    }

    open spec fn csub_message(self, b: i64) -> Seq<char> {
        "overflow: "@ + dec_int(self as int) + " - "@ + dec_int(b as int)
    }

    fn csub(self, b: i64) -> (r: Result<i64, Error>) {
        match self.checked_sub(b) {
            Some(v) => Ok(v),
            None => Err(error_2("overflow: ", i128_to_decimal(self as i128), " - ", i128_to_decimal(b as i128))),
        }
    }
}

impl Cmul<i64> for i64 {
    type Output = i64;

    open spec fn cmul_in_range(self, b: i64) -> bool {
        i64::MIN <= self * b <= i64::MAX
    }

    open spec fn cmul_value(self, b: i64) -> i64 {
        (self * b) as i64
    }

    open spec fn cmul_message(self, b: i64) -> Seq<char> {
        "overflow: "@ + dec_int(self as int) + " * "@ + dec_int(b as int)
    }

    fn cmul(self, b: i64) -> (r: Result<i64, Error>) {
        match self.checked_mul(b) {
            Some(v) => Ok(v),
            None => Err(error_2("overflow: ", i128_to_decimal(self as i128), " * ", i128_to_decimal(b as i128))),
        }
    }
}

impl Cdiv<i64> for i64 {
    type Output = i64;

    open spec fn cdiv_in_range(self, b: i64) -> bool {
        b != 0 && i64::MIN <= trunc_div(self as int, b as int) <= i64::MAX
    }

    open spec fn cdiv_value(self, b: i64) -> i64 {
        trunc_div(self as int, b as int) as i64
    }

    open spec fn cdiv_message(self, b: i64) -> Seq<char> {
        if b == 0 {
            "division by zero: "@ + dec_int(self as int) + " / "@ + dec_int(b as int)
        } else {
            "overflow: "@ + dec_int(self as int) + " / "@ + dec_int(b as int)
        }
    }

    fn cdiv(self, b: i64) -> (r: Result<i64, Error>) {
        match self.checked_div(b) {
            Some(v) => Ok(v),
            None => {
                if b == 0 {
                    Err(error_2("division by zero: ", i128_to_decimal(self as i128), " / ", i128_to_decimal(b as i128)))
                } else {
                    Err(error_2("overflow: ", i128_to_decimal(self as i128), " / ", i128_to_decimal(b as i128)))
                }
            },
        }
    }
}

impl Crem<i64> for i64 {
    type Output = i64;

    open spec fn crem_in_range(self, b: i64) -> bool {
        b != 0 && !(self == i64::MIN && b == -1) && i64::MIN <= trunc_rem(self as int, b as int) <= i64::MAX
    }

    open spec fn crem_value(self, b: i64) -> i64 {
        trunc_rem(self as int, b as int) as i64
    }

    open spec fn crem_message(self, b: i64) -> Seq<char> {
        if b == 0 {
            "division by zero: "@ + dec_int(self as int) + " % "@ + dec_int(b as int)
        } else {
            "overflow: "@ + dec_int(self as int) + " % "@ + dec_int(b as int)
        }
    }

    fn crem(self, b: i64) -> (r: Result<i64, Error>) {
        match self.checked_rem(b) {
            Some(v) => Ok(v),
            None => {
                if b == 0 {
                    Err(error_2("division by zero: ", i128_to_decimal(self as i128), " % ", i128_to_decimal(b as i128)))
                } else {
                    Err(error_2("overflow: ", i128_to_decimal(self as i128), " % ", i128_to_decimal(b as i128)))
                }
            },
        }
    }
}

impl CdivEuclid<u32> for u32 {
    type Output = u32;

    open spec fn cdiv_euclid_in_range(self, b: u32) -> bool {
        b != 0
    }

    open spec fn cdiv_euclid_value(self, b: u32) -> u32 {
        ((self as int) / (b as int)) as u32
    }

    open spec fn cdiv_euclid_message(self, b: u32) -> Seq<char> {
        if b == 0 {
            "division by zero: div_euclid("@ + dec_int(self as int) + ", "@ + dec_int(b as int) + ")"@
        } else {
            "overflow: div_euclid("@ + dec_int(self as int) + ", "@ + dec_int(b as int) + ")"@
        }
    }

    fn cdiv_euclid(self, b: u32) -> (r: Result<u32, Error>) {
        match self.checked_div_euclid(b) {
            Some(v) => Ok(v),
            None => {
                if b == 0 {
                    Err(error_2c("division by zero: div_euclid(", u128_to_decimal(self as u128), ", ", u128_to_decimal(b as u128), ")"))
                } else {
                    Err(error_2c("overflow: div_euclid(", u128_to_decimal(self as u128), ", ", u128_to_decimal(b as u128), ")"))
                }
            },
        }
    }
}

impl CremEuclid<u32> for u32 {
    type Output = u32;

    open spec fn crem_euclid_in_range(self, b: u32) -> bool {
        b != 0
    }

    open spec fn crem_euclid_value(self, b: u32) -> u32 {
        ((self as int) % (b as int)) as u32
    }

    open spec fn crem_euclid_message(self, b: u32) -> Seq<char> {
        if b == 0 {
            "division by zero: rem_euclid("@ + dec_int(self as int) + ", "@ + dec_int(b as int) + ")"@
        } else {
            "overflow: rem_euclid("@ + dec_int(self as int) + ", "@ + dec_int(b as int) + ")"@
        }
    }

    fn crem_euclid(self, b: u32) -> (r: Result<u32, Error>) {
        match self.checked_rem_euclid(b) {
            Some(v) => Ok(v),
            None => {
                if b == 0 {
                    Err(error_2c("division by zero: rem_euclid(", u128_to_decimal(self as u128), ", ", u128_to_decimal(b as u128), ")"))
                } else {
                    Err(error_2c("overflow: rem_euclid(", u128_to_decimal(self as u128), ", ", u128_to_decimal(b as u128), ")"))
                }
            },
        }
    }
}

impl CdivEuclid<u64> for u64 {
    type Output = u64;

    open spec fn cdiv_euclid_in_range(self, b: u64) -> bool {
        b != 0
    }

    open spec fn cdiv_euclid_value(self, b: u64) -> u64 {
        ((self as int) / (b as int)) as u64
    }

    open spec fn cdiv_euclid_message(self, b: u64) -> Seq<char> {
        if b == 0 {
            "division by zero: div_euclid("@ + dec_int(self as int) + ", "@ + dec_int(b as int) + ")"@
        } else {
            "overflow: div_euclid("@ + dec_int(self as int) + ", "@ + dec_int(b as int) + ")"@
        }
    }

    fn cdiv_euclid(self, b: u64) -> (r: Result<u64, Error>) {
        match self.checked_div_euclid(b) {
            Some(v) => Ok(v),
            None => {
                if b == 0 {
                    Err(error_2c("division by zero: div_euclid(", u128_to_decimal(self as u128), ", ", u128_to_decimal(b as u128), ")"))
                } else {
                    Err(error_2c("overflow: div_euclid(", u128_to_decimal(self as u128), ", ", u128_to_decimal(b as u128), ")"))
                }
            },
        }
    }
}

impl CremEuclid<u64> for u64 {
    type Output = u64;

    open spec fn crem_euclid_in_range(self, b: u64) -> bool {
        b != 0
    }

    open spec fn crem_euclid_value(self, b: u64) -> u64 {
        ((self as int) % (b as int)) as u64
    }

    open spec fn crem_euclid_message(self, b: u64) -> Seq<char> {
        if b == 0 {
            "division by zero: rem_euclid("@ + dec_int(self as int) + ", "@ + dec_int(b as int) + ")"@
        } else {
            "overflow: rem_euclid("@ + dec_int(self as int) + ", "@ + dec_int(b as int) + ")"@
        }
    }

    fn crem_euclid(self, b: u64) -> (r: Result<u64, Error>) {
        match self.checked_rem_euclid(b) {
            Some(v) => Ok(v),
            None => {
                if b == 0 {
                    Err(error_2c("division by zero: rem_euclid(", u128_to_decimal(self as u128), ", ", u128_to_decimal(b as u128), ")"))
                } else {
                    Err(error_2c("overflow: rem_euclid(", u128_to_decimal(self as u128), ", ", u128_to_decimal(b as u128), ")"))
                }
            },
        }
    }
}

impl CdivEuclid<i32> for i32 {
    type Output = i32;

    open spec fn cdiv_euclid_in_range(self, b: i32) -> bool {
        b != 0 && i32::MIN <= (self as int) / (b as int) <= i32::MAX
    }

    open spec fn cdiv_euclid_value(self, b: i32) -> i32 {
        ((self as int) / (b as int)) as i32
    }

    open spec fn cdiv_euclid_message(self, b: i32) -> Seq<char> {
        if b == 0 {
            "division by zero: div_euclid("@ + dec_int(self as int) + ", "@ + dec_int(b as int) + ")"@
        } else {
            "overflow: div_euclid("@ + dec_int(self as int) + ", "@ + dec_int(b as int) + ")"@
        }
    }

    fn cdiv_euclid(self, b: i32) -> (r: Result<i32, Error>) {
        match self.checked_div_euclid(b) {
            Some(v) => Ok(v),
            None => {
                if b == 0 {
                    Err(error_2c("division by zero: div_euclid(", i128_to_decimal(self as i128), ", ", i128_to_decimal(b as i128), ")"))
                } else {
                    Err(error_2c("overflow: div_euclid(", i128_to_decimal(self as i128), ", ", i128_to_decimal(b as i128), ")"))
                }
            },
        }
    }
}

impl CremEuclid<i32> for i32 {
    type Output = i32;

    open spec fn crem_euclid_in_range(self, b: i32) -> bool {
        b != 0 && !(self == i32::MIN && b == -1) && i32::MIN <= (self as int) % (b as int) <= i32::MAX
    }

    open spec fn crem_euclid_value(self, b: i32) -> i32 {
        ((self as int) % (b as int)) as i32
    }

    open spec fn crem_euclid_message(self, b: i32) -> Seq<char> {
        if b == 0 {
            "division by zero: rem_euclid("@ + dec_int(self as int) + ", "@ + dec_int(b as int) + ")"@
        } else {
            "overflow: rem_euclid("@ + dec_int(self as int) + ", "@ + dec_int(b as int) + ")"@
        }
    }

    fn crem_euclid(self, b: i32) -> (r: Result<i32, Error>) {
        match self.checked_rem_euclid(b) {
            Some(v) => Ok(v),
            None => {
                if b == 0 {
                    Err(error_2c("division by zero: rem_euclid(", i128_to_decimal(self as i128), ", ", i128_to_decimal(b as i128), ")"))
                } else {
                    Err(error_2c("overflow: rem_euclid(", i128_to_decimal(self as i128), ", ", i128_to_decimal(b as i128), ")"))
                }
            },
        }
    }
}

impl CdivEuclid<i64> for i64 {
    type Output = i64;

    open spec fn cdiv_euclid_in_range(self, b: i64) -> bool {
        b != 0 && i64::MIN <= (self as int) / (b as int) <= i64::MAX
    }

    open spec fn cdiv_euclid_value(self, b: i64) -> i64 {
        ((self as int) / (b as int)) as i64
    }

    open spec fn cdiv_euclid_message(self, b: i64) -> Seq<char> {
        if b == 0 {
            "division by zero: div_euclid("@ + dec_int(self as int) + ", "@ + dec_int(b as int) + ")"@
        } else {
            "overflow: div_euclid("@ + dec_int(self as int) + ", "@ + dec_int(b as int) + ")"@
        }
    }

    fn cdiv_euclid(self, b: i64) -> (r: Result<i64, Error>) {
        match self.checked_div_euclid(b) {
            Some(v) => Ok(v),
            None => {
                if b == 0 {
                    Err(error_2c("division by zero: div_euclid(", i128_to_decimal(self as i128), ", ", i128_to_decimal(b as i128), ")"))
                } else {
                    Err(error_2c("overflow: div_euclid(", i128_to_decimal(self as i128), ", ", i128_to_decimal(b as i128), ")"))
                }
            },
        }
    }
}

impl CremEuclid<i64> for i64 {
    type Output = i64;

    open spec fn crem_euclid_in_range(self, b: i64) -> bool {
        b != 0 && !(self == i64::MIN && b == -1) && i64::MIN <= (self as int) % (b as int) <= i64::MAX
    }

    open spec fn crem_euclid_value(self, b: i64) -> i64 {
        ((self as int) % (b as int)) as i64
    }

    open spec fn crem_euclid_message(self, b: i64) -> Seq<char> {
        if b == 0 {
            "division by zero: rem_euclid("@ + dec_int(self as int) + ", "@ + dec_int(b as int) + ")"@
        } else {
            "overflow: rem_euclid("@ + dec_int(self as int) + ", "@ + dec_int(b as int) + ")"@
        }
    }

    fn crem_euclid(self, b: i64) -> (r: Result<i64, Error>) {
        match self.checked_rem_euclid(b) {
            Some(v) => Ok(v),
            None => {
                if b == 0 {
                    Err(error_2c("division by zero: rem_euclid(", i128_to_decimal(self as i128), ", ", i128_to_decimal(b as i128), ")"))
                } else {
                    Err(error_2c("overflow: rem_euclid(", i128_to_decimal(self as i128), ", ", i128_to_decimal(b as i128), ")"))
                }
            },
        }
    }
}

impl Cneg for u8 {
    type Output = u8;

    open spec fn cneg_in_range(self) -> bool {
        self == 0
    }

    open spec fn cneg_value(self) -> u8 {
        0
    }

    open spec fn cneg_message(self) -> Seq<char> {
        "overflow: -"@ + dec_int(self as int)
    }

    fn cneg(self) -> (r: Result<u8, Error>) {
        if self == 0 {
            Ok(0)
        } else {
            Err(error_1("overflow: -", u128_to_decimal(self as u128)))
        }
    }
}

impl Cneg for u32 {
    type Output = u32;

    open spec fn cneg_in_range(self) -> bool {
        self == 0
    }

    open spec fn cneg_value(self) -> u32 {
        0
    }

    open spec fn cneg_message(self) -> Seq<char> {
        "overflow: -"@ + dec_int(self as int)
    }

    fn cneg(self) -> (r: Result<u32, Error>) {
        if self == 0 {
            Ok(0)
        } else {
            Err(error_1("overflow: -", u128_to_decimal(self as u128)))
        }
    }
}

impl Cneg for i8 {
    type Output = i8;

    open spec fn cneg_in_range(self) -> bool {
        self != i8::MIN
    }

    open spec fn cneg_value(self) -> i8 {
        (0 - self) as i8
    }

    open spec fn cneg_message(self) -> Seq<char> {
        "overflow: -"@ + dec_int(self as int)
    }

    fn cneg(self) -> (r: Result<i8, Error>) {
        if self == i8::MIN {
            Err(error_1("overflow: -", i128_to_decimal(self as i128)))
        } else {
            Ok(-self)
        }
    }
}

impl Cneg for i32 {
    type Output = i32;

    open spec fn cneg_in_range(self) -> bool {
        self != i32::MIN
    }

    open spec fn cneg_value(self) -> i32 {
        (0 - self) as i32
    }

    open spec fn cneg_message(self) -> Seq<char> {
        "overflow: -"@ + dec_int(self as int)
    }

    fn cneg(self) -> (r: Result<i32, Error>) {
        if self == i32::MIN {
            Err(error_1("overflow: -", i128_to_decimal(self as i128)))
        } else {
            Ok(-self)
        }
    }
}

impl Cneg for i64 {
    type Output = i64;

    open spec fn cneg_in_range(self) -> bool {
        self != i64::MIN
    }

    open spec fn cneg_value(self) -> i64 {
        (0 - self) as i64
    }

    open spec fn cneg_message(self) -> Seq<char> {
        "overflow: -"@ + dec_int(self as int)
    }

    fn cneg(self) -> (r: Result<i64, Error>) {
        if self == i64::MIN {
            Err(error_1("overflow: -", i128_to_decimal(self as i128)))
        } else {
            Ok(-self)
        }
    }
}

impl Cabs for i8 {
    type Output = i8;

    open spec fn cabs_in_range(self) -> bool {
        self != i8::MIN
    }

    open spec fn cabs_value(self) -> i8 {
        (if self < 0 { 0 - self } else { self as int }) as i8
    }

    open spec fn cabs_message(self) -> Seq<char> {
        "overflow: abs("@ + dec_int(self as int) + ")"@
    }

    fn cabs(self) -> (r: Result<i8, Error>) {
        if self == i8::MIN {
            Err(error_1c("overflow: abs(", i128_to_decimal(self as i128), ")"))
        } else if self < 0 {
            Ok(-self)
        } else {
            Ok(self)
        }
    }
}

impl Cabs for i32 {
    type Output = i32;

    open spec fn cabs_in_range(self) -> bool {
        self != i32::MIN
    }

    open spec fn cabs_value(self) -> i32 {
        (if self < 0 { 0 - self } else { self as int }) as i32
    }

    open spec fn cabs_message(self) -> Seq<char> {
        "overflow: abs("@ + dec_int(self as int) + ")"@
    }

    fn cabs(self) -> (r: Result<i32, Error>) {
        if self == i32::MIN {
            Err(error_1c("overflow: abs(", i128_to_decimal(self as i128), ")"))
        } else if self < 0 {
            Ok(-self)
        } else {
            Ok(self)
        }
    }
}

impl Cabs for i64 {
    type Output = i64;

    open spec fn cabs_in_range(self) -> bool {
        self != i64::MIN
    }

    open spec fn cabs_value(self) -> i64 {
        (if self < 0 { 0 - self } else { self as int }) as i64
    }

    open spec fn cabs_message(self) -> Seq<char> {
        "overflow: abs("@ + dec_int(self as int) + ")"@
    }

    fn cabs(self) -> (r: Result<i64, Error>) {
        if self == i64::MIN {
            Err(error_1c("overflow: abs(", i128_to_decimal(self as i128), ")"))
        } else if self < 0 {
            Ok(-self)
        } else {
            Ok(self)
        }
    }
}

impl Cshl<u32> for u8 {
    type Output = u8;

    open spec fn cshl_in_range(self, b: u32) -> bool {
        b < 8
    }

    open spec fn cshl_value(self, b: u32) -> u8 {
        self << (b as u8)
    }

    open spec fn cshl_message(self, b: u32) -> Seq<char> {
        "shift amount is too large: "@ + dec_int(self as int) + " << "@ + dec_int(b as int)
    }

    fn cshl(self, b: u32) -> (r: Result<u8, Error>) {
        if b < 8 {
            Ok(self << (b as u8))
        } else {
            Err(error_2("shift amount is too large: ", u128_to_decimal(self as u128), " << ", u128_to_decimal(b as u128)))
        }
    }
}

impl Cshr<u32> for u8 {
    type Output = u8;

    open spec fn cshr_in_range(self, b: u32) -> bool {
        b < 8
    }

    open spec fn cshr_value(self, b: u32) -> u8 {
        self >> (b as u8)
    }

    open spec fn cshr_message(self, b: u32) -> Seq<char> {
        "shift amount is too large: "@ + dec_int(self as int) + " >> "@ + dec_int(b as int)
    }

    fn cshr(self, b: u32) -> (r: Result<u8, Error>) {
        if b < 8 {
            Ok(self >> (b as u8))
        } else {
            Err(error_2("shift amount is too large: ", u128_to_decimal(self as u128), " >> ", u128_to_decimal(b as u128)))
        }
    }
}

impl Cshl<u32> for u32 {
    type Output = u32;

    open spec fn cshl_in_range(self, b: u32) -> bool {
        b < 32
    }

    open spec fn cshl_value(self, b: u32) -> u32 {
        self << (b as u32)
    }

    open spec fn cshl_message(self, b: u32) -> Seq<char> {
        "shift amount is too large: "@ + dec_int(self as int) + " << "@ + dec_int(b as int)
    }

    fn cshl(self, b: u32) -> (r: Result<u32, Error>) {
        if b < 32 {
            Ok(self << (b as u32))
        } else {
            Err(error_2("shift amount is too large: ", u128_to_decimal(self as u128), " << ", u128_to_decimal(b as u128)))
        }
    }
}

impl Cshr<u32> for u32 {
    type Output = u32;

    open spec fn cshr_in_range(self, b: u32) -> bool {
        b < 32
    }

    open spec fn cshr_value(self, b: u32) -> u32 {
        self >> (b as u32)
    }

    open spec fn cshr_message(self, b: u32) -> Seq<char> {
        "shift amount is too large: "@ + dec_int(self as int) + " >> "@ + dec_int(b as int)
    }

    fn cshr(self, b: u32) -> (r: Result<u32, Error>) {
        if b < 32 {
            Ok(self >> (b as u32))
        } else {
            Err(error_2("shift amount is too large: ", u128_to_decimal(self as u128), " >> ", u128_to_decimal(b as u128)))
        }
    }
}

impl Cshl<u32> for u64 {
    type Output = u64;

    open spec fn cshl_in_range(self, b: u32) -> bool {
        b < 64
    }

    open spec fn cshl_value(self, b: u32) -> u64 {
        self << (b as u64)
    }

    open spec fn cshl_message(self, b: u32) -> Seq<char> {
        "shift amount is too large: "@ + dec_int(self as int) + " << "@ + dec_int(b as int)
    }

    fn cshl(self, b: u32) -> (r: Result<u64, Error>) {
        if b < 64 {
            Ok(self << (b as u64))
        } else {
            Err(error_2("shift amount is too large: ", u128_to_decimal(self as u128), " << ", u128_to_decimal(b as u128)))
        }
    }
}

impl Cshr<u32> for u64 {
    type Output = u64;

    open spec fn cshr_in_range(self, b: u32) -> bool {
        b < 64
    }

    open spec fn cshr_value(self, b: u32) -> u64 {
        self >> (b as u64)
    }

    open spec fn cshr_message(self, b: u32) -> Seq<char> {
        "shift amount is too large: "@ + dec_int(self as int) + " >> "@ + dec_int(b as int)
    }

    fn cshr(self, b: u32) -> (r: Result<u64, Error>) {
        if b < 64 {
            Ok(self >> (b as u64))
        } else {
            Err(error_2("shift amount is too large: ", u128_to_decimal(self as u128), " >> ", u128_to_decimal(b as u128)))
        }
    }
}

impl Cshl<u32> for i32 {
    type Output = i32;

    open spec fn cshl_in_range(self, b: u32) -> bool {
        b < 32
    }

    open spec fn cshl_value(self, b: u32) -> i32 {
        self << (b as i32)
    }

    open spec fn cshl_message(self, b: u32) -> Seq<char> {
        "shift amount is too large: "@ + dec_int(self as int) + " << "@ + dec_int(b as int)
    }

    fn cshl(self, b: u32) -> (r: Result<i32, Error>) {
        if b < 32 {
            Ok(self << (b as i32))
        } else {
            Err(error_2("shift amount is too large: ", i128_to_decimal(self as i128), " << ", u128_to_decimal(b as u128)))
        }
    }
}

impl Cshr<u32> for i32 {
    type Output = i32;

    open spec fn cshr_in_range(self, b: u32) -> bool {
        b < 32
    }

    open spec fn cshr_value(self, b: u32) -> i32 {
        self >> (b as i32)
    }

    open spec fn cshr_message(self, b: u32) -> Seq<char> {
        "shift amount is too large: "@ + dec_int(self as int) + " >> "@ + dec_int(b as int)
    }

    fn cshr(self, b: u32) -> (r: Result<i32, Error>) {
        if b < 32 {
            Ok(self >> (b as i32))
        } else {
            Err(error_2("shift amount is too large: ", i128_to_decimal(self as i128), " >> ", u128_to_decimal(b as u128)))
        }
    }
}

impl Cadd<u128> for u128 {
    type Output = u128;

    open spec fn cadd_in_range(self, b: u128) -> bool {
        self + b <= u128::MAX
    }

    open spec fn cadd_value(self, b: u128) -> u128 {
        (self + b) as u128
    }

    open spec fn cadd_message(self, b: u128) -> Seq<char> {
        "overflow: "@ + dec_int(self as int) + " + "@ + dec_int(b as int)
    }

    fn cadd(self, b: u128) -> (r: Result<u128, Error>) {
        match self.checked_add(b) {
            Some(v) => Ok(v),
            None => Err(error_2("overflow: ", u128_to_decimal(self as u128), " + ", u128_to_decimal(b as u128))),
        }
    }
}

impl Csub<u128> for u128 {
    type Output = u128;

    open spec fn csub_in_range(self, b: u128) -> bool {
        self - b >= 0
    }

    open spec fn csub_value(self, b: u128) -> u128 {
        (self - b) as u128
    }

    open spec fn csub_message(self, b: u128) -> Seq<char> {
        "overflow: "@ + dec_int(self as int) + " - "@ + dec_int(b as int)
    }

    fn csub(self, b: u128) -> (r: Result<u128, Error>) {
        match self.checked_sub(b) {
            Some(v) => Ok(v),
            None => Err(error_2("overflow: ", u128_to_decimal(self as u128), " - ", u128_to_decimal(b as u128))),
        }
    }
}

impl Cmul<u128> for u128 {
    type Output = u128;

    open spec fn cmul_in_range(self, b: u128) -> bool {
        self * b <= u128::MAX
    }

    open spec fn cmul_value(self, b: u128) -> u128 {
        (self * b) as u128
    }

    open spec fn cmul_message(self, b: u128) -> Seq<char> {
        "overflow: "@ + dec_int(self as int) + " * "@ + dec_int(b as int)
    }

    fn cmul(self, b: u128) -> (r: Result<u128, Error>) {
        match self.checked_mul(b) {
            Some(v) => Ok(v),
            None => Err(error_2("overflow: ", u128_to_decimal(self as u128), " * ", u128_to_decimal(b as u128))),
        }
    }
}

impl Cdiv<u128> for u128 {
    type Output = u128;

    open spec fn cdiv_in_range(self, b: u128) -> bool {
        b != 0
    }

    open spec fn cdiv_value(self, b: u128) -> u128 {
        ((self as int) / (b as int)) as u128
    }

    open spec fn cdiv_message(self, b: u128) -> Seq<char> {
        if b == 0 {
            "division by zero: "@ + dec_int(self as int) + " / "@ + dec_int(b as int)
        } else {
            "overflow: "@ + dec_int(self as int) + " / "@ + dec_int(b as int)
        }
    }

    fn cdiv(self, b: u128) -> (r: Result<u128, Error>) {
        match self.checked_div(b) {
            Some(v) => Ok(v),
            None => {
                if b == 0 {
                    Err(error_2("division by zero: ", u128_to_decimal(self as u128), " / ", u128_to_decimal(b as u128)))
                } else {
                    Err(error_2("overflow: ", u128_to_decimal(self as u128), " / ", u128_to_decimal(b as u128)))
                }
            },
        }
    }
}

impl Crem<u128> for u128 {
    type Output = u128;

    open spec fn crem_in_range(self, b: u128) -> bool {
        b != 0
    }

    open spec fn crem_value(self, b: u128) -> u128 {
        ((self as int) % (b as int)) as u128
    }

    open spec fn crem_message(self, b: u128) -> Seq<char> {
        if b == 0 {
            "division by zero: "@ + dec_int(self as int) + " % "@ + dec_int(b as int)
        } else {
            "overflow: "@ + dec_int(self as int) + " % "@ + dec_int(b as int)
        }
    }

    fn crem(self, b: u128) -> (r: Result<u128, Error>) {
        match self.checked_rem(b) {
            Some(v) => Ok(v),
            None => {
                if b == 0 {
                    Err(error_2("division by zero: ", u128_to_decimal(self as u128), " % ", u128_to_decimal(b as u128)))
                } else {
                    Err(error_2("overflow: ", u128_to_decimal(self as u128), " % ", u128_to_decimal(b as u128)))
                }
            },
        }
    }
}

impl Cadd<usize> for usize {
    type Output = usize;

    open spec fn cadd_in_range(self, b: usize) -> bool {
        self + b <= usize::MAX
    }

    open spec fn cadd_value(self, b: usize) -> usize {
        (self + b) as usize
    }

    open spec fn cadd_message(self, b: usize) -> Seq<char> {
        "overflow: "@ + dec_int(self as int) + " + "@ + dec_int(b as int)
    }

    fn cadd(self, b: usize) -> (r: Result<usize, Error>) {
        match self.checked_add(b) {
            Some(v) => Ok(v),
            None => Err(error_2("overflow: ", u128_to_decimal(self as u128), " + ", u128_to_decimal(b as u128))),
        }
    }
}

impl Csub<usize> for usize {
    type Output = usize;

    open spec fn csub_in_range(self, b: usize) -> bool {
        self - b >= 0
    }

    open spec fn csub_value(self, b: usize) -> usize {
        (self - b) as usize
    }

    open spec fn csub_message(self, b: usize) -> Seq<char> {
        "overflow: "@ + dec_int(self as int) + " - "@ + dec_int(b as int)
    }

    fn csub(self, b: usize) -> (r: Result<usize, Error>) {
        match self.checked_sub(b) {
            Some(v) => Ok(v),
            None => Err(error_2("overflow: ", u128_to_decimal(self as u128), " - ", u128_to_decimal(b as u128))),
        }
    }
}

impl Cmul<usize> for usize {
    type Output = usize;

    open spec fn cmul_in_range(self, b: usize) -> bool {
        self * b <= usize::MAX
    }

    open spec fn cmul_value(self, b: usize) -> usize {
        (self * b) as usize
    }

    open spec fn cmul_message(self, b: usize) -> Seq<char> {
        "overflow: "@ + dec_int(self as int) + " * "@ + dec_int(b as int)
    }

    fn cmul(self, b: usize) -> (r: Result<usize, Error>) {
        match self.checked_mul(b) {
            Some(v) => Ok(v),
            None => Err(error_2("overflow: ", u128_to_decimal(self as u128), " * ", u128_to_decimal(b as u128))),
        }
    }
}

impl Cdiv<usize> for usize {
    type Output = usize;

    open spec fn cdiv_in_range(self, b: usize) -> bool {
        b != 0
    }

    open spec fn cdiv_value(self, b: usize) -> usize {
        ((self as int) / (b as int)) as usize
    }

    open spec fn cdiv_message(self, b: usize) -> Seq<char> {
        if b == 0 {
            "division by zero: "@ + dec_int(self as int) + " / "@ + dec_int(b as int)
        } else {
            "overflow: "@ + dec_int(self as int) + " / "@ + dec_int(b as int)
        }
    }

    fn cdiv(self, b: usize) -> (r: Result<usize, Error>) {
        match self.checked_div(b) {
            Some(v) => Ok(v),
            None => {
                if b == 0 {
                    Err(error_2("division by zero: ", u128_to_decimal(self as u128), " / ", u128_to_decimal(b as u128)))
                } else {
                    Err(error_2("overflow: ", u128_to_decimal(self as u128), " / ", u128_to_decimal(b as u128)))
                }
            },
        }
    }
}

impl Crem<usize> for usize {
    type Output = usize;

    open spec fn crem_in_range(self, b: usize) -> bool {
        b != 0
    }

    open spec fn crem_value(self, b: usize) -> usize {
        ((self as int) % (b as int)) as usize
    }

    open spec fn crem_message(self, b: usize) -> Seq<char> {
        if b == 0 {
            "division by zero: "@ + dec_int(self as int) + " % "@ + dec_int(b as int)
        } else {
            "overflow: "@ + dec_int(self as int) + " % "@ + dec_int(b as int)
        }
    }

    fn crem(self, b: usize) -> (r: Result<usize, Error>) {
        match self.checked_rem(b) {
            Some(v) => Ok(v),
            None => {
                if b == 0 {
                    Err(error_2("division by zero: ", u128_to_decimal(self as u128), " % ", u128_to_decimal(b as u128)))
                } else {
                    Err(error_2("overflow: ", u128_to_decimal(self as u128), " % ", u128_to_decimal(b as u128)))
                }
            },
        }
    }
}

impl Cadd<i128> for i128 {
    type Output = i128;

    open spec fn cadd_in_range(self, b: i128) -> bool {
        i128::MIN <= self + b <= i128::MAX
    }

    open spec fn cadd_value(self, b: i128) -> i128 {
        (self + b) as i128
    }

    open spec fn cadd_message(self, b: i128) -> Seq<char> {
        "overflow: "@ + dec_int(self as int) + " + "@ + dec_int(b as int)
    }

    fn cadd(self, b: i128) -> (r: Result<i128, Error>) {
        match self.checked_add(b) {
            Some(v) => Ok(v),
            None => Err(error_2("overflow: ", i128_to_decimal(self as i128), " + ", i128_to_decimal(b as i128))),
        }
    }
}

impl Csub<i128> for i128 {
    type Output = i128;

    open spec fn csub_in_range(self, b: i128) -> bool {
        i128::MIN <= self - b <= i128::MAX
    }

    open spec fn csub_value(self, b: i128) -> i128 {
        (self - b) as i128
    }

    open spec fn csub_message(self, b: i128) -> Seq<char> {
        "overflow: "@ + dec_int(self as int) + " - "@ + dec_int(b as int)
    }

    fn csub(self, b: i128) -> (r: Result<i128, Error>) {
        match self.checked_sub(b) {
            Some(v) => Ok(v),
            None => Err(error_2("overflow: ", i128_to_decimal(self as i128), " - ", i128_to_decimal(b as i128))),
        }
    }
}

impl Cmul<i128> for i128 {
    type Output = i128;

    open spec fn cmul_in_range(self, b: i128) -> bool {
        i128::MIN <= self * b <= i128::MAX
    }

    open spec fn cmul_value(self, b: i128) -> i128 {
        (self * b) as i128
    }

    open spec fn cmul_message(self, b: i128) -> Seq<char> {
        "overflow: "@ + dec_int(self as int) + " * "@ + dec_int(b as int)
    }

    fn cmul(self, b: i128) -> (r: Result<i128, Error>) {
        match self.checked_mul(b) {
            Some(v) => Ok(v),
            None => Err(error_2("overflow: ", i128_to_decimal(self as i128), " * ", i128_to_decimal(b as i128))),
        }
    }
}

impl Cdiv<i128> for i128 {
    type Output = i128;

    open spec fn cdiv_in_range(self, b: i128) -> bool {
        b != 0 && i128::MIN <= trunc_div(self as int, b as int) <= i128::MAX
    }

    open spec fn cdiv_value(self, b: i128) -> i128 {
        trunc_div(self as int, b as int) as i128
    }

    open spec fn cdiv_message(self, b: i128) -> Seq<char> {
        if b == 0 {
            "division by zero: "@ + dec_int(self as int) + " / "@ + dec_int(b as int)
        } else {
            "overflow: "@ + dec_int(self as int) + " / "@ + dec_int(b as int)
        }
    }

    fn cdiv(self, b: i128) -> (r: Result<i128, Error>) {
        match self.checked_div(b) {
            Some(v) => Ok(v),
            None => {
                if b == 0 {
                    Err(error_2("division by zero: ", i128_to_decimal(self as i128), " / ", i128_to_decimal(b as i128)))
                } else {
                    Err(error_2("overflow: ", i128_to_decimal(self as i128), " / ", i128_to_decimal(b as i128)))
                }
            },
        }
    }
}

impl Crem<i128> for i128 {
    type Output = i128;

    open spec fn crem_in_range(self, b: i128) -> bool {
        b != 0 && !(self == i128::MIN && b == -1) && i128::MIN <= trunc_rem(self as int, b as int) <= i128::MAX
    }

    open spec fn crem_value(self, b: i128) -> i128 {
        trunc_rem(self as int, b as int) as i128
    }

    open spec fn crem_message(self, b: i128) -> Seq<char> {
        if b == 0 {
            "division by zero: "@ + dec_int(self as int) + " % "@ + dec_int(b as int)
        } else {
            "overflow: "@ + dec_int(self as int) + " % "@ + dec_int(b as int)
        }
    }

    fn crem(self, b: i128) -> (r: Result<i128, Error>) {
        match self.checked_rem(b) {
            Some(v) => Ok(v),
            None => {
                if b == 0 {
                    Err(error_2("division by zero: ", i128_to_decimal(self as i128), " % ", i128_to_decimal(b as i128)))
                } else {
                    Err(error_2("overflow: ", i128_to_decimal(self as i128), " % ", i128_to_decimal(b as i128)))
                }
            },
        }
    }
}

impl Cadd<isize> for isize {
    type Output = isize;

    open spec fn cadd_in_range(self, b: isize) -> bool {
        isize::MIN <= self + b <= isize::MAX
    }

    open spec fn cadd_value(self, b: isize) -> isize {
        (self + b) as isize
    }

    open spec fn cadd_message(self, b: isize) -> Seq<char> {
        "overflow: "@ + dec_int(self as int) + " + "@ + dec_int(b as int)
    }

    fn cadd(self, b: isize) -> (r: Result<isize, Error>) {
        match self.checked_add(b) {
            Some(v) => Ok(v),
            None => Err(error_2("overflow: ", i128_to_decimal(self as i128), " + ", i128_to_decimal(b as i128))),
        }
    }
}

impl Csub<isize> for isize {
    type Output = isize;

    open spec fn csub_in_range(self, b: isize) -> bool {
        isize::MIN <= self - b <= isize::MAX
    }

    open spec fn csub_value(self, b: isize) -> isize {
        (self - b) as isize
    }

    open spec fn csub_message(self, b: isize) -> Seq<char> {
        "overflow: "@ + dec_int(self as int) + " - "@ + dec_int(b as int)
    }

    fn csub(self, b: isize) -> (r: Result<isize, Error>) {
        match self.checked_sub(b) {
            Some(v) => Ok(v),
            None => Err(error_2("overflow: ", i128_to_decimal(self as i128), " - ", i128_to_decimal(b as i128))),
        }
    }
}

impl Cmul<isize> for isize {
    type Output = isize;

    open spec fn cmul_in_range(self, b: isize) -> bool {
        isize::MIN <= self * b <= isize::MAX
    }

    open spec fn cmul_value(self, b: isize) -> isize {
        (self * b) as isize
    }

    open spec fn cmul_message(self, b: isize) -> Seq<char> {
        "overflow: "@ + dec_int(self as int) + " * "@ + dec_int(b as int)
    }

    fn cmul(self, b: isize) -> (r: Result<isize, Error>) {
        match self.checked_mul(b) {
            Some(v) => Ok(v),
            None => Err(error_2("overflow: ", i128_to_decimal(self as i128), " * ", i128_to_decimal(b as i128))),
        }
    }
}

impl Cdiv<isize> for isize {
    type Output = isize;

    open spec fn cdiv_in_range(self, b: isize) -> bool {
        b != 0 && isize::MIN <= trunc_div(self as int, b as int) <= isize::MAX
    }

    open spec fn cdiv_value(self, b: isize) -> isize {
        trunc_div(self as int, b as int) as isize
    }

    open spec fn cdiv_message(self, b: isize) -> Seq<char> {
        if b == 0 {
            "division by zero: "@ + dec_int(self as int) + " / "@ + dec_int(b as int)
        } else {
            "overflow: "@ + dec_int(self as int) + " / "@ + dec_int(b as int)
        }
    }

    fn cdiv(self, b: isize) -> (r: Result<isize, Error>) {
        match self.checked_div(b) {
            Some(v) => Ok(v),
            None => {
                if b == 0 {
                    Err(error_2("division by zero: ", i128_to_decimal(self as i128), " / ", i128_to_decimal(b as i128)))
                } else {
                    Err(error_2("overflow: ", i128_to_decimal(self as i128), " / ", i128_to_decimal(b as i128)))
                }
            },
        }
    }
}

impl Crem<isize> for isize {
    type Output = isize;

    open spec fn crem_in_range(self, b: isize) -> bool {
        b != 0 && !(self == isize::MIN && b == -1) && isize::MIN <= trunc_rem(self as int, b as int) <= isize::MAX
    }

    open spec fn crem_value(self, b: isize) -> isize {
        trunc_rem(self as int, b as int) as isize
    }

    open spec fn crem_message(self, b: isize) -> Seq<char> {
        if b == 0 {
            "division by zero: "@ + dec_int(self as int) + " % "@ + dec_int(b as int)
        } else {
            "overflow: "@ + dec_int(self as int) + " % "@ + dec_int(b as int)
        }
    }

    fn crem(self, b: isize) -> (r: Result<isize, Error>) {
        match self.checked_rem(b) {
            Some(v) => Ok(v),
            None => {
                if b == 0 {
                    Err(error_2("division by zero: ", i128_to_decimal(self as i128), " % ", i128_to_decimal(b as i128)))
                } else {
                    Err(error_2("overflow: ", i128_to_decimal(self as i128), " % ", i128_to_decimal(b as i128)))
                }
            },
        }
    }
}

proof fn lemma_log_from_bounds(base: int, a: int, l: nat)
    requires
        base >= 2,
        pow(base, l) <= a,
        a < pow(base, l + 1),
    ensures
        log(base, a) == l,
    decreases l,
{
    lemma_pow_positive(base, l);
    if l == 0 {
        lemma_pow1(base);
        lemma_log0(base, a);
    } else {
        lemma_pow_increases(base as nat, 1, l);
        lemma_pow1(base);
        lemma_log_s(base, a);
        lemma_pow_adds(base, (l - 1) as nat, 1);
        lemma_div_is_ordered(pow(base, l), a, base);
        lemma_div_multiples_vanish(pow(base, (l - 1) as nat), base);
        lemma_pow_adds(base, l, 1);
        lemma_multiply_divide_lt(a, base, pow(base, l));
        lemma_log_from_bounds(base, a / base, (l - 1) as nat);
    }
}

/// The largest `l` with `b^l <= a`, found by repeated multiplication.
fn ilog_loop(a: u32, b: u32) -> (l: u32)
    requires
        a >= 1,
        b >= 2,
    ensures
        l as int == log(b as int, a as int),
        pow(b as int, l as nat) <= a < pow(b as int, (l + 1) as nat),
{
    let mut l: u32 = 0;
    let mut acc: u32 = 1;
    proof {
        lemma_pow0(b as int);
        lemma2_to64();
    }
    while acc <= a / b
        invariant
            a >= 1,
            b >= 2,
            l < 32,
            acc as int == pow(b as int, l as nat),
            acc as int >= pow2(l as nat),
            1 <= acc <= a,
        decreases a - acc,
    {
        proof {
            lemma_mul_inequality(acc as int, a as int / b as int, b as int);
            lemma_fundamental_div_mod(a as int, b as int);
            lemma_pow_adds(b as int, l as nat, 1);
            lemma_pow1(b as int);
            lemma_pow2_unfold((l + 1) as nat);
            lemma_mul_inequality(2, b as int, acc as int);
            // the doubled power of two still bounds the next accumulator
            assert(2 * acc as int <= b as int * acc as int) by (nonlinear_arith)
                requires
                    b as int >= 2,
                    acc as int >= 1,
            ;
            if l + 1 >= 32 {
                lemma_pow2(32);
                lemma_pow2((l + 1) as nat);
                lemma_pow_increases(2, 32, (l + 1) as nat);
                lemma2_to64();
                assert(false);
            }
        }
        acc = acc * b;
        l = l + 1;
    }
    proof {
        if a as int >= acc as int * b as int {
            lemma_div_is_ordered(acc as int * b as int, a as int, b as int);
            lemma_div_multiples_vanish(acc as int, b as int);
            assert(false);
        }
        lemma_pow_adds(b as int, l as nat, 1);
        lemma_pow1(b as int);
        lemma_log_from_bounds(b as int, a as int, l as nat);
    }
    l
}

impl CILog<u32> for u32 {
    type Output = u32;

    open spec fn cilog_in_range(self, b: u32) -> bool {
        self >= 1 && b >= 2
    }

    open spec fn cilog_value(self, b: u32) -> u32 {
        log(b as int, self as int) as u32
    }

    open spec fn cilog_message(self, b: u32) -> Seq<char> {
        if b < 2 {
            "base is less than 2: ilog("@ + dec_int(self as int) + ", "@ + dec_int(b as int)
                + ")"@
        } else {
            "number is not positive: ilog("@ + dec_int(self as int) + ", "@ + dec_int(b as int)
                + ")"@
        }
    }

    fn cilog(self, b: u32) -> (r: Result<u32, Error>) {
        if b < 2 {
            Err(error_2c("base is less than 2: ilog(", u128_to_decimal(self as u128), ", ",
                u128_to_decimal(b as u128), ")"))
        } else if self == 0 {
            Err(error_2c("number is not positive: ilog(", u128_to_decimal(self as u128), ", ",
                u128_to_decimal(b as u128), ")"))
        } else {
            Ok(ilog_loop(self, b))
        }
    }
}

impl CILog2 for u32 {
    type Output = u32;

    open spec fn cilog2_in_range(self) -> bool {
        self >= 1
    }

    open spec fn cilog2_value(self) -> u32 {
        log(2, self as int) as u32
    }

    open spec fn cilog2_message(self) -> Seq<char> {
        "number is not positive: ilog2("@ + dec_int(self as int) + ")"@
    }

    fn cilog2(self) -> (r: Result<u32, Error>) {
        if self == 0 {
            Err(error_1c("number is not positive: ilog2(", u128_to_decimal(self as u128), ")"))
        } else {
            Ok(ilog_loop(self, 2))
        }
    }
}

impl CILog10 for u32 {
    type Output = u32;

    open spec fn cilog10_in_range(self) -> bool {
        self >= 1
    }

    open spec fn cilog10_value(self) -> u32 {
        log(10, self as int) as u32
    }

    open spec fn cilog10_message(self) -> Seq<char> {
        "number is not positive: ilog10("@ + dec_int(self as int) + ")"@
    }

    fn cilog10(self) -> (r: Result<u32, Error>) {
        if self == 0 {
            Err(error_1c("number is not positive: ilog10(", u128_to_decimal(self as u128), ")"))
        } else {
            Ok(ilog_loop(self, 10))
        }
    }
}

impl Cpow<u32> for u32 {
    type Output = u32;

    open spec fn cpow_in_range(self, b: u32) -> bool {
        pow(self as int, b as nat) <= u32::MAX
    }

    open spec fn cpow_value(self, b: u32) -> u32 {
        pow(self as int, b as nat) as u32
    }

    open spec fn cpow_message(self, b: u32) -> Seq<char> {
        "overflow: pow("@ + dec_int(self as int) + ", "@ + dec_int(b as int) + ")"@
    }

    fn cpow(self, b: u32) -> (r: Result<u32, Error>) {
        let mut result: u32 = 1;
        let mut i: u32 = 0;
        proof {
            lemma_pow0(self as int);
        }
        while i < b
            invariant
                i <= b,
                result as int == pow(self as int, i as nat),
            decreases b - i,
        {
            match result.checked_mul(self) {
                Some(v) => {
                    proof {
                        lemma_pow_adds(self as int, i as nat, 1);
                        lemma_pow1(self as int);
                    }
                    result = v;
                    i = i + 1;
                },
                None => {
                    proof {
                        lemma_mul_basics(result as int);
                        lemma_pow_adds(self as int, i as nat, 1);
                        lemma_pow1(self as int);
                        lemma_pow_increases(self as nat, (i + 1) as nat, b as nat);
                    }
                    return Err(error_2c("overflow: pow(", u128_to_decimal(self as u128), ", ",
                        u128_to_decimal(b as u128), ")"));
                },
            }
        }
        Ok(result)
    }
}

impl Cpow<u32> for u8 {
    type Output = u8;

    open spec fn cpow_in_range(self, b: u32) -> bool {
        pow(self as int, b as nat) <= u8::MAX
    }

    open spec fn cpow_value(self, b: u32) -> u8 {
        pow(self as int, b as nat) as u8
    }

    open spec fn cpow_message(self, b: u32) -> Seq<char> {
        "overflow: pow("@ + dec_int(self as int) + ", "@ + dec_int(b as int) + ")"@
    }

    fn cpow(self, b: u32) -> (r: Result<u8, Error>) {
        let mut result: u8 = 1;
        let mut i: u32 = 0;
        proof {
            lemma_pow0(self as int);
        }
        while i < b
            invariant
                i <= b,
                result as int == pow(self as int, i as nat),
            decreases b - i,
        {
            match result.checked_mul(self) {
                Some(v) => {
                    proof {
                        lemma_pow_adds(self as int, i as nat, 1);
                        lemma_pow1(self as int);
                    }
                    result = v;
                    i = i + 1;
                },
                None => {
                    proof {
                        lemma_mul_basics(result as int);
                        lemma_pow_adds(self as int, i as nat, 1);
                        lemma_pow1(self as int);
                        lemma_pow_increases(self as nat, (i + 1) as nat, b as nat);
                    }
                    return Err(error_2c("overflow: pow(", u128_to_decimal(self as u128), ", ",
                        u128_to_decimal(b as u128), ")"));
                },
            }
        }
        Ok(result)
    }
}

proof fn lemma_next_pow2_shape(n: nat)
    ensures
        next_power_of_two(n) >= n,
        next_power_of_two(n) >= 1,
        exists|k: nat| next_power_of_two(n) == pow2(k),
    decreases n,
{
    if n <= 1 {
        lemma2_to64();
        assert(next_power_of_two(n) == pow2(0));
    } else {
        lemma_next_pow2_shape((n + 1) / 2);
        let k = choose|k: nat| next_power_of_two((n + 1) / 2) == pow2(k);
        lemma_pow2_unfold(k + 1);
        assert(next_power_of_two(n) == pow2(k + 1));
    }
}

proof fn lemma_next_pow2_from_pow2(n: nat, k: nat)
    requires
        pow2(k) >= n,
        k >= 1 ==> pow2((k - 1) as nat) < n,
    ensures
        next_power_of_two(n) == pow2(k),
    decreases k,
{
    lemma2_to64();
    if k == 0 {
    } else {
        lemma_pow2_unfold(k);
        lemma_pow2_pos((k - 1) as nat);
        if k >= 2 {
            lemma_pow2_unfold((k - 1) as nat);
        }
        lemma_next_pow2_from_pow2((n + 1) / 2, (k - 1) as nat);
    }
}

impl CnextMultipleOf<u32> for u32 {
    type Output = u32;

    open spec fn cnext_multiple_of_in_range(self, b: u32) -> bool {
        b != 0 && next_multiple_of(self as int, b as int) <= u32::MAX
    }

    open spec fn cnext_multiple_of_value(self, b: u32) -> u32 {
        next_multiple_of(self as int, b as int) as u32
    }

    open spec fn cnext_multiple_of_message(self, b: u32) -> Seq<char> {
        if b == 0 {
            "multiplier is zero: next_multiple_of("@ + dec_int(self as int) + ", "@ + dec_int(
                b as int) + ")"@
        } else {
            "overflow: next_multiple_of("@ + dec_int(self as int) + ", "@ + dec_int(b as int)
                + ")"@
        }
    }

    fn cnext_multiple_of(self, b: u32) -> (r: Result<u32, Error>) {
        if b == 0 {
            Err(error_2c("multiplier is zero: next_multiple_of(", u128_to_decimal(self as u128),
                ", ", u128_to_decimal(b as u128), ")"))
        } else {
            let m = self % b;
            if m == 0 {
                Ok(self)
            } else {
                match self.checked_add(b - m) {
                    Some(v) => Ok(v),
                    None => Err(error_2c("overflow: next_multiple_of(", u128_to_decimal(
                        self as u128), ", ", u128_to_decimal(b as u128), ")")),
                }
            }
        }
    }
}

impl CnextMultipleOf<u64> for u64 {
    type Output = u64;

    open spec fn cnext_multiple_of_in_range(self, b: u64) -> bool {
        b != 0 && next_multiple_of(self as int, b as int) <= u64::MAX
    }

    open spec fn cnext_multiple_of_value(self, b: u64) -> u64 {
        next_multiple_of(self as int, b as int) as u64
    }

    open spec fn cnext_multiple_of_message(self, b: u64) -> Seq<char> {
        if b == 0 {
            "multiplier is zero: next_multiple_of("@ + dec_int(self as int) + ", "@ + dec_int(
                b as int) + ")"@
        } else {
            "overflow: next_multiple_of("@ + dec_int(self as int) + ", "@ + dec_int(b as int)
                + ")"@
        }
    }

    fn cnext_multiple_of(self, b: u64) -> (r: Result<u64, Error>) {
        if b == 0 {
            Err(error_2c("multiplier is zero: next_multiple_of(", u128_to_decimal(self as u128),
                ", ", u128_to_decimal(b as u128), ")"))
        } else {
            let m = self % b;
            if m == 0 {
                Ok(self)
            } else {
                match self.checked_add(b - m) {
                    Some(v) => Ok(v),
                    None => Err(error_2c("overflow: next_multiple_of(", u128_to_decimal(
                        self as u128), ", ", u128_to_decimal(b as u128), ")")),
                }
            }
        }
    }
}

impl CnextPowerOfTwo for u32 {
    type Output = u32;

    open spec fn cnext_power_of_two_in_range(self) -> bool {
        next_power_of_two(self as nat) <= u32::MAX
    }

    open spec fn cnext_power_of_two_value(self) -> u32 {
        next_power_of_two(self as nat) as u32
    }

    open spec fn cnext_power_of_two_message(self) -> Seq<char> {
        "overflow: next_power_of_two("@ + dec_int(self as int) + ")"@
    }

    fn cnext_power_of_two(self) -> (r: Result<u32, Error>) {
        let mut p: u32 = 1;
        let ghost mut k: nat = 0;
        proof {
            lemma2_to64();
        }
        while p < self
            invariant
                p >= 1,
                p as int == pow2(k),
                k >= 1 ==> pow2((k - 1) as nat) < self,
            decreases (if p < self { self as int - p } else { 0int }),
        {
            if p > u32::MAX / 2 {
                proof {
                    lemma_next_pow2_shape(self as nat);
                    let m = choose|m: nat| next_power_of_two(self as nat) == pow2(m);
                    if m <= k {
                        lemma_pow2(m);
                        lemma_pow2(k);
                        lemma_pow_increases(2, m, k);
                        assert(false);
                    }
                    lemma_pow2(m);
                    lemma_pow2(k + 1);
                    lemma_pow_increases(2, k + 1, m);
                    lemma_pow2_unfold(k + 1);
                }
                return Err(error_1c("overflow: next_power_of_two(", u128_to_decimal(
                    self as u128), ")"));
            }
            proof {
                lemma_pow2_unfold(k + 1);
                k = k + 1;
            }
            p = p * 2;
        }
        proof {
            lemma_next_pow2_from_pow2(self as nat, k);
        }
        Ok(p)
    }
}

impl CnextPowerOfTwo for u8 {
    type Output = u8;

    open spec fn cnext_power_of_two_in_range(self) -> bool {
        next_power_of_two(self as nat) <= u8::MAX
    }

    open spec fn cnext_power_of_two_value(self) -> u8 {
        next_power_of_two(self as nat) as u8
    }

    open spec fn cnext_power_of_two_message(self) -> Seq<char> {
        "overflow: next_power_of_two("@ + dec_int(self as int) + ")"@
    }

    fn cnext_power_of_two(self) -> (r: Result<u8, Error>) {
        let mut p: u8 = 1;
        let ghost mut k: nat = 0;
        proof {
            lemma2_to64();
        }
        while p < self
            invariant
                p >= 1,
                p as int == pow2(k),
                k >= 1 ==> pow2((k - 1) as nat) < self,
            decreases (if p < self { self as int - p } else { 0int }),
        {
            if p > u8::MAX / 2 {
                proof {
                    lemma_next_pow2_shape(self as nat);
                    let m = choose|m: nat| next_power_of_two(self as nat) == pow2(m);
                    if m <= k {
                        lemma_pow2(m);
                        lemma_pow2(k);
                        lemma_pow_increases(2, m, k);
                        assert(false);
                    }
                    lemma_pow2(m);
                    lemma_pow2(k + 1);
                    lemma_pow_increases(2, k + 1, m);
                    lemma_pow2_unfold(k + 1);
                }
                return Err(error_1c("overflow: next_power_of_two(", u128_to_decimal(
                    self as u128), ")"));
            }
            proof {
                lemma_pow2_unfold(k + 1);
                k = k + 1;
            }
            p = p * 2;
        }
        proof {
            lemma_next_pow2_from_pow2(self as nat, k);
        }
        Ok(p)
    }
}

impl Cadd<i32> for u32 {
    type Output = u32;

    open spec fn cadd_in_range(self, b: i32) -> bool {
        0 <= self + b <= u32::MAX
    }

    open spec fn cadd_value(self, b: i32) -> u32 {
        (self + b) as u32
    }

    open spec fn cadd_message(self, b: i32) -> Seq<char> {
        "overflow: "@ + dec_int(self as int) + " + "@ + dec_int(b as int)
    }

    fn cadd(self, b: i32) -> (r: Result<u32, Error>) {
        match self.checked_add_signed(b) {
            Some(v) => Ok(v),
            None => Err(error_2("overflow: ", u128_to_decimal(self as u128), " + ",
                i128_to_decimal(b as i128))),
        }
    }
}

impl Cadd<u32> for i32 {
    type Output = i32;

    open spec fn cadd_in_range(self, b: u32) -> bool {
        self + b <= i32::MAX
    }

    open spec fn cadd_value(self, b: u32) -> i32 {
        (self + b) as i32
    }

    open spec fn cadd_message(self, b: u32) -> Seq<char> {
        "overflow: "@ + dec_int(self as int) + " + "@ + dec_int(b as int)
    }

    fn cadd(self, b: u32) -> (r: Result<i32, Error>) {
        match self.checked_add_unsigned(b) {
            Some(v) => Ok(v),
            None => Err(error_2("overflow: ", i128_to_decimal(self as i128), " + ",
                u128_to_decimal(b as u128))),
        }
    }
}

impl Csub<u32> for i32 {
    type Output = i32;

    open spec fn csub_in_range(self, b: u32) -> bool {
        self - b >= i32::MIN
    }

    open spec fn csub_value(self, b: u32) -> i32 {
        (self - b) as i32
    }

    open spec fn csub_message(self, b: u32) -> Seq<char> {
        "overflow: "@ + dec_int(self as int) + " - "@ + dec_int(b as int)
    }

    fn csub(self, b: u32) -> (r: Result<i32, Error>) {
        match self.checked_sub_unsigned(b) {
            Some(v) => Ok(v),
            None => Err(error_2("overflow: ", i128_to_decimal(self as i128), " - ",
                u128_to_decimal(b as u128))),
        }
    }
}

} // verus!
