//! Non-zero refinements of the primitive integer types.
//!
//! A non-zero type holds a value of its base kind with the invariant that
//! the value is never zero; [`ToNonZero`] is the checked way in, failing
//! exactly on the zero value.

use vstd::prelude::*;
use vstd::string::StringExecFns;

use crate::convert::{Cfrom, ToNonZero};
use crate::decimal::{dec_int, i128_to_decimal, u128_to_decimal};
use crate::error::Error;
use crate::ops::{error_1, error_1c, error_2, Cadd, Cmul, Cneg};

verus! {

/// A `u8` that is never zero.
#[derive(Clone, Copy, Debug)]
pub struct NonZeroU8 {
    value: u8,
}

impl View for NonZeroU8 {
    type V = u8;

    closed spec fn view(&self) -> u8 {
        self.value
    }
}

impl NonZeroU8 {
    #[verifier::type_invariant]
    spec fn inv(self) -> bool {
        self.value != 0
    }

    /// Wraps a value known not to be zero.
    pub fn new(value: u8) -> (r: Self)
        requires
            value != 0,
        ensures
            r@ == value,
    {
        NonZeroU8 { value }
    }

    /// The value, viewed in its base kind. Never zero.
    pub fn get(self) -> (r: u8)
        ensures
            r == self@,
            r != 0,
    {
        proof {
            use_type_invariant(self);
        }
        self.value
    }
}

impl ToNonZero for u8 {
    type NonZero = NonZeroU8;

    open spec fn is_zero_value(self) -> bool {
        self == 0
    }

    open spec fn base_of(v: NonZeroU8) -> Self {
        v@
    }

    fn to_non_zero(self) -> (r: Result<NonZeroU8, Error>) {
        if self != 0 {
            Ok(NonZeroU8::new(self))
        } else {
            Err(Error::new(String::from_str("unexpected zero value")))
        }
    }
}

/// A `u16` that is never zero.
#[derive(Clone, Copy, Debug)]
pub struct NonZeroU16 {
    value: u16,
}

impl View for NonZeroU16 {
    type V = u16;

    closed spec fn view(&self) -> u16 {
        self.value
    }
}

impl NonZeroU16 {
    #[verifier::type_invariant]
    spec fn inv(self) -> bool {
        self.value != 0
    }

    /// Wraps a value known not to be zero.
    pub fn new(value: u16) -> (r: Self)
        requires
            value != 0,
        ensures
            r@ == value,
    {
        NonZeroU16 { value }
    }

    /// The value, viewed in its base kind. Never zero.
    pub fn get(self) -> (r: u16)
        ensures
            r == self@,
            r != 0,
    {
        proof {
            use_type_invariant(self);
        }
        self.value
    }
}

impl ToNonZero for u16 {
    type NonZero = NonZeroU16;

    open spec fn is_zero_value(self) -> bool {
        self == 0
    }

    open spec fn base_of(v: NonZeroU16) -> Self {
        v@
    }

    fn to_non_zero(self) -> (r: Result<NonZeroU16, Error>) {
        if self != 0 {
            Ok(NonZeroU16::new(self))
        } else {
            Err(Error::new(String::from_str("unexpected zero value")))
        }
    }
}

/// A `u32` that is never zero.
#[derive(Clone, Copy, Debug)]
pub struct NonZeroU32 {
    value: u32,
}

impl View for NonZeroU32 {
    type V = u32;

    closed spec fn view(&self) -> u32 {
        self.value
    }
}

impl NonZeroU32 {
    #[verifier::type_invariant]
    spec fn inv(self) -> bool {
        self.value != 0
    }

    /// Wraps a value known not to be zero.
    pub fn new(value: u32) -> (r: Self)
        requires
            value != 0,
        ensures
            r@ == value,
    {
        NonZeroU32 { value }
    }

    /// The value, viewed in its base kind. Never zero.
    pub fn get(self) -> (r: u32)
        ensures
            r == self@,
            r != 0,
    {
        proof {
            use_type_invariant(self);
        }
        self.value
    }
}

impl ToNonZero for u32 {
    type NonZero = NonZeroU32;

    open spec fn is_zero_value(self) -> bool {
        self == 0
    }

    open spec fn base_of(v: NonZeroU32) -> Self {
        v@
    }

    fn to_non_zero(self) -> (r: Result<NonZeroU32, Error>) {
        if self != 0 {
            Ok(NonZeroU32::new(self))
        } else {
            Err(Error::new(String::from_str("unexpected zero value")))
        }
    }
}

/// A `u64` that is never zero.
#[derive(Clone, Copy, Debug)]
pub struct NonZeroU64 {
    value: u64,
}

impl View for NonZeroU64 {
    type V = u64;

    closed spec fn view(&self) -> u64 {
        self.value
    }
}

impl NonZeroU64 {
    #[verifier::type_invariant]
    spec fn inv(self) -> bool {
        self.value != 0
    }

    /// Wraps a value known not to be zero.
    pub fn new(value: u64) -> (r: Self)
        requires
            value != 0,
        ensures
            r@ == value,
    {
        NonZeroU64 { value }
    }

    /// The value, viewed in its base kind. Never zero.
    pub fn get(self) -> (r: u64)
        ensures
            r == self@,
            r != 0,
    {
        proof {
            use_type_invariant(self);
        }
        self.value
    }
}

impl ToNonZero for u64 {
    type NonZero = NonZeroU64;

    open spec fn is_zero_value(self) -> bool {
        self == 0
    }

    open spec fn base_of(v: NonZeroU64) -> Self {
        v@
    }

    fn to_non_zero(self) -> (r: Result<NonZeroU64, Error>) {
        if self != 0 {
            Ok(NonZeroU64::new(self))
        } else {
            Err(Error::new(String::from_str("unexpected zero value")))
        }
    }
}

/// A `u128` that is never zero.
#[derive(Clone, Copy, Debug)]
pub struct NonZeroU128 {
    value: u128,
}

impl View for NonZeroU128 {
    type V = u128;

    closed spec fn view(&self) -> u128 {
        self.value
    }
}

impl NonZeroU128 {
    #[verifier::type_invariant]
    spec fn inv(self) -> bool {
        self.value != 0
    }

    /// Wraps a value known not to be zero.
    pub fn new(value: u128) -> (r: Self)
        requires
            value != 0,
        ensures
            r@ == value,
    {
        NonZeroU128 { value }
    }

    /// The value, viewed in its base kind. Never zero.
    pub fn get(self) -> (r: u128)
        ensures
            r == self@,
            r != 0,
    {
        proof {
            use_type_invariant(self);
        }
        self.value
    }
}

impl ToNonZero for u128 {
    type NonZero = NonZeroU128;

    open spec fn is_zero_value(self) -> bool {
        self == 0
    }

    open spec fn base_of(v: NonZeroU128) -> Self {
        v@
    }

    fn to_non_zero(self) -> (r: Result<NonZeroU128, Error>) {
        if self != 0 {
            Ok(NonZeroU128::new(self))
        } else {
            Err(Error::new(String::from_str("unexpected zero value")))
        }
    }
}

/// A `i8` that is never zero.
#[derive(Clone, Copy, Debug)]
pub struct NonZeroI8 {
    value: i8,
}

impl View for NonZeroI8 {
    type V = i8;

    closed spec fn view(&self) -> i8 {
        self.value
    }
}

impl NonZeroI8 {
    #[verifier::type_invariant]
    spec fn inv(self) -> bool {
        self.value != 0
    }

    /// Wraps a value known not to be zero.
    pub fn new(value: i8) -> (r: Self)
        requires
            value != 0,
        ensures
            r@ == value,
    {
        NonZeroI8 { value }
    }

    /// The value, viewed in its base kind. Never zero.
    pub fn get(self) -> (r: i8)
        ensures
            r == self@,
            r != 0,
    {
        proof {
            use_type_invariant(self);
        }
        self.value
    }
}

impl ToNonZero for i8 {
    type NonZero = NonZeroI8;

    open spec fn is_zero_value(self) -> bool {
        self == 0
    }

    open spec fn base_of(v: NonZeroI8) -> Self {
        v@
    }

    fn to_non_zero(self) -> (r: Result<NonZeroI8, Error>) {
        if self != 0 {
            Ok(NonZeroI8::new(self))
        } else {
            Err(Error::new(String::from_str("unexpected zero value")))
        }
    }
}

/// A `i16` that is never zero.
#[derive(Clone, Copy, Debug)]
pub struct NonZeroI16 {
    value: i16,
}

impl View for NonZeroI16 {
    type V = i16;

    closed spec fn view(&self) -> i16 {
        self.value
    }
}

impl NonZeroI16 {
    #[verifier::type_invariant]
    spec fn inv(self) -> bool {
        self.value != 0
    }

    /// Wraps a value known not to be zero.
    pub fn new(value: i16) -> (r: Self)
        requires
            value != 0,
        ensures
            r@ == value,
    {
        NonZeroI16 { value }
    }

    /// The value, viewed in its base kind. Never zero.
    pub fn get(self) -> (r: i16)
        ensures
            r == self@,
            r != 0,
    {
        proof {
            use_type_invariant(self);
        }
        self.value
    }
}

impl ToNonZero for i16 {
    type NonZero = NonZeroI16;

    open spec fn is_zero_value(self) -> bool {
        self == 0
    }

    open spec fn base_of(v: NonZeroI16) -> Self {
        v@
    }

    fn to_non_zero(self) -> (r: Result<NonZeroI16, Error>) {
        if self != 0 {
            Ok(NonZeroI16::new(self))
        } else {
            Err(Error::new(String::from_str("unexpected zero value")))
        }
    }
}

/// A `i32` that is never zero.
#[derive(Clone, Copy, Debug)]
pub struct NonZeroI32 {
    value: i32,
}

impl View for NonZeroI32 {
    type V = i32;

    closed spec fn view(&self) -> i32 {
        self.value
    }
}

impl NonZeroI32 {
    #[verifier::type_invariant]
    spec fn inv(self) -> bool {
        self.value != 0
    }

    /// Wraps a value known not to be zero.
    pub fn new(value: i32) -> (r: Self)
        requires
            value != 0,
        ensures
            r@ == value,
    {
        NonZeroI32 { value }
    }

    /// The value, viewed in its base kind. Never zero.
    pub fn get(self) -> (r: i32)
        ensures
            r == self@,
            r != 0,
    {
        proof {
            use_type_invariant(self);
        }
        self.value
    }
}

impl ToNonZero for i32 {
    type NonZero = NonZeroI32;

    open spec fn is_zero_value(self) -> bool {
        self == 0
    }

    open spec fn base_of(v: NonZeroI32) -> Self {
        v@
    }

    fn to_non_zero(self) -> (r: Result<NonZeroI32, Error>) {
        if self != 0 {
            Ok(NonZeroI32::new(self))
        } else {
            Err(Error::new(String::from_str("unexpected zero value")))
        }
    }
}

/// A `i64` that is never zero.
#[derive(Clone, Copy, Debug)]
pub struct NonZeroI64 {
    value: i64,
}

impl View for NonZeroI64 {
    type V = i64;

    closed spec fn view(&self) -> i64 {
        self.value
    }
}

impl NonZeroI64 {
    #[verifier::type_invariant]
    spec fn inv(self) -> bool {
        self.value != 0
    }

    /// Wraps a value known not to be zero.
    pub fn new(value: i64) -> (r: Self)
        requires
            value != 0,
        ensures
            r@ == value,
    {
        NonZeroI64 { value }
    }

    /// The value, viewed in its base kind. Never zero.
    pub fn get(self) -> (r: i64)
        ensures
            r == self@,
            r != 0,
    {
        proof {
            use_type_invariant(self);
        }
        self.value
    }
}

impl ToNonZero for i64 {
    type NonZero = NonZeroI64;

    open spec fn is_zero_value(self) -> bool {
        self == 0
    }

    open spec fn base_of(v: NonZeroI64) -> Self {
        v@
    }

    fn to_non_zero(self) -> (r: Result<NonZeroI64, Error>) {
        if self != 0 {
            Ok(NonZeroI64::new(self))
        } else {
            Err(Error::new(String::from_str("unexpected zero value")))
        }
    }
}

/// A `i128` that is never zero.
#[derive(Clone, Copy, Debug)]
pub struct NonZeroI128 {
    value: i128,
}

impl View for NonZeroI128 {
    type V = i128;

    closed spec fn view(&self) -> i128 {
        self.value
    }
}

impl NonZeroI128 {
    #[verifier::type_invariant]
    spec fn inv(self) -> bool {
        self.value != 0
    }

    /// Wraps a value known not to be zero.
    pub fn new(value: i128) -> (r: Self)
        requires
            value != 0,
        ensures
            r@ == value,
    {
        NonZeroI128 { value }
    }

    /// The value, viewed in its base kind. Never zero.
    pub fn get(self) -> (r: i128)
        ensures
            r == self@,
            r != 0,
    {
        proof {
            use_type_invariant(self);
        }
        self.value
    }
}

impl ToNonZero for i128 {
    type NonZero = NonZeroI128;

    open spec fn is_zero_value(self) -> bool {
        self == 0
    }

    open spec fn base_of(v: NonZeroI128) -> Self {
        v@
    }

    fn to_non_zero(self) -> (r: Result<NonZeroI128, Error>) {
        if self != 0 {
            Ok(NonZeroI128::new(self))
        } else {
            Err(Error::new(String::from_str("unexpected zero value")))
        }
    }
}

/// A `usize` that is never zero.
#[derive(Clone, Copy, Debug)]
pub struct NonZeroUsize {
    value: usize,
}

impl View for NonZeroUsize {
    type V = usize;

    closed spec fn view(&self) -> usize {
        self.value
    }
}

impl NonZeroUsize {
    #[verifier::type_invariant]
    spec fn inv(self) -> bool {
        self.value != 0
    }

    /// Wraps a value known not to be zero.
    pub fn new(value: usize) -> (r: Self)
        requires
            value != 0,
        ensures
            r@ == value,
    {
        NonZeroUsize { value }
    }

    /// The value, viewed in its base kind. Never zero.
    pub fn get(self) -> (r: usize)
        ensures
            r == self@,
            r != 0,
    {
        proof {
            use_type_invariant(self);
        }
        self.value
    }
}

impl ToNonZero for usize {
    type NonZero = NonZeroUsize;

    open spec fn is_zero_value(self) -> bool {
        self == 0
    }

    open spec fn base_of(v: NonZeroUsize) -> Self {
        v@
    }

    fn to_non_zero(self) -> (r: Result<NonZeroUsize, Error>) {
        if self != 0 {
            Ok(NonZeroUsize::new(self))
        } else {
            Err(Error::new(String::from_str("unexpected zero value")))
        }
    }
}

/// A `isize` that is never zero.
#[derive(Clone, Copy, Debug)]
pub struct NonZeroIsize {
    value: isize,
}

impl View for NonZeroIsize {
    type V = isize;

    closed spec fn view(&self) -> isize {
        self.value
    }
}

impl NonZeroIsize {
    #[verifier::type_invariant]
    spec fn inv(self) -> bool {
        self.value != 0
    }

    /// Wraps a value known not to be zero.
    pub fn new(value: isize) -> (r: Self)
        requires
            value != 0,
        ensures
            r@ == value,
    {
        NonZeroIsize { value }
    }

    /// The value, viewed in its base kind. Never zero.
    pub fn get(self) -> (r: isize)
        ensures
            r == self@,
            r != 0,
    {
        proof {
            use_type_invariant(self);
        }
        self.value
    }
}

impl ToNonZero for isize {
    type NonZero = NonZeroIsize;

    open spec fn is_zero_value(self) -> bool {
        self == 0
    }

    open spec fn base_of(v: NonZeroIsize) -> Self {
        v@
    }

    fn to_non_zero(self) -> (r: Result<NonZeroIsize, Error>) {
        if self != 0 {
            Ok(NonZeroIsize::new(self))
        } else {
            Err(Error::new(String::from_str("unexpected zero value")))
        }
    }
}

impl Cadd<u32> for NonZeroU32 {
    type Output = NonZeroU32;

    closed spec fn cadd_in_range(self, b: u32) -> bool {
        self.value + b <= u32::MAX
    }

    closed spec fn cadd_value(self, b: u32) -> NonZeroU32 {
        NonZeroU32 { value: (self.value + b) as u32 }
    }

    open spec fn cadd_message(self, b: u32) -> Seq<char> {
        "overflow: "@ + dec_int(self@ as int) + " + "@ + dec_int(b as int)
    }

    /// Adding a plain value to a non-zero value: the sum of a positive
    /// and a non-negative number stays non-zero.
    fn cadd(self, b: u32) -> (r: Result<NonZeroU32, Error>)
        ensures
            r matches Ok(v) ==> self@ + b <= u32::MAX && v@ == self@ + b,
            r matches Err(e) ==> self@ + b > u32::MAX,
    {
        proof {
            use_type_invariant(self);
        }
        match self.get().checked_add(b) {
            Some(v) => Ok(NonZeroU32::new(v)),
            None => Err(error_2("overflow: ", u128_to_decimal(self.get() as u128), " + ",
                u128_to_decimal(b as u128))),
        }
    }
}

impl Cmul<NonZeroU32> for NonZeroU32 {
    type Output = NonZeroU32;

    closed spec fn cmul_in_range(self, b: NonZeroU32) -> bool {
        self.value * b.value <= u32::MAX
    }

    closed spec fn cmul_value(self, b: NonZeroU32) -> NonZeroU32 {
        NonZeroU32 { value: (self.value * b.value) as u32 }
    }

    open spec fn cmul_message(self, b: NonZeroU32) -> Seq<char> {
        "overflow: "@ + dec_int(self@ as int) + " * "@ + dec_int(b@ as int)
    }

    /// Multiplying two non-zero values: the product of two positive
    /// numbers stays non-zero.
    fn cmul(self, b: NonZeroU32) -> (r: Result<NonZeroU32, Error>)
        ensures
            r matches Ok(v) ==> self@ * b@ <= u32::MAX && v@ == self@ * b@,
            r matches Err(e) ==> self@ * b@ > u32::MAX,
    {
        proof {
            use_type_invariant(self);
            use_type_invariant(b);
        }
        match self.get().checked_mul(b.get()) {
            Some(v) => {
                proof {
                    assert(v != 0) by (nonlinear_arith)
                        requires
                            v == self.value * b.value,
                            self.value >= 1,
                            b.value >= 1,
                    ;
                }
                Ok(NonZeroU32::new(v))
            },
            None => Err(error_2("overflow: ", u128_to_decimal(self.get() as u128), " * ",
                u128_to_decimal(b.get() as u128))),
        }
    }
}

impl Cneg for NonZeroI32 {
    type Output = NonZeroI32;

    closed spec fn cneg_in_range(self) -> bool {
        self.value != i32::MIN
    }

    closed spec fn cneg_value(self) -> NonZeroI32 {
        NonZeroI32 { value: (0 - self.value) as i32 }
    }

    open spec fn cneg_message(self) -> Seq<char> {
        "overflow: -"@ + dec_int(self@ as int)
    }

    /// Negating a non-zero value: the negation of a non-zero number
    /// stays non-zero.
    fn cneg(self) -> (r: Result<NonZeroI32, Error>)
        ensures
            r matches Ok(v) ==> self@ != i32::MIN && v@ == 0 - self@,
            r matches Err(e) ==> self@ == i32::MIN,
    {
        proof {
            use_type_invariant(self);
        }
        if self.get() == i32::MIN {
            Err(error_1("overflow: -", i128_to_decimal(self.get() as i128)))
        } else {
            Ok(NonZeroI32::new(-self.get()))
        }
    }
}

impl Cfrom<NonZeroU32> for NonZeroU8 {
    closed spec fn cfrom_in_bounds(from: NonZeroU32) -> bool {
        from.value <= u8::MAX
    }

    closed spec fn cfrom_value(from: NonZeroU32) -> NonZeroU8 {
        NonZeroU8 { value: from.value as u8 }
    }

    open spec fn cfrom_message(from: NonZeroU32) -> Seq<char> {
        "cannot convert value "@ + dec_int(from@ as int)
            + " from NonZeroU32 to NonZeroU8: value is out of bounds"@
    }

    /// Narrowing a non-zero value never reaches zero, so only the upper
    /// check can fail.
    fn cfrom(from: NonZeroU32) -> (r: Result<NonZeroU8, Error>)
        ensures
            r matches Ok(v) ==> from@ <= u8::MAX && v@ == from@,
            r matches Err(e) ==> from@ > u8::MAX,
    {
        let v = from.get();
        if v <= 255 {
            Ok(NonZeroU8::new(v as u8))
        } else {
            Err(error_1c("cannot convert value ", u128_to_decimal(v as u128),
                " from NonZeroU32 to NonZeroU8: value is out of bounds"))
        }
    }
}

impl Cfrom<NonZeroI32> for NonZeroU32 {
    closed spec fn cfrom_in_bounds(from: NonZeroI32) -> bool {
        from.value > 0
    }

    closed spec fn cfrom_value(from: NonZeroI32) -> NonZeroU32 {
        NonZeroU32 { value: from.value as u32 }
    }

    open spec fn cfrom_message(from: NonZeroI32) -> Seq<char> {
        "cannot convert value "@ + dec_int(from@ as int)
            + " from NonZeroI32 to NonZeroU32: value is out of bounds"@
    }

    /// Signed to unsigned at equal width: only the check for a negative
    /// value can fail, and a non-zero value stays non-zero.
    fn cfrom(from: NonZeroI32) -> (r: Result<NonZeroU32, Error>)
        ensures
            r matches Ok(v) ==> from@ > 0 && v@ == from@,
            r matches Err(e) ==> from@ < 0,
    {
        let v = from.get();
        if v > 0 {
            Ok(NonZeroU32::new(v as u32))
        } else {
            Err(error_1c("cannot convert value ", i128_to_decimal(v as i128),
                " from NonZeroI32 to NonZeroU32: value is out of bounds"))
        }
    }
}

} // verus!
