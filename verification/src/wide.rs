//! A value domain wide enough to hold every fixed-width integer kind.
//!
//! A [`Wide`] value is a sign and a magnitude; it represents every integer
//! from `-(2^127)` through `2^128 - 1`, so the extremes of both the source
//! and the target kind of any conversion fit in it.

use vstd::prelude::*;

use crate::decimal::{dec_int, push_decimal_u128};
use vstd::string::StringExecFns;

verus! {

/// A sign-magnitude integer covering the ranges of all supported kinds.
#[derive(Clone, Copy, PartialEq, Eq, Structural, Debug)]
pub struct Wide {
    pub neg: bool,
    pub mag: u128,
}

impl View for Wide {
    type V = int;

    open spec fn view(&self) -> int {
        if self.neg {
            -(self.mag as int)
        } else {
            self.mag as int
        }
    }
}

impl Wide {
    /// A well-formed value never writes zero with the negative sign, so
    /// every integer has one representation.
    pub open spec fn wf(self) -> bool {
        self.neg ==> self.mag > 0
    }

    /// The value zero.
    pub fn zero() -> (r: Wide)
        ensures
            r.wf(),
            r@ == 0,
    {
        Wide { neg: false, mag: 0 }
    }

    /// Whether `self` is strictly below `other`.
    pub fn lt(self, other: Wide) -> (r: bool)
        requires
            self.wf(),
            other.wf(),
        ensures
            r == (self@ < other@),
    {
        if self.neg && !other.neg {
            true
        } else if !self.neg && other.neg {
            false
        } else if !self.neg && !other.neg {
            self.mag < other.mag
        } else {
            self.mag > other.mag
        }
    }

    /// Whether `self` is negative.
    pub fn is_negative(self) -> (r: bool)
        requires
            self.wf(),
        ensures
            r == (self@ < 0),
    {
        self.neg
    }

    /// Appends the decimal rendering of the value to `out`.
    pub fn push_decimal(self, out: &mut String)
        requires
            self.wf(),
        ensures
            final(out)@ == old(out)@ + dec_int(self@),
    {
        let ghost prefix = out@;
        if self.neg {
            out.append("-");
            proof {
                reveal_strlit("-");
            }
        }
        push_decimal_u128(self.mag, out);
        proof {
            assert(out@ =~= prefix + dec_int(self@));
        }
    }

    /// Reads a `u8` into the wide domain.
    pub fn from_u8(v: u8) -> (r: Wide)
        ensures
            r.wf(),
            r@ == v as int,
    {
        Wide { neg: false, mag: v as u128 }
    }

    /// Reads a `u16` into the wide domain.
    pub fn from_u16(v: u16) -> (r: Wide)
        ensures
            r.wf(),
            r@ == v as int,
    {
        Wide { neg: false, mag: v as u128 }
    }

    /// Reads a `u32` into the wide domain.
    pub fn from_u32(v: u32) -> (r: Wide)
        ensures
            r.wf(),
            r@ == v as int,
    {
        Wide { neg: false, mag: v as u128 }
    }

    /// Reads a `u64` into the wide domain.
    pub fn from_u64(v: u64) -> (r: Wide)
        ensures
            r.wf(),
            r@ == v as int,
    {
        Wide { neg: false, mag: v as u128 }
    }

    /// Reads a `u128` into the wide domain.
    pub fn from_u128(v: u128) -> (r: Wide)
        ensures
            r.wf(),
            r@ == v as int,
    {
        Wide { neg: false, mag: v }
    }

    /// Reads a `usize` into the wide domain.
    pub fn from_usize(v: usize) -> (r: Wide)
        ensures
            r.wf(),
            r@ == v as int,
    {
        Wide { neg: false, mag: v as u128 }
    }

    /// Reads an `i8` into the wide domain.
    pub fn from_i8(v: i8) -> (r: Wide)
        ensures
            r.wf(),
            r@ == v as int,
    {
        Wide::from_i128(v as i128)
    }

    /// Reads an `i16` into the wide domain.
    pub fn from_i16(v: i16) -> (r: Wide)
        ensures
            r.wf(),
            r@ == v as int,
    {
        Wide::from_i128(v as i128)
    }

    /// Reads an `i32` into the wide domain.
    pub fn from_i32(v: i32) -> (r: Wide)
        ensures
            r.wf(),
            r@ == v as int,
    {
        Wide::from_i128(v as i128)
    }

    /// Reads an `i64` into the wide domain.
    pub fn from_i64(v: i64) -> (r: Wide)
        ensures
            r.wf(),
            r@ == v as int,
    {
        Wide::from_i128(v as i128)
    }

    /// Reads an `isize` into the wide domain.
    pub fn from_isize(v: isize) -> (r: Wide)
        ensures
            r.wf(),
            r@ == v as int,
    {
        Wide::from_i128(v as i128)
    }

    /// Reads an `i128` into the wide domain.
    pub fn from_i128(v: i128) -> (r: Wide)
        ensures
            r.wf(),
            r@ == v as int,
    {
        if v < 0 {
            let mag: u128 = ((-(v + 1)) as u128) + 1;
            Wide { neg: true, mag }
        } else {
            Wide { neg: false, mag: v as u128 }
        }
    }

    /// Writes the value back as a `u8`.
    pub fn to_u8(self) -> (r: u8)
        requires
            self.wf(),
            0 <= self@ <= u8::MAX,
        ensures
            r as int == self@,
    {
        self.mag as u8
    }

    /// Writes the value back as a `u16`.
    pub fn to_u16(self) -> (r: u16)
        requires
            self.wf(),
            0 <= self@ <= u16::MAX,
        ensures
            r as int == self@,
    {
        self.mag as u16
    }

    /// Writes the value back as a `u32`.
    pub fn to_u32(self) -> (r: u32)
        requires
            self.wf(),
            0 <= self@ <= u32::MAX,
        ensures
            r as int == self@,
    {
        self.mag as u32
    }

    /// Writes the value back as a `u64`.
    pub fn to_u64(self) -> (r: u64)
        requires
            self.wf(),
            0 <= self@ <= u64::MAX,
        ensures
            r as int == self@,
    {
        self.mag as u64
    }

    /// Writes the value back as a `u128`.
    pub fn to_u128(self) -> (r: u128)
        requires
            self.wf(),
            0 <= self@ <= u128::MAX,
        ensures
            r as int == self@,
    {
        self.mag
    }

    /// Writes the value back as a `usize`.
    pub fn to_usize(self) -> (r: usize)
        requires
            self.wf(),
            0 <= self@ <= usize::MAX,
        ensures
            r as int == self@,
    {
        self.mag as usize
    }

    /// Writes the value back as an `i8`.
    pub fn to_i8(self) -> (r: i8)
        requires
            self.wf(),
            i8::MIN <= self@ <= i8::MAX,
        ensures
            r as int == self@,
    {
        self.to_i128() as i8
    }

    /// Writes the value back as an `i16`.
    pub fn to_i16(self) -> (r: i16)
        requires
            self.wf(),
            i16::MIN <= self@ <= i16::MAX,
        ensures
            r as int == self@,
    {
        self.to_i128() as i16
    }

    /// Writes the value back as an `i32`.
    pub fn to_i32(self) -> (r: i32)
        requires
            self.wf(),
            i32::MIN <= self@ <= i32::MAX,
        ensures
            r as int == self@,
    {
        self.to_i128() as i32
    }

    /// Writes the value back as an `i64`.
    pub fn to_i64(self) -> (r: i64)
        requires
            self.wf(),
            i64::MIN <= self@ <= i64::MAX,
        ensures
            r as int == self@,
    {
        self.to_i128() as i64
    }

    /// Writes the value back as an `isize`.
    pub fn to_isize(self) -> (r: isize)
        requires
            self.wf(),
            isize::MIN <= self@ <= isize::MAX,
        ensures
            r as int == self@,
    {
        self.to_i128() as isize
    }

    /// Writes the value back as an `i128`.
    pub fn to_i128(self) -> (r: i128)
        requires
            self.wf(),
            i128::MIN <= self@ <= i128::MAX,
        ensures
            r as int == self@,
    {
        if self.neg {
            (-((self.mag - 1) as i128)) - 1
        } else {
            self.mag as i128
        }
    }
}

} // verus!
