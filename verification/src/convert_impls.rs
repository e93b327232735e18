//! Checked and saturating conversions between the primitive integer
//! types, each implemented by one call of the kind-generic engine in
//! [`crate::convert`].
//!
//! The engine handles every pair of kinds; the implementations here cover
//! the commonly used pairs of each bound relationship. Widening pairs
//! need no check, signed-to-unsigned pairs of sufficient width need only
//! the lower check, narrowing unsigned pairs only the upper check, and
//! narrowing signed pairs both.

use vstd::prelude::*;

use crate::convert::{
    convert_checked, convert_saturating, out_of_bounds_message, saturate, Cfrom, SaturatingFrom,
};
use crate::decimal::u128_to_decimal;
use crate::error::Error;
use crate::kind::Kind;
use crate::ops::error_1c;
use crate::wide::Wide;

verus! {

impl Cfrom<u8> for u16 {
    open spec fn cfrom_in_bounds(from: u8) -> bool {
        Kind::of_u16().in_range(from as int)
    }

    open spec fn cfrom_value(from: u8) -> u16 {
        from as u16
    }

    open spec fn cfrom_message(from: u8) -> Seq<char> {
        out_of_bounds_message(from as int, Kind::of_u8(), Kind::of_u16())
    }

    fn cfrom(from: u8) -> (r: Result<u16, Error>) {
        match convert_checked(Kind::of_u8(), Kind::of_u16(), Wide::from_u8(from)) {
            Ok(w) => Ok(w.to_u16()),
            Err(e) => Err(e),
        }
    }
}

impl SaturatingFrom<u8> for u16 {
    open spec fn saturating_from_value(from: u8) -> u16 {
        saturate(Kind::of_u16(), from as int) as u16
    }

    fn saturating_from(from: u8) -> (r: u16) {
        convert_saturating(Kind::of_u8(), Kind::of_u16(), Wide::from_u8(from)).to_u16()
    }
}

impl Cfrom<u8> for u32 {
    open spec fn cfrom_in_bounds(from: u8) -> bool {
        Kind::of_u32().in_range(from as int)
    }

    open spec fn cfrom_value(from: u8) -> u32 {
        from as u32
    }

    open spec fn cfrom_message(from: u8) -> Seq<char> {
        out_of_bounds_message(from as int, Kind::of_u8(), Kind::of_u32())
    }

    fn cfrom(from: u8) -> (r: Result<u32, Error>) {
        match convert_checked(Kind::of_u8(), Kind::of_u32(), Wide::from_u8(from)) {
            Ok(w) => Ok(w.to_u32()),
            Err(e) => Err(e),
        }
    }
}

impl SaturatingFrom<u8> for u32 {
    open spec fn saturating_from_value(from: u8) -> u32 {
        saturate(Kind::of_u32(), from as int) as u32
    }

    fn saturating_from(from: u8) -> (r: u32) {
        convert_saturating(Kind::of_u8(), Kind::of_u32(), Wide::from_u8(from)).to_u32()
    }
}

impl Cfrom<u8> for i16 {
    open spec fn cfrom_in_bounds(from: u8) -> bool {
        Kind::of_i16().in_range(from as int)
    }

    open spec fn cfrom_value(from: u8) -> i16 {
        from as i16
    }

    open spec fn cfrom_message(from: u8) -> Seq<char> {
        out_of_bounds_message(from as int, Kind::of_u8(), Kind::of_i16())
    }

    fn cfrom(from: u8) -> (r: Result<i16, Error>) {
        match convert_checked(Kind::of_u8(), Kind::of_i16(), Wide::from_u8(from)) {
            Ok(w) => Ok(w.to_i16()),
            Err(e) => Err(e),
        }
    }
}

impl SaturatingFrom<u8> for i16 {
    open spec fn saturating_from_value(from: u8) -> i16 {
        saturate(Kind::of_i16(), from as int) as i16
    }

    fn saturating_from(from: u8) -> (r: i16) {
        convert_saturating(Kind::of_u8(), Kind::of_i16(), Wide::from_u8(from)).to_i16()
    }
}

impl Cfrom<u16> for u32 {
    open spec fn cfrom_in_bounds(from: u16) -> bool {
        Kind::of_u32().in_range(from as int)
    }

    open spec fn cfrom_value(from: u16) -> u32 {
        from as u32
    }

    open spec fn cfrom_message(from: u16) -> Seq<char> {
        out_of_bounds_message(from as int, Kind::of_u16(), Kind::of_u32())
    }

    fn cfrom(from: u16) -> (r: Result<u32, Error>) {
        match convert_checked(Kind::of_u16(), Kind::of_u32(), Wide::from_u16(from)) {
            Ok(w) => Ok(w.to_u32()),
            Err(e) => Err(e),
        }
    }
}

impl SaturatingFrom<u16> for u32 {
    open spec fn saturating_from_value(from: u16) -> u32 {
        saturate(Kind::of_u32(), from as int) as u32
    }

    fn saturating_from(from: u16) -> (r: u32) {
        convert_saturating(Kind::of_u16(), Kind::of_u32(), Wide::from_u16(from)).to_u32()
    }
}

impl Cfrom<u32> for u64 {
    open spec fn cfrom_in_bounds(from: u32) -> bool {
        Kind::of_u64().in_range(from as int)
    }

    open spec fn cfrom_value(from: u32) -> u64 {
        from as u64
    }

    open spec fn cfrom_message(from: u32) -> Seq<char> {
        out_of_bounds_message(from as int, Kind::of_u32(), Kind::of_u64())
    }

    fn cfrom(from: u32) -> (r: Result<u64, Error>) {
        match convert_checked(Kind::of_u32(), Kind::of_u64(), Wide::from_u32(from)) {
            Ok(w) => Ok(w.to_u64()),
            Err(e) => Err(e),
        }
    }
}

impl SaturatingFrom<u32> for u64 {
    open spec fn saturating_from_value(from: u32) -> u64 {
        saturate(Kind::of_u64(), from as int) as u64
    }

    fn saturating_from(from: u32) -> (r: u64) {
        convert_saturating(Kind::of_u32(), Kind::of_u64(), Wide::from_u32(from)).to_u64()
    }
}

impl Cfrom<u32> for i64 {
    open spec fn cfrom_in_bounds(from: u32) -> bool {
        Kind::of_i64().in_range(from as int)
    }

    open spec fn cfrom_value(from: u32) -> i64 {
        from as i64
    }

    open spec fn cfrom_message(from: u32) -> Seq<char> {
        out_of_bounds_message(from as int, Kind::of_u32(), Kind::of_i64())
    }

    fn cfrom(from: u32) -> (r: Result<i64, Error>) {
        match convert_checked(Kind::of_u32(), Kind::of_i64(), Wide::from_u32(from)) {
            Ok(w) => Ok(w.to_i64()),
            Err(e) => Err(e),
        }
    }
}

impl SaturatingFrom<u32> for i64 {
    open spec fn saturating_from_value(from: u32) -> i64 {
        saturate(Kind::of_i64(), from as int) as i64
    }

    fn saturating_from(from: u32) -> (r: i64) {
        convert_saturating(Kind::of_u32(), Kind::of_i64(), Wide::from_u32(from)).to_i64()
    }
}

impl Cfrom<i8> for i16 {
    open spec fn cfrom_in_bounds(from: i8) -> bool {
        Kind::of_i16().in_range(from as int)
    }

    open spec fn cfrom_value(from: i8) -> i16 {
        from as i16
    }

    open spec fn cfrom_message(from: i8) -> Seq<char> {
        out_of_bounds_message(from as int, Kind::of_i8(), Kind::of_i16())
    }

    fn cfrom(from: i8) -> (r: Result<i16, Error>) {
        match convert_checked(Kind::of_i8(), Kind::of_i16(), Wide::from_i8(from)) {
            Ok(w) => Ok(w.to_i16()),
            Err(e) => Err(e),
        }
    }
}

impl SaturatingFrom<i8> for i16 {
    open spec fn saturating_from_value(from: i8) -> i16 {
        saturate(Kind::of_i16(), from as int) as i16
    }

    fn saturating_from(from: i8) -> (r: i16) {
        convert_saturating(Kind::of_i8(), Kind::of_i16(), Wide::from_i8(from)).to_i16()
    }
}

impl Cfrom<i8> for i32 {
    open spec fn cfrom_in_bounds(from: i8) -> bool {
        Kind::of_i32().in_range(from as int)
    }

    open spec fn cfrom_value(from: i8) -> i32 {
        from as i32
    }

    open spec fn cfrom_message(from: i8) -> Seq<char> {
        out_of_bounds_message(from as int, Kind::of_i8(), Kind::of_i32())
    }

    fn cfrom(from: i8) -> (r: Result<i32, Error>) {
        match convert_checked(Kind::of_i8(), Kind::of_i32(), Wide::from_i8(from)) {
            Ok(w) => Ok(w.to_i32()),
            Err(e) => Err(e),
        }
    }
}

impl SaturatingFrom<i8> for i32 {
    open spec fn saturating_from_value(from: i8) -> i32 {
        saturate(Kind::of_i32(), from as int) as i32
    }

    fn saturating_from(from: i8) -> (r: i32) {
        convert_saturating(Kind::of_i8(), Kind::of_i32(), Wide::from_i8(from)).to_i32()
    }
}

impl Cfrom<i16> for i32 {
    open spec fn cfrom_in_bounds(from: i16) -> bool {
        Kind::of_i32().in_range(from as int)
    }

    open spec fn cfrom_value(from: i16) -> i32 {
        from as i32
    }

    open spec fn cfrom_message(from: i16) -> Seq<char> {
        out_of_bounds_message(from as int, Kind::of_i16(), Kind::of_i32())
    }

    fn cfrom(from: i16) -> (r: Result<i32, Error>) {
        match convert_checked(Kind::of_i16(), Kind::of_i32(), Wide::from_i16(from)) {
            Ok(w) => Ok(w.to_i32()),
            Err(e) => Err(e),
        }
    }
}

impl SaturatingFrom<i16> for i32 {
    open spec fn saturating_from_value(from: i16) -> i32 {
        saturate(Kind::of_i32(), from as int) as i32
    }

    fn saturating_from(from: i16) -> (r: i32) {
        convert_saturating(Kind::of_i16(), Kind::of_i32(), Wide::from_i16(from)).to_i32()
    }
}

impl Cfrom<i32> for i64 {
    open spec fn cfrom_in_bounds(from: i32) -> bool {
        Kind::of_i64().in_range(from as int)
    }

    open spec fn cfrom_value(from: i32) -> i64 {
        from as i64
    }

    open spec fn cfrom_message(from: i32) -> Seq<char> {
        out_of_bounds_message(from as int, Kind::of_i32(), Kind::of_i64())
    }

    fn cfrom(from: i32) -> (r: Result<i64, Error>) {
        match convert_checked(Kind::of_i32(), Kind::of_i64(), Wide::from_i32(from)) {
            Ok(w) => Ok(w.to_i64()),
            Err(e) => Err(e),
        }
    }
}

impl SaturatingFrom<i32> for i64 {
    open spec fn saturating_from_value(from: i32) -> i64 {
        saturate(Kind::of_i64(), from as int) as i64
    }

    fn saturating_from(from: i32) -> (r: i64) {
        convert_saturating(Kind::of_i32(), Kind::of_i64(), Wide::from_i32(from)).to_i64()
    }
}

impl Cfrom<u64> for u128 {
    open spec fn cfrom_in_bounds(from: u64) -> bool {
        Kind::of_u128().in_range(from as int)
    }

    open spec fn cfrom_value(from: u64) -> u128 {
        from as u128
    }

    open spec fn cfrom_message(from: u64) -> Seq<char> {
        out_of_bounds_message(from as int, Kind::of_u64(), Kind::of_u128())
    }

    fn cfrom(from: u64) -> (r: Result<u128, Error>) {
        match convert_checked(Kind::of_u64(), Kind::of_u128(), Wide::from_u64(from)) {
            Ok(w) => Ok(w.to_u128()),
            Err(e) => Err(e),
        }
    }
}

impl SaturatingFrom<u64> for u128 {
    open spec fn saturating_from_value(from: u64) -> u128 {
        saturate(Kind::of_u128(), from as int) as u128
    }

    fn saturating_from(from: u64) -> (r: u128) {
        convert_saturating(Kind::of_u64(), Kind::of_u128(), Wide::from_u64(from)).to_u128()
    }
}

impl Cfrom<i64> for i128 {
    open spec fn cfrom_in_bounds(from: i64) -> bool {
        Kind::of_i128().in_range(from as int)
    }

    open spec fn cfrom_value(from: i64) -> i128 {
        from as i128
    }

    open spec fn cfrom_message(from: i64) -> Seq<char> {
        out_of_bounds_message(from as int, Kind::of_i64(), Kind::of_i128())
    }

    fn cfrom(from: i64) -> (r: Result<i128, Error>) {
        match convert_checked(Kind::of_i64(), Kind::of_i128(), Wide::from_i64(from)) {
            Ok(w) => Ok(w.to_i128()),
            Err(e) => Err(e),
        }
    }
}

impl SaturatingFrom<i64> for i128 {
    open spec fn saturating_from_value(from: i64) -> i128 {
        saturate(Kind::of_i128(), from as int) as i128
    }

    fn saturating_from(from: i64) -> (r: i128) {
        convert_saturating(Kind::of_i64(), Kind::of_i128(), Wide::from_i64(from)).to_i128()
    }
}

impl Cfrom<i8> for u8 {
    open spec fn cfrom_in_bounds(from: i8) -> bool {
        Kind::of_u8().in_range(from as int)
    }

    open spec fn cfrom_value(from: i8) -> u8 {
        from as u8
    }

    open spec fn cfrom_message(from: i8) -> Seq<char> {
        out_of_bounds_message(from as int, Kind::of_i8(), Kind::of_u8())
    }

    fn cfrom(from: i8) -> (r: Result<u8, Error>) {
        match convert_checked(Kind::of_i8(), Kind::of_u8(), Wide::from_i8(from)) {
            Ok(w) => Ok(w.to_u8()),
            Err(e) => Err(e),
        }
    }
}

impl SaturatingFrom<i8> for u8 {
    open spec fn saturating_from_value(from: i8) -> u8 {
        saturate(Kind::of_u8(), from as int) as u8
    }

    fn saturating_from(from: i8) -> (r: u8) {
        convert_saturating(Kind::of_i8(), Kind::of_u8(), Wide::from_i8(from)).to_u8()
    }
}

impl Cfrom<i32> for u32 {
    open spec fn cfrom_in_bounds(from: i32) -> bool {
        Kind::of_u32().in_range(from as int)
    }

    open spec fn cfrom_value(from: i32) -> u32 {
        from as u32
    }

    open spec fn cfrom_message(from: i32) -> Seq<char> {
        out_of_bounds_message(from as int, Kind::of_i32(), Kind::of_u32())
    }

    fn cfrom(from: i32) -> (r: Result<u32, Error>) {
        match convert_checked(Kind::of_i32(), Kind::of_u32(), Wide::from_i32(from)) {
            Ok(w) => Ok(w.to_u32()),
            Err(e) => Err(e),
        }
    }
}

impl SaturatingFrom<i32> for u32 {
    open spec fn saturating_from_value(from: i32) -> u32 {
        saturate(Kind::of_u32(), from as int) as u32
    }

    fn saturating_from(from: i32) -> (r: u32) {
        convert_saturating(Kind::of_i32(), Kind::of_u32(), Wide::from_i32(from)).to_u32()
    }
}

impl Cfrom<i32> for u64 {
    open spec fn cfrom_in_bounds(from: i32) -> bool {
        Kind::of_u64().in_range(from as int)
    }

    open spec fn cfrom_value(from: i32) -> u64 {
        from as u64
    }

    open spec fn cfrom_message(from: i32) -> Seq<char> {
        out_of_bounds_message(from as int, Kind::of_i32(), Kind::of_u64())
    }

    fn cfrom(from: i32) -> (r: Result<u64, Error>) {
        match convert_checked(Kind::of_i32(), Kind::of_u64(), Wide::from_i32(from)) {
            Ok(w) => Ok(w.to_u64()),
            Err(e) => Err(e),
        }
    }
}

impl SaturatingFrom<i32> for u64 {
    open spec fn saturating_from_value(from: i32) -> u64 {
        saturate(Kind::of_u64(), from as int) as u64
    }

    fn saturating_from(from: i32) -> (r: u64) {
        convert_saturating(Kind::of_i32(), Kind::of_u64(), Wide::from_i32(from)).to_u64()
    }
}

impl Cfrom<i64> for u64 {
    open spec fn cfrom_in_bounds(from: i64) -> bool {
        Kind::of_u64().in_range(from as int)
    }

    open spec fn cfrom_value(from: i64) -> u64 {
        from as u64
    }

    open spec fn cfrom_message(from: i64) -> Seq<char> {
        out_of_bounds_message(from as int, Kind::of_i64(), Kind::of_u64())
    }

    fn cfrom(from: i64) -> (r: Result<u64, Error>) {
        match convert_checked(Kind::of_i64(), Kind::of_u64(), Wide::from_i64(from)) {
            Ok(w) => Ok(w.to_u64()),
            Err(e) => Err(e),
        }
    }
}

impl SaturatingFrom<i64> for u64 {
    open spec fn saturating_from_value(from: i64) -> u64 {
        saturate(Kind::of_u64(), from as int) as u64
    }

    fn saturating_from(from: i64) -> (r: u64) {
        convert_saturating(Kind::of_i64(), Kind::of_u64(), Wide::from_i64(from)).to_u64()
    }
}

impl Cfrom<i128> for u128 {
    open spec fn cfrom_in_bounds(from: i128) -> bool {
        Kind::of_u128().in_range(from as int)
    }

    open spec fn cfrom_value(from: i128) -> u128 {
        from as u128
    }

    open spec fn cfrom_message(from: i128) -> Seq<char> {
        out_of_bounds_message(from as int, Kind::of_i128(), Kind::of_u128())
    }

    fn cfrom(from: i128) -> (r: Result<u128, Error>) {
        match convert_checked(Kind::of_i128(), Kind::of_u128(), Wide::from_i128(from)) {
            Ok(w) => Ok(w.to_u128()),
            Err(e) => Err(e),
        }
    }
}

impl SaturatingFrom<i128> for u128 {
    open spec fn saturating_from_value(from: i128) -> u128 {
        saturate(Kind::of_u128(), from as int) as u128
    }

    fn saturating_from(from: i128) -> (r: u128) {
        convert_saturating(Kind::of_i128(), Kind::of_u128(), Wide::from_i128(from)).to_u128()
    }
}

impl Cfrom<u16> for u8 {
    open spec fn cfrom_in_bounds(from: u16) -> bool {
        Kind::of_u8().in_range(from as int)
    }

    open spec fn cfrom_value(from: u16) -> u8 {
        from as u8
    }

    open spec fn cfrom_message(from: u16) -> Seq<char> {
        out_of_bounds_message(from as int, Kind::of_u16(), Kind::of_u8())
    }

    fn cfrom(from: u16) -> (r: Result<u8, Error>) {
        match convert_checked(Kind::of_u16(), Kind::of_u8(), Wide::from_u16(from)) {
            Ok(w) => Ok(w.to_u8()),
            Err(e) => Err(e),
        }
    }
}

impl SaturatingFrom<u16> for u8 {
    open spec fn saturating_from_value(from: u16) -> u8 {
        saturate(Kind::of_u8(), from as int) as u8
    }

    fn saturating_from(from: u16) -> (r: u8) {
        convert_saturating(Kind::of_u16(), Kind::of_u8(), Wide::from_u16(from)).to_u8()
    }
}

impl Cfrom<u32> for u8 {
    open spec fn cfrom_in_bounds(from: u32) -> bool {
        Kind::of_u8().in_range(from as int)
    }

    open spec fn cfrom_value(from: u32) -> u8 {
        from as u8
    }

    open spec fn cfrom_message(from: u32) -> Seq<char> {
        out_of_bounds_message(from as int, Kind::of_u32(), Kind::of_u8())
    }

    fn cfrom(from: u32) -> (r: Result<u8, Error>) {
        match convert_checked(Kind::of_u32(), Kind::of_u8(), Wide::from_u32(from)) {
            Ok(w) => Ok(w.to_u8()),
            Err(e) => Err(e),
        }
    }
}

impl SaturatingFrom<u32> for u8 {
    open spec fn saturating_from_value(from: u32) -> u8 {
        saturate(Kind::of_u8(), from as int) as u8
    }

    fn saturating_from(from: u32) -> (r: u8) {
        convert_saturating(Kind::of_u32(), Kind::of_u8(), Wide::from_u32(from)).to_u8()
    }
}

impl Cfrom<u32> for u16 {
    open spec fn cfrom_in_bounds(from: u32) -> bool {
        Kind::of_u16().in_range(from as int)
    }

    open spec fn cfrom_value(from: u32) -> u16 {
        from as u16
    }

    open spec fn cfrom_message(from: u32) -> Seq<char> {
        out_of_bounds_message(from as int, Kind::of_u32(), Kind::of_u16())
    }

    fn cfrom(from: u32) -> (r: Result<u16, Error>) {
        match convert_checked(Kind::of_u32(), Kind::of_u16(), Wide::from_u32(from)) {
            Ok(w) => Ok(w.to_u16()),
            Err(e) => Err(e),
        }
    }
}

impl SaturatingFrom<u32> for u16 {
    open spec fn saturating_from_value(from: u32) -> u16 {
        saturate(Kind::of_u16(), from as int) as u16
    }

    fn saturating_from(from: u32) -> (r: u16) {
        convert_saturating(Kind::of_u32(), Kind::of_u16(), Wide::from_u32(from)).to_u16()
    }
}

impl Cfrom<u64> for u32 {
    open spec fn cfrom_in_bounds(from: u64) -> bool {
        Kind::of_u32().in_range(from as int)
    }

    open spec fn cfrom_value(from: u64) -> u32 {
        from as u32
    }

    open spec fn cfrom_message(from: u64) -> Seq<char> {
        out_of_bounds_message(from as int, Kind::of_u64(), Kind::of_u32())
    }

    fn cfrom(from: u64) -> (r: Result<u32, Error>) {
        match convert_checked(Kind::of_u64(), Kind::of_u32(), Wide::from_u64(from)) {
            Ok(w) => Ok(w.to_u32()),
            Err(e) => Err(e),
        }
    }
}

impl SaturatingFrom<u64> for u32 {
    open spec fn saturating_from_value(from: u64) -> u32 {
        saturate(Kind::of_u32(), from as int) as u32
    }

    fn saturating_from(from: u64) -> (r: u32) {
        convert_saturating(Kind::of_u64(), Kind::of_u32(), Wide::from_u64(from)).to_u32()
    }
}

impl Cfrom<u128> for u64 {
    open spec fn cfrom_in_bounds(from: u128) -> bool {
        Kind::of_u64().in_range(from as int)
    }

    open spec fn cfrom_value(from: u128) -> u64 {
        from as u64
    }

    open spec fn cfrom_message(from: u128) -> Seq<char> {
        out_of_bounds_message(from as int, Kind::of_u128(), Kind::of_u64())
    }

    fn cfrom(from: u128) -> (r: Result<u64, Error>) {
        match convert_checked(Kind::of_u128(), Kind::of_u64(), Wide::from_u128(from)) {
            Ok(w) => Ok(w.to_u64()),
            Err(e) => Err(e),
        }
    }
}

impl SaturatingFrom<u128> for u64 {
    open spec fn saturating_from_value(from: u128) -> u64 {
        saturate(Kind::of_u64(), from as int) as u64
    }

    fn saturating_from(from: u128) -> (r: u64) {
        convert_saturating(Kind::of_u128(), Kind::of_u64(), Wide::from_u128(from)).to_u64()
    }
}

impl Cfrom<u8> for i8 {
    open spec fn cfrom_in_bounds(from: u8) -> bool {
        Kind::of_i8().in_range(from as int)
    }

    open spec fn cfrom_value(from: u8) -> i8 {
        from as i8
    }

    open spec fn cfrom_message(from: u8) -> Seq<char> {
        out_of_bounds_message(from as int, Kind::of_u8(), Kind::of_i8())
    }

    fn cfrom(from: u8) -> (r: Result<i8, Error>) {
        match convert_checked(Kind::of_u8(), Kind::of_i8(), Wide::from_u8(from)) {
            Ok(w) => Ok(w.to_i8()),
            Err(e) => Err(e),
        }
    }
}

impl SaturatingFrom<u8> for i8 {
    open spec fn saturating_from_value(from: u8) -> i8 {
        saturate(Kind::of_i8(), from as int) as i8
    }

    fn saturating_from(from: u8) -> (r: i8) {
        convert_saturating(Kind::of_u8(), Kind::of_i8(), Wide::from_u8(from)).to_i8()
    }
}

impl Cfrom<u32> for i32 {
    open spec fn cfrom_in_bounds(from: u32) -> bool {
        Kind::of_i32().in_range(from as int)
    }

    open spec fn cfrom_value(from: u32) -> i32 {
        from as i32
    }

    open spec fn cfrom_message(from: u32) -> Seq<char> {
        out_of_bounds_message(from as int, Kind::of_u32(), Kind::of_i32())
    }

    fn cfrom(from: u32) -> (r: Result<i32, Error>) {
        match convert_checked(Kind::of_u32(), Kind::of_i32(), Wide::from_u32(from)) {
            Ok(w) => Ok(w.to_i32()),
            Err(e) => Err(e),
        }
    }
}

impl SaturatingFrom<u32> for i32 {
    open spec fn saturating_from_value(from: u32) -> i32 {
        saturate(Kind::of_i32(), from as int) as i32
    }

    fn saturating_from(from: u32) -> (r: i32) {
        convert_saturating(Kind::of_u32(), Kind::of_i32(), Wide::from_u32(from)).to_i32()
    }
}

impl Cfrom<u64> for i64 {
    open spec fn cfrom_in_bounds(from: u64) -> bool {
        Kind::of_i64().in_range(from as int)
    }

    open spec fn cfrom_value(from: u64) -> i64 {
        from as i64
    }

    open spec fn cfrom_message(from: u64) -> Seq<char> {
        out_of_bounds_message(from as int, Kind::of_u64(), Kind::of_i64())
    }

    fn cfrom(from: u64) -> (r: Result<i64, Error>) {
        match convert_checked(Kind::of_u64(), Kind::of_i64(), Wide::from_u64(from)) {
            Ok(w) => Ok(w.to_i64()),
            Err(e) => Err(e),
        }
    }
}

impl SaturatingFrom<u64> for i64 {
    open spec fn saturating_from_value(from: u64) -> i64 {
        saturate(Kind::of_i64(), from as int) as i64
    }

    fn saturating_from(from: u64) -> (r: i64) {
        convert_saturating(Kind::of_u64(), Kind::of_i64(), Wide::from_u64(from)).to_i64()
    }
}

impl Cfrom<i16> for i8 {
    open spec fn cfrom_in_bounds(from: i16) -> bool {
        Kind::of_i8().in_range(from as int)
    }

    open spec fn cfrom_value(from: i16) -> i8 {
        from as i8
    }

    open spec fn cfrom_message(from: i16) -> Seq<char> {
        out_of_bounds_message(from as int, Kind::of_i16(), Kind::of_i8())
    }

    fn cfrom(from: i16) -> (r: Result<i8, Error>) {
        match convert_checked(Kind::of_i16(), Kind::of_i8(), Wide::from_i16(from)) {
            Ok(w) => Ok(w.to_i8()),
            Err(e) => Err(e),
        }
    }
}

impl SaturatingFrom<i16> for i8 {
    open spec fn saturating_from_value(from: i16) -> i8 {
        saturate(Kind::of_i8(), from as int) as i8
    }

    fn saturating_from(from: i16) -> (r: i8) {
        convert_saturating(Kind::of_i16(), Kind::of_i8(), Wide::from_i16(from)).to_i8()
    }
}

impl Cfrom<i32> for i8 {
    open spec fn cfrom_in_bounds(from: i32) -> bool {
        Kind::of_i8().in_range(from as int)
    }

    open spec fn cfrom_value(from: i32) -> i8 {
        from as i8
    }

    open spec fn cfrom_message(from: i32) -> Seq<char> {
        out_of_bounds_message(from as int, Kind::of_i32(), Kind::of_i8())
    }

    fn cfrom(from: i32) -> (r: Result<i8, Error>) {
        match convert_checked(Kind::of_i32(), Kind::of_i8(), Wide::from_i32(from)) {
            Ok(w) => Ok(w.to_i8()),
            Err(e) => Err(e),
        }
    }
}

impl SaturatingFrom<i32> for i8 {
    open spec fn saturating_from_value(from: i32) -> i8 {
        saturate(Kind::of_i8(), from as int) as i8
    }

    fn saturating_from(from: i32) -> (r: i8) {
        convert_saturating(Kind::of_i32(), Kind::of_i8(), Wide::from_i32(from)).to_i8()
    }
}

impl Cfrom<i32> for i16 {
    open spec fn cfrom_in_bounds(from: i32) -> bool {
        Kind::of_i16().in_range(from as int)
    }

    open spec fn cfrom_value(from: i32) -> i16 {
        from as i16
    }

    open spec fn cfrom_message(from: i32) -> Seq<char> {
        out_of_bounds_message(from as int, Kind::of_i32(), Kind::of_i16())
    }

    fn cfrom(from: i32) -> (r: Result<i16, Error>) {
        match convert_checked(Kind::of_i32(), Kind::of_i16(), Wide::from_i32(from)) {
            Ok(w) => Ok(w.to_i16()),
            Err(e) => Err(e),
        }
    }
}

impl SaturatingFrom<i32> for i16 {
    open spec fn saturating_from_value(from: i32) -> i16 {
        saturate(Kind::of_i16(), from as int) as i16
    }

    fn saturating_from(from: i32) -> (r: i16) {
        convert_saturating(Kind::of_i32(), Kind::of_i16(), Wide::from_i32(from)).to_i16()
    }
}

impl Cfrom<i64> for i32 {
    open spec fn cfrom_in_bounds(from: i64) -> bool {
        Kind::of_i32().in_range(from as int)
    }

    open spec fn cfrom_value(from: i64) -> i32 {
        from as i32
    }

    open spec fn cfrom_message(from: i64) -> Seq<char> {
        out_of_bounds_message(from as int, Kind::of_i64(), Kind::of_i32())
    }

    fn cfrom(from: i64) -> (r: Result<i32, Error>) {
        match convert_checked(Kind::of_i64(), Kind::of_i32(), Wide::from_i64(from)) {
            Ok(w) => Ok(w.to_i32()),
            Err(e) => Err(e),
        }
    }
}

impl SaturatingFrom<i64> for i32 {
    open spec fn saturating_from_value(from: i64) -> i32 {
        saturate(Kind::of_i32(), from as int) as i32
    }

    fn saturating_from(from: i64) -> (r: i32) {
        convert_saturating(Kind::of_i64(), Kind::of_i32(), Wide::from_i64(from)).to_i32()
    }
}

impl Cfrom<i128> for i64 {
    open spec fn cfrom_in_bounds(from: i128) -> bool {
        Kind::of_i64().in_range(from as int)
    }

    open spec fn cfrom_value(from: i128) -> i64 {
        from as i64
    }

    open spec fn cfrom_message(from: i128) -> Seq<char> {
        out_of_bounds_message(from as int, Kind::of_i128(), Kind::of_i64())
    }

    fn cfrom(from: i128) -> (r: Result<i64, Error>) {
        match convert_checked(Kind::of_i128(), Kind::of_i64(), Wide::from_i128(from)) {
            Ok(w) => Ok(w.to_i64()),
            Err(e) => Err(e),
        }
    }
}

impl SaturatingFrom<i128> for i64 {
    open spec fn saturating_from_value(from: i128) -> i64 {
        saturate(Kind::of_i64(), from as int) as i64
    }

    fn saturating_from(from: i128) -> (r: i64) {
        convert_saturating(Kind::of_i128(), Kind::of_i64(), Wide::from_i128(from)).to_i64()
    }
}

impl Cfrom<i32> for u8 {
    open spec fn cfrom_in_bounds(from: i32) -> bool {
        Kind::of_u8().in_range(from as int)
    }

    open spec fn cfrom_value(from: i32) -> u8 {
        from as u8
    }

    open spec fn cfrom_message(from: i32) -> Seq<char> {
        out_of_bounds_message(from as int, Kind::of_i32(), Kind::of_u8())
    }

    fn cfrom(from: i32) -> (r: Result<u8, Error>) {
        match convert_checked(Kind::of_i32(), Kind::of_u8(), Wide::from_i32(from)) {
            Ok(w) => Ok(w.to_u8()),
            Err(e) => Err(e),
        }
    }
}

impl SaturatingFrom<i32> for u8 {
    open spec fn saturating_from_value(from: i32) -> u8 {
        saturate(Kind::of_u8(), from as int) as u8
    }

    fn saturating_from(from: i32) -> (r: u8) {
        convert_saturating(Kind::of_i32(), Kind::of_u8(), Wide::from_i32(from)).to_u8()
    }
}

impl Cfrom<i16> for u8 {
    open spec fn cfrom_in_bounds(from: i16) -> bool {
        Kind::of_u8().in_range(from as int)
    }

    open spec fn cfrom_value(from: i16) -> u8 {
        from as u8
    }

    open spec fn cfrom_message(from: i16) -> Seq<char> {
        out_of_bounds_message(from as int, Kind::of_i16(), Kind::of_u8())
    }

    fn cfrom(from: i16) -> (r: Result<u8, Error>) {
        match convert_checked(Kind::of_i16(), Kind::of_u8(), Wide::from_i16(from)) {
            Ok(w) => Ok(w.to_u8()),
            Err(e) => Err(e),
        }
    }
}

impl SaturatingFrom<i16> for u8 {
    open spec fn saturating_from_value(from: i16) -> u8 {
        saturate(Kind::of_u8(), from as int) as u8
    }

    fn saturating_from(from: i16) -> (r: u8) {
        convert_saturating(Kind::of_i16(), Kind::of_u8(), Wide::from_i16(from)).to_u8()
    }
}

impl Cfrom<i64> for u16 {
    open spec fn cfrom_in_bounds(from: i64) -> bool {
        Kind::of_u16().in_range(from as int)
    }

    open spec fn cfrom_value(from: i64) -> u16 {
        from as u16
    }

    open spec fn cfrom_message(from: i64) -> Seq<char> {
        out_of_bounds_message(from as int, Kind::of_i64(), Kind::of_u16())
    }

    fn cfrom(from: i64) -> (r: Result<u16, Error>) {
        match convert_checked(Kind::of_i64(), Kind::of_u16(), Wide::from_i64(from)) {
            Ok(w) => Ok(w.to_u16()),
            Err(e) => Err(e),
        }
    }
}

impl SaturatingFrom<i64> for u16 {
    open spec fn saturating_from_value(from: i64) -> u16 {
        saturate(Kind::of_u16(), from as int) as u16
    }

    fn saturating_from(from: i64) -> (r: u16) {
        convert_saturating(Kind::of_i64(), Kind::of_u16(), Wide::from_i64(from)).to_u16()
    }
}

/// A Unicode scalar value: any code point outside the surrogate range.
pub open spec fn valid_scalar(v: u32) -> bool {
    v < 0xD800 || (0xE000 <= v && v <= 0x10FFFF)
}

/// What the standard library's debug form of a character renders as
/// (quotes and escapes included): a function of the character alone.
pub uninterp spec fn char_rendering(c: char) -> Seq<char>;

/// Relies on the standard library's debug formatting of `char`: the
/// rendering depends on the character alone.
#[verifier::external_body]
fn char_debug(c: char) -> (s: String)
    ensures
        s@ == char_rendering(c),
{
    format!("{:?}", c)
}

/// Relies on the standard library's `char::from_u32`: it returns the
/// character with the given code point exactly when that code point is a
/// Unicode scalar value.
pub assume_specification[ char::from_u32 ](v: u32) -> (r: Option<char>)
    ensures
        r matches Some(c) ==> valid_scalar(v) && c == v as char,
        r matches None ==> !valid_scalar(v),
;

fn char_to_u8(c: char) -> (r: Result<u8, Error>)
    ensures
        r matches Ok(v) ==> c as u32 <= u8::MAX && v == c as u8,
        r matches Err(e) ==> c as u32 > u8::MAX && e@.message == "cannot convert value "@
            + char_rendering(c) + " from char to u8: value is out of bounds"@
            && e@.backtrace is None,
{
    let v = c as u32;
    if v <= 255 {
        Ok(v as u8)
    } else {
        Err(error_1c("cannot convert value ", char_debug(c),
            " from char to u8: value is out of bounds"))
    }
}

fn char_to_u16(c: char) -> (r: Result<u16, Error>)
    ensures
        r matches Ok(v) ==> c as u32 <= u16::MAX && v == c as u16,
        r matches Err(e) ==> c as u32 > u16::MAX && e@.message == "cannot convert value "@
            + char_rendering(c) + " from char to u16: value is out of bounds"@
            && e@.backtrace is None,
{
    let v = c as u32;
    if v <= 65535 {
        Ok(v as u16)
    } else {
        Err(error_1c("cannot convert value ", char_debug(c),
            " from char to u16: value is out of bounds"))
    }
}

fn u32_to_char(v: u32) -> (r: Result<char, Error>)
    ensures
        r matches Ok(c) ==> valid_scalar(v) && c == v as char,
        r matches Err(e) ==> !valid_scalar(v) && e@.message == "cannot convert value "@
            + crate::decimal::dec_int(v as int) + " from u32 to char: value is out of bounds"@
            && e@.backtrace is None,
{
    match char::from_u32(v) {
        Some(c) => Ok(c),
        None => Err(error_1c("cannot convert value ", u128_to_decimal(v as u128),
            " from u32 to char: value is out of bounds")),
    }
}

impl Cfrom<char> for u8 {
    open spec fn cfrom_in_bounds(from: char) -> bool {
        from as u32 <= u8::MAX
    }

    open spec fn cfrom_value(from: char) -> u8 {
        from as u8
    }

    open spec fn cfrom_message(from: char) -> Seq<char> {
        "cannot convert value "@ + char_rendering(from)
            + " from char to u8: value is out of bounds"@
    }

    fn cfrom(from: char) -> (r: Result<u8, Error>) {
        char_to_u8(from)
    }
}

impl Cfrom<char> for u16 {
    open spec fn cfrom_in_bounds(from: char) -> bool {
        from as u32 <= u16::MAX
    }

    open spec fn cfrom_value(from: char) -> u16 {
        from as u16
    }

    open spec fn cfrom_message(from: char) -> Seq<char> {
        "cannot convert value "@ + char_rendering(from)
            + " from char to u16: value is out of bounds"@
    }

    fn cfrom(from: char) -> (r: Result<u16, Error>) {
        char_to_u16(from)
    }
}

impl Cfrom<u32> for char {
    open spec fn cfrom_in_bounds(from: u32) -> bool {
        valid_scalar(from)
    }

    open spec fn cfrom_value(from: u32) -> char {
        from as char
    }

    open spec fn cfrom_message(from: u32) -> Seq<char> {
        "cannot convert value "@ + crate::decimal::dec_int(from as int)
            + " from u32 to char: value is out of bounds"@
    }

    fn cfrom(from: u32) -> (r: Result<char, Error>) {
        u32_to_char(from)
    }
}

} // verus!
