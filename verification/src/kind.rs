//! Numeric kinds and the four-way classification of conversions.
//!
//! A [`Kind`] describes a fixed-width integer representation: signedness and
//! bit width, with pointer-sized kinds carrying the width the target
//! resolves them to. For every ordered pair of kinds, exactly one
//! [`Bound`] relationship holds, and it decides which range checks a
//! conversion between the two kinds needs.

use vstd::prelude::*;

use crate::wide::Wide;

verus! {

/// Which range checks a conversion from a source kind to a target kind
/// needs.
#[derive(Clone, Copy, PartialEq, Eq, Structural, Debug)]
pub enum Bound {
    /// Every source value is representable in the target: no check.
    Unbounded,
    /// Only a negative source value can be out of range.
    LowerBounded,
    /// Only a source value above the target's maximum can be out of range.
    UpperBounded,
    /// Both a lower and an upper check are needed.
    BothBounded,
}

/// A fixed-width integer representation: signedness and bit width.
///
/// Pointer-sized kinds set `pointer` and carry the width that the target
/// platform resolves them to, so the classification below always works on
/// resolved widths; `pointer` only changes the kind's name.
#[derive(Clone, Copy, PartialEq, Eq, Structural, Debug)]
pub struct Kind {
    pub signed: bool,
    pub bits: u32,
    pub pointer: bool,
}

impl Kind {
    /// The supported widths: 8 through 128 bits, with pointer-sized kinds
    /// resolved to 16, 32 or 64 bits.
    pub open spec fn wf(self) -> bool {
        if self.pointer {
            self.bits == 16 || self.bits == 32 || self.bits == 64
        } else {
            self.bits == 8 || self.bits == 16 || self.bits == 32 || self.bits == 64
                || self.bits == 128
        }
    }

    /// Half the size of the kind's value space: `2^(bits - 1)`.
    pub open spec fn half_range(self) -> int {
        if self.bits == 8 {
            0x80
        } else if self.bits == 16 {
            0x8000
        } else if self.bits == 32 {
            0x8000_0000
        } else if self.bits == 64 {
            0x8000_0000_0000_0000
        } else if self.bits == 128 {
            0x8000_0000_0000_0000_0000_0000_0000_0000
        } else {
            0
        }
    }

    /// The smallest value representable in this kind.
    pub open spec fn min(self) -> int {
        if self.signed {
            -self.half_range()
        } else {
            0
        }
    }

    /// The largest value representable in this kind.
    pub open spec fn max(self) -> int {
        if self.signed {
            self.half_range() - 1
        } else {
            2 * self.half_range() - 1
        }
    }

    /// Whether `v` is representable in this kind.
    pub open spec fn in_range(self, v: int) -> bool {
        self.min() <= v <= self.max()
    }

    /// The kind's name, as it appears in diagnostic messages.
    pub open spec fn name(self) -> Seq<char> {
        if self.pointer {
            if self.signed {
                "isize"@
            } else {
                "usize"@
            }
        } else if self.signed {
            if self.bits == 8 {
                "i8"@
            } else if self.bits == 16 {
                "i16"@
            } else if self.bits == 32 {
                "i32"@
            } else if self.bits == 64 {
                "i64"@
            } else {
                "i128"@
            }
        } else {
            if self.bits == 8 {
                "u8"@
            } else if self.bits == 16 {
                "u16"@
            } else if self.bits == 32 {
                "u32"@
            } else if self.bits == 64 {
                "u64"@
            } else {
                "u128"@
            }
        }
    }

    /// The kind's name as text.
    pub fn name_str(self) -> (r: &'static str)
        requires
            self.wf(),
        ensures
            r@ == self.name(),
    {
        if self.pointer {
            if self.signed {
                "isize"
            } else {
                "usize"
            }
        } else if self.signed {
            if self.bits == 8 {
                "i8"
            } else if self.bits == 16 {
                "i16"
            } else if self.bits == 32 {
                "i32"
            } else if self.bits == 64 {
                "i64"
            } else {
                "i128"
            }
        } else {
            if self.bits == 8 {
                "u8"
            } else if self.bits == 16 {
                "u16"
            } else if self.bits == 32 {
                "u32"
            } else if self.bits == 64 {
                "u64"
            } else {
                "u128"
            }
        }
    }

    /// The kind of `u8`.
    #[verifier::allow_in_spec]
    pub fn of_u8() -> Kind
        returns
            (Kind { signed: false, bits: 8, pointer: false }),
    {
        Kind { signed: false, bits: 8, pointer: false }
    }

    /// The kind of `u16`.
    #[verifier::allow_in_spec]
    pub fn of_u16() -> Kind
        returns
            (Kind { signed: false, bits: 16, pointer: false }),
    {
        Kind { signed: false, bits: 16, pointer: false }
    }

    /// The kind of `u32`.
    #[verifier::allow_in_spec]
    pub fn of_u32() -> Kind
        returns
            (Kind { signed: false, bits: 32, pointer: false }),
    {
        Kind { signed: false, bits: 32, pointer: false }
    }

    /// The kind of `u64`.
    #[verifier::allow_in_spec]
    pub fn of_u64() -> Kind
        returns
            (Kind { signed: false, bits: 64, pointer: false }),
    {
        Kind { signed: false, bits: 64, pointer: false }
    }

    /// The kind of `u128`.
    #[verifier::allow_in_spec]
    pub fn of_u128() -> Kind
        returns
            (Kind { signed: false, bits: 128, pointer: false }),
    {
        Kind { signed: false, bits: 128, pointer: false }
    }

    /// The kind of `i8`.
    #[verifier::allow_in_spec]
    pub fn of_i8() -> Kind
        returns
            (Kind { signed: true, bits: 8, pointer: false }),
    {
        Kind { signed: true, bits: 8, pointer: false }
    }

    /// The kind of `i16`.
    #[verifier::allow_in_spec]
    pub fn of_i16() -> Kind
        returns
            (Kind { signed: true, bits: 16, pointer: false }),
    {
        Kind { signed: true, bits: 16, pointer: false }
    }

    /// The kind of `i32`.
    #[verifier::allow_in_spec]
    pub fn of_i32() -> Kind
        returns
            (Kind { signed: true, bits: 32, pointer: false }),
    {
        Kind { signed: true, bits: 32, pointer: false }
    }

    /// The kind of `i64`.
    #[verifier::allow_in_spec]
    pub fn of_i64() -> Kind
        returns
            (Kind { signed: true, bits: 64, pointer: false }),
    {
        Kind { signed: true, bits: 64, pointer: false }
    }

    /// The kind of `i128`.
    #[verifier::allow_in_spec]
    pub fn of_i128() -> Kind
        returns
            (Kind { signed: true, bits: 128, pointer: false }),
    {
        Kind { signed: true, bits: 128, pointer: false }
    }

    /// The kind of a pointer-sized unsigned integer, on a platform whose
    /// pointers are `bits` wide.
    #[verifier::allow_in_spec]
    pub fn of_pointer_unsigned(bits: u32) -> Kind
        returns
            (Kind { signed: false, bits, pointer: true }),
    {
        Kind { signed: false, bits, pointer: true }
    }

    /// The kind of a pointer-sized signed integer, on a platform whose
    /// pointers are `bits` wide.
    #[verifier::allow_in_spec]
    pub fn of_pointer_signed(bits: u32) -> Kind
        returns
            (Kind { signed: true, bits, pointer: true }),
    {
        Kind { signed: true, bits, pointer: true }
    }

    /// `2^(bits - 1)` as a machine value.
    fn half_range_exec(self) -> (r: u128)
        requires
            self.wf(),
        ensures
            r as int == self.half_range(),
    {
        if self.bits == 8 {
            0x80
        } else if self.bits == 16 {
            0x8000
        } else if self.bits == 32 {
            0x8000_0000
        } else if self.bits == 64 {
            0x8000_0000_0000_0000
        } else {
            0x8000_0000_0000_0000_0000_0000_0000_0000
        }
    }

    /// The kind's minimum, in the wide value domain.
    pub fn min_wide(self) -> (r: Wide)
        requires
            self.wf(),
        ensures
            r.wf(),
            r@ == self.min(),
    {
        if self.signed {
            Wide { neg: true, mag: self.half_range_exec() }
        } else {
            Wide::zero()
        }
    }

    /// The kind's maximum, in the wide value domain.
    pub fn max_wide(self) -> (r: Wide)
        requires
            self.wf(),
        ensures
            r.wf(),
            r@ == self.max(),
    {
        let h = self.half_range_exec();
        if self.signed {
            Wide { neg: false, mag: h - 1 }
        } else {
            Wide { neg: false, mag: h - 1 + h }
        }
    }
}

/// The relationship that classifies a conversion from `src` to `dst`:
/// which of the two range checks can actually fail.
pub open spec fn spec_classify(src: Kind, dst: Kind) -> Bound {
    if dst.min() <= src.min() && src.max() <= dst.max() {
        Bound::Unbounded
    } else if dst.min() > src.min() && src.max() <= dst.max() {
        Bound::LowerBounded
    } else if dst.min() <= src.min() && src.max() > dst.max() {
        Bound::UpperBounded
    } else {
        Bound::BothBounded
    }
}

/// Decides which [`Bound`] relationship holds between `src` and `dst`.
pub fn classify(src: Kind, dst: Kind) -> (b: Bound)
    requires
        src.wf(),
        dst.wf(),
    ensures
        b == spec_classify(src, dst),
{
    let lower_ok = !src.min_wide().lt(dst.min_wide());
    let upper_ok = !dst.max_wide().lt(src.max_wide());
    if lower_ok && upper_ok {
        Bound::Unbounded
    } else if !lower_ok && upper_ok {
        Bound::LowerBounded
    } else if lower_ok && !upper_ok {
        Bound::UpperBounded
    } else {
        Bound::BothBounded
    }
}

/// For every ordered pair of kinds, exactly one relationship holds, and it
/// characterizes which side of the target's range a source value can miss:
/// under `Unbounded` no source value is out of range; under `LowerBounded`
/// only values below the target's minimum (equivalently, negative values);
/// under `UpperBounded` only values above the target's maximum; under
/// `BothBounded` both misses are possible.
pub proof fn lemma_classification_characterizes_checks(src: Kind, dst: Kind)
    requires
        src.wf(),
        dst.wf(),
    ensures
        spec_classify(src, dst) == Bound::Unbounded ==> forall|v: int|
            src.in_range(v) ==> dst.in_range(v),
        spec_classify(src, dst) == Bound::LowerBounded ==> forall|v: int|
            src.in_range(v) ==> (dst.in_range(v) <==> v >= 0),
        spec_classify(src, dst) == Bound::UpperBounded ==> forall|v: int|
            src.in_range(v) ==> (dst.in_range(v) <==> v <= dst.max()),
        spec_classify(src, dst) == Bound::BothBounded ==> ((exists|v: int|
            src.in_range(v) && v < dst.min()) && (exists|w: int| src.in_range(w) && w > dst.max())),
{
    if spec_classify(src, dst) == Bound::LowerBounded {
        assert(dst.min() == 0);
    }
    if spec_classify(src, dst) == Bound::BothBounded {
        assert(src.in_range(src.min()) && src.min() < dst.min());
        assert(src.in_range(src.max()) && src.max() > dst.max());
    }
}

} // verus!
