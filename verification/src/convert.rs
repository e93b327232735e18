//! Converting values to another type.
//!
//! The engine is [`convert_checked`] / [`convert_saturating`]: one routine
//! each, generic over the source and target [`Kind`], driven by the
//! four-way classification of [`crate::kind`]. The traits below are the
//! polymorphic façade over that engine: [`Cfrom`] / [`Cinto`] for checked
//! conversion, [`SaturatingFrom`] / [`SaturatingInto`] for the clamping
//! form, [`ToNonZero`] for the non-zero refinement, and [`IntoType`] for
//! spelling the target type at the call site.

use vstd::prelude::*;
use vstd::std_specs::convert::IntoSpec;
use vstd::std_specs::convert::TryIntoSpec;
use vstd::string::StringExecFns;

use crate::decimal::dec_int;
use crate::error::Error;
use crate::kind::{classify, spec_classify, Bound, Kind};
use crate::wide::Wide;

verus! {

/// The message of a checked conversion that found its value out of bounds.
pub open spec fn out_of_bounds_message(v: int, src: Kind, dst: Kind) -> Seq<char> {
    "cannot convert value "@ + dec_int(v) + " from "@ + src.name() + " to "@ + dst.name()
        + ": value is out of bounds"@
}

/// What the checked conversion returns: the value itself when the target
/// kind represents it, nothing otherwise.
pub open spec fn spec_convert_checked(src: Kind, dst: Kind, v: int) -> Option<int> {
    if dst.in_range(v) {
        Some(v)
    } else {
        None
    }
}

/// What the saturating conversion returns: the value itself when the target
/// kind represents it, else the nearer of the target's extremes.
pub open spec fn saturate(dst: Kind, v: int) -> int {
    if v < dst.min() {
        dst.min()
    } else if v > dst.max() {
        dst.max()
    } else {
        v
    }
}

fn out_of_bounds_error(v: Wide, src: Kind, dst: Kind) -> (e: Error)
    requires
        v.wf(),
        src.wf(),
        dst.wf(),
    ensures
        e@.message == out_of_bounds_message(v@, src, dst),
        e@.backtrace is None,
{
    let mut m = String::from_str("cannot convert value ");
    v.push_decimal(&mut m);
    m.append(" from ");
    m.append(src.name_str());
    m.append(" to ");
    m.append(dst.name_str());
    m.append(": value is out of bounds");
    proof {
        assert(m@ =~= out_of_bounds_message(v@, src, dst));
    }
    Error::new(m)
}

/// Converts a value of kind `src` to kind `dst`, failing with a
/// descriptive error exactly when the value is not representable in `dst`.
///
/// Which checks run is decided by the classification alone, so the checked
/// and the saturating conversion can never disagree on which values are in
/// bounds.
pub fn convert_checked(src: Kind, dst: Kind, v: Wide) -> (r: Result<Wide, Error>)
    requires
        src.wf(),
        dst.wf(),
        v.wf(),
        src.in_range(v@),
    ensures
        r matches Ok(w) ==> w.wf() && spec_convert_checked(src, dst, v@) == Some(w@) && w@ == v@,
        r matches Err(e) ==> spec_convert_checked(src, dst, v@) is None && e@.message
            == out_of_bounds_message(v@, src, dst) && e@.backtrace is None,
{
    match classify(src, dst) {
        Bound::Unbounded => Ok(v),
        Bound::LowerBounded => {
            if v.is_negative() {
                Err(out_of_bounds_error(v, src, dst))
            } else {
                Ok(v)
            }
        },
        Bound::UpperBounded => {
            if dst.max_wide().lt(v) {
                Err(out_of_bounds_error(v, src, dst))
            } else {
                Ok(v)
            }
        },
        Bound::BothBounded => {
            if v.lt(dst.min_wide()) {
                Err(out_of_bounds_error(v, src, dst))
            } else if dst.max_wide().lt(v) {
                Err(out_of_bounds_error(v, src, dst))
            } else {
                Ok(v)
            }
        },
    }
}

/// Converts a value of kind `src` to kind `dst`, clamping an out-of-range
/// value to the target's nearer extreme. Never fails.
pub fn convert_saturating(src: Kind, dst: Kind, v: Wide) -> (r: Wide)
    requires
        src.wf(),
        dst.wf(),
        v.wf(),
        src.in_range(v@),
    ensures
        r.wf(),
        r@ == saturate(dst, v@),
{
    match classify(src, dst) {
        Bound::Unbounded => v,
        Bound::LowerBounded => {
            if v.is_negative() {
                dst.min_wide()
            } else {
                v
            }
        },
        Bound::UpperBounded => {
            if dst.max_wide().lt(v) {
                dst.max_wide()
            } else {
                v
            }
        },
        Bound::BothBounded => {
            if v.lt(dst.min_wide()) {
                dst.min_wide()
            } else if dst.max_wide().lt(v) {
                dst.max_wide()
            } else {
                v
            }
        },
    }
}

/// Law: the saturating conversion always succeeds and agrees with the
/// checked conversion. Where the checked form succeeds the two return the
/// same value; where it fails the saturating form returns the target's
/// minimum (for a value below the range) or maximum (for a value above it).
pub proof fn lemma_saturating_agrees_with_checked(src: Kind, dst: Kind, v: int)
    requires
        src.wf(),
        dst.wf(),
        src.in_range(v),
    ensures
        spec_convert_checked(src, dst, v) matches Some(w) ==> saturate(dst, v) == w,
        v < dst.min() ==> spec_convert_checked(src, dst, v) is None && saturate(dst, v)
            == dst.min(),
        v > dst.max() ==> spec_convert_checked(src, dst, v) is None && saturate(dst, v)
            == dst.max(),
{
}

/// Law: a value representable in both kinds round-trips. Converting it
/// from `a` to `b` succeeds and returns it unchanged, and converting that
/// result back from `b` to `a` succeeds and returns it again.
pub proof fn lemma_round_trip(a: Kind, b: Kind, v: int)
    requires
        a.wf(),
        b.wf(),
        a.in_range(v),
        b.in_range(v),
    ensures
        spec_convert_checked(a, b, v) == Some(v),
        spec_convert_checked(b, a, v) == Some(v),
{
}

/// Checked conversion from `F` to `Self`.
///
/// Semantically this is `TryFrom` with a rich error message. Implement
/// `Cfrom` only; the corresponding [`Cinto`] comes from the blanket
/// implementation.
pub trait Cfrom<F>: Sized {
    /// Whether the conversion of `from` succeeds.
    spec fn cfrom_in_bounds(from: F) -> bool;

    /// The value the conversion of `from` returns, when it succeeds.
    spec fn cfrom_value(from: F) -> Self;

    /// The message of the error returned when the conversion fails.
    spec fn cfrom_message(from: F) -> Seq<char>;

    /// Converts `from` to `Self`, or reports why it cannot be done.
    fn cfrom(from: F) -> (r: Result<Self, Error>)
        ensures
            r matches Ok(v) ==> Self::cfrom_in_bounds(from) && v == Self::cfrom_value(from),
            r matches Err(e) ==> !Self::cfrom_in_bounds(from) && e@.message
                == Self::cfrom_message(from) && e@.backtrace is None,
    ;
}

/// Checked conversion from `Self` to `I`.
///
/// Automatically implemented whenever `I` implements [`Cfrom<Self>`];
/// see [`Cfrom`] for the main documentation.
pub trait Cinto<I>: Sized {
    /// Whether the conversion of `self` succeeds.
    spec fn cinto_in_bounds(self) -> bool;

    /// The value the conversion of `self` returns, when it succeeds.
    spec fn cinto_value(self) -> I;

    /// The message of the error returned when the conversion fails.
    spec fn cinto_message(self) -> Seq<char>;

    /// Converts `self` to `I`, or reports why it cannot be done.
    fn cinto(self) -> (r: Result<I, Error>)
        ensures
            r matches Ok(v) ==> self.cinto_in_bounds() && v == self.cinto_value(),
            r matches Err(e) ==> !self.cinto_in_bounds() && e@.message == self.cinto_message()
                && e@.backtrace is None,
    ;
}

impl<F, I: Cfrom<F>> Cinto<I> for F {
    open spec fn cinto_in_bounds(self) -> bool {
        I::cfrom_in_bounds(self)
    }

    open spec fn cinto_value(self) -> I {
        I::cfrom_value(self)
    }

    open spec fn cinto_message(self) -> Seq<char> {
        I::cfrom_message(self)
    }

    fn cinto(self) -> (r: Result<I, Error>) {
        I::cfrom(self)
    }
}

/// Saturating conversion of a number from `F` to `Self`: a value out of
/// bounds for the target type becomes the target's nearer extreme.
///
/// Implement `SaturatingFrom` only; the corresponding [`SaturatingInto`]
/// comes from the blanket implementation.
pub trait SaturatingFrom<F>: Sized {
    /// The value the conversion returns.
    spec fn saturating_from_value(from: F) -> Self;

    /// Converts `from` to `Self`, clamping an out-of-range value.
    fn saturating_from(from: F) -> (r: Self)
        ensures
            r == Self::saturating_from_value(from),
    ;
}

/// Saturating conversion of a number from `Self` to `I`.
///
/// Automatically implemented whenever `I` implements
/// [`SaturatingFrom<Self>`]; see [`SaturatingFrom`] for the main
/// documentation.
pub trait SaturatingInto<I>: Sized {
    /// The value the conversion returns.
    spec fn saturating_into_value(self) -> I;

    /// Converts `self` to `I`, clamping an out-of-range value.
    fn saturating_into(self) -> (r: I)
        ensures
            r == self.saturating_into_value(),
    ;
}

impl<F, I: SaturatingFrom<F>> SaturatingInto<I> for F {
    open spec fn saturating_into_value(self) -> I {
        I::saturating_from_value(self)
    }

    fn saturating_into(self) -> (r: I) {
        I::saturating_from(self)
    }
}

/// Conversion from an integer type to the corresponding non-zero type.
///
/// The zero value is the unique, statically known forbidden value, so this
/// is a two-outcome check, not part of the four-way classification.
pub trait ToNonZero: Sized {
    /// The non-zero refinement of `Self`.
    type NonZero;

    /// Whether `self` is the zero value.
    spec fn is_zero_value(self) -> bool;

    /// The refined value, viewed back in the base kind.
    spec fn base_of(v: Self::NonZero) -> Self;

    /// Refines `self`, failing exactly on the zero value.
    fn to_non_zero(self) -> (r: Result<Self::NonZero, Error>)
        ensures
            r matches Ok(v) ==> !self.is_zero_value() && Self::base_of(v) == self,
            r matches Err(e) ==> self.is_zero_value() && e@.message == "unexpected zero value"@
                && e@.backtrace is None,
    ;
}

/// Conversion from an integer value to the corresponding non-zero type:
/// the free-function form of [`ToNonZero::to_non_zero`].
pub fn non_zero<T: ToNonZero>(a: T) -> (r: Result<T::NonZero, Error>)
    ensures
        r matches Ok(v) ==> !a.is_zero_value() && T::base_of(v) == a,
        r matches Err(e) ==> a.is_zero_value() && e@.message == "unexpected zero value"@
            && e@.backtrace is None,
{
    a.to_non_zero()
}

/// Extension trait that enables `.into_type::<T>()` syntax, for
/// [`Cinto`], [`Into`], [`TryInto`] and [`SaturatingInto`].
///
/// Replacing an unchecked cast (`number as u32`) with a conversion method
/// often runs into type inference errors when the context does not pin the
/// target type down. These methods take the target type as an explicit
/// argument instead, so no rearrangement of the expression is needed.
///
/// The trait is implemented for all (sized) types; each method carries its
/// own bound requiring the corresponding conversion trait.
pub trait IntoType: Sized {
    /// An alternative to `.into()` that allows specifying the target type.
    fn into_type<T>(self) -> (r: T) where Self: Into<T>
        ensures
            <Self as vstd::std_specs::convert::IntoSpec<T>>::obeys_into_spec() ==> r
                == self.into_spec(),
    {
        self.into()
    }

    /// An alternative to `.try_into()` that allows specifying the target
    /// type.
    fn try_into_type<T>(self) -> (r: Result<T, <Self as TryInto<T>>::Error>) where
        Self: TryInto<T>,

        ensures
            <Self as vstd::std_specs::convert::TryIntoSpec<T>>::obeys_try_into_spec() ==> r
                == self.try_into_spec(),
    {
        self.try_into()
    }

    /// An alternative to `.cinto()` that allows specifying the target type.
    fn cinto_type<T>(self) -> (r: Result<T, Error>) where Self: Cinto<T>
        ensures
            r matches Ok(v) ==> self.cinto_in_bounds() && v == self.cinto_value(),
            r matches Err(e) ==> !self.cinto_in_bounds() && e@.message == self.cinto_message()
                && e@.backtrace is None,
    {
        self.cinto()
    }

    /// An alternative to `.saturating_into()` that allows specifying the
    /// target type.
    fn saturating_into_type<T>(self) -> (r: T) where Self: SaturatingInto<T>
        ensures
            r == self.saturating_into_value(),
    {
        self.saturating_into()
    }
}

impl<T> IntoType for T {

}

} // verus!
