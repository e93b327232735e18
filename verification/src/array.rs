//! Conversions from slices to fixed-length arrays.
//!
//! The conversion fails exactly when the slice's length differs from the
//! required fixed length; the error message reports both lengths and a
//! bounded preview of the slice's contents.

use vstd::prelude::*;
use vstd::slice::slice_index_get;
use vstd::string::StringExecFns;

use crate::decimal::{dec_int, dec_nat, i128_to_decimal, u128_to_decimal};
use crate::error::Error;

verus! {

/// How many elements an error message renders in full; longer slices are
/// elided to the first and last half of this many, with an ellipsis
/// between.
pub const PREVIEW_LIMIT: usize = 32;

/// A value that renders itself as decimal text in error messages.
pub trait Decimal: Sized {
    /// The rendered text.
    spec fn decimal_spec(self) -> Seq<char>;

    /// Renders the value.
    fn decimal(&self) -> (s: String)
        ensures
            s@ == self.decimal_spec(),
    ;
}

/// The elements of `s`, each rendered as decimal text, joined by commas.
pub open spec fn rendered_elems<T: Decimal>(s: Seq<T>) -> Seq<char>
    decreases s.len(),
{
    if s.len() == 0 {
        Seq::empty()
    } else if s.len() == 1 {
        s[0].decimal_spec()
    } else {
        rendered_elems(s.drop_last()) + ", "@ + s.last().decimal_spec()
    }
}

/// The preview of a slice in an error message: all elements in brackets,
/// or, past [`PREVIEW_LIMIT`], the first and last sixteen around a quoted
/// ellipsis.
pub open spec fn slice_preview<T: Decimal>(s: Seq<T>) -> Seq<char> {
    if s.len() <= PREVIEW_LIMIT {
        "["@ + rendered_elems(s) + "]"@
    } else {
        "["@ + rendered_elems(s.take(16)) + ", \"...\", "@ + rendered_elems(
            s.skip(s.len() - 16),
        ) + "]"@
    }
}

/// The message of a failed slice-to-array conversion.
pub open spec fn slice_to_array_message<T: Decimal>(target_len: int, s: Seq<T>) -> Seq<char> {
    "expected slice of length "@ + dec_nat(target_len as nat) + ", got length "@ + dec_nat(
        s.len(),
    ) + ": "@ + slice_preview(s)
}

fn push_elems<T: Decimal>(s: &[T], lo: usize, hi: usize, out: &mut String)
    requires
        lo <= hi <= s@.len(),
    ensures
        final(out)@ == old(out)@ + rendered_elems(s@.subrange(lo as int, hi as int)),
{
    let ghost prefix = out@;
    let mut i: usize = lo;
    proof {
        assert(out@ =~= prefix + rendered_elems(s@.subrange(lo as int, lo as int)));
    }
    while i < hi
        invariant
            lo <= i <= hi <= s@.len(),
            out@ == prefix + rendered_elems(s@.subrange(lo as int, i as int)),
        decreases hi - i,
    {
        if i > lo {
            out.append(", ");
        }
        let d = slice_index_get(s, i).decimal();
        out.append(d.as_str());
        proof {
            let sub = s@.subrange(lo as int, i + 1 as int);
            assert(sub.drop_last() =~= s@.subrange(lo as int, i as int));
            assert(sub.last() == s@[i as int]);
            if i == lo {
                assert(out@ =~= prefix + rendered_elems(sub));
            } else {
                assert(out@ =~= prefix + rendered_elems(sub));
            }
        }
        i = i + 1;
    }
}

fn push_preview<T: Decimal>(s: &[T], out: &mut String)
    ensures
        final(out)@ == old(out)@ + slice_preview(s@),
{
    let ghost prefix = out@;
    out.append("[");
    if s.len() <= PREVIEW_LIMIT {
        push_elems(s, 0, s.len(), out);
        proof {
            assert(s@.subrange(0, s@.len() as int) =~= s@);
        }
    } else {
        push_elems(s, 0, 16, out);
        out.append(", \"...\", ");
        push_elems(s, s.len() - 16, s.len(), out);
        proof {
            assert(s@.subrange(0, 16) =~= s@.take(16));
            assert(s@.subrange(s@.len() - 16, s@.len() as int) =~= s@.skip(s@.len() - 16));
        }
    }
    out.append("]");
    proof {
        assert(out@ =~= prefix + slice_preview(s@));
    }
}

/// The error reported when a slice's length does not match the required
/// fixed length: it states both lengths and a bounded preview of the
/// contents.
pub fn slice_to_array_error<T: Decimal>(target_len: usize, value: &[T]) -> (e: Error)
    ensures
        e@.message == slice_to_array_message::<T>(target_len as int, value@),
        e@.backtrace is None,
{
    let mut m = String::from_str("expected slice of length ");
    let t = u128_to_decimal(target_len as u128);
    m.append(t.as_str());
    m.append(", got length ");
    let l = u128_to_decimal(value.len() as u128);
    m.append(l.as_str());
    m.append(": ");
    push_preview(value, &mut m);
    proof {
        assert(m@ =~= slice_to_array_message::<T>(target_len as int, value@));
    }
    Error::new(m)
}

/// Relies on the standard library's `TryFrom<&[T]>` for `[T; N]`: the
/// conversion succeeds exactly when the slice's length is `N`, copying
/// the elements in order.
#[verifier::external_body]
fn try_slice_to_array<T: Copy, const N: usize>(s: &[T]) -> (r: Option<[T; N]>)
    ensures
        r matches Some(a) ==> s@.len() == N && a@ == s@,
        r matches None ==> s@.len() != N,
{
    match <[T; N]>::try_from(s) {
        Ok(a) => Some(a),
        Err(_) => None,
    }
}

/// Converts a slice into an array of the fixed length `N`, preserving
/// element order and values; fails, reporting both lengths and a preview
/// of the contents, exactly when the slice's length is not `N`.
pub fn array_from_slice<T: Copy + Decimal, const N: usize>(from: &[T]) -> (r: Result<
    [T; N],
    Error,
>)
    ensures
        r matches Ok(a) ==> from@.len() == N && a@ == from@,
        r matches Err(e) ==> from@.len() != N && e@.message == slice_to_array_message::<T>(
            N as int,
            from@,
        ) && e@.backtrace is None,
{
    match try_slice_to_array(from) {
        Some(a) => Ok(a),
        None => Err(slice_to_array_error(N, from)),
    }
}

/// Converts a vector into an array of the fixed length `N`, preserving
/// element order and values; fails, reporting both lengths and a preview
/// of the contents, exactly when the vector's length is not `N`.
pub fn array_from_vec<T: Copy + Decimal, const N: usize>(from: &Vec<T>) -> (r: Result<
    [T; N],
    Error,
>)
    ensures
        r matches Ok(a) ==> from@.len() == N && a@ == from@,
        r matches Err(e) ==> from@.len() != N && e@.message == slice_to_array_message::<T>(
            N as int,
            from@,
        ) && e@.backtrace is None,
{
    array_from_slice(from.as_slice())
}

impl Decimal for u8 {
    open spec fn decimal_spec(self) -> Seq<char> {
        dec_nat(self as nat)
    }

    fn decimal(&self) -> (s: String) {
        u128_to_decimal(*self as u128)
    }
}

impl Decimal for u16 {
    open spec fn decimal_spec(self) -> Seq<char> {
        dec_nat(self as nat)
    }

    fn decimal(&self) -> (s: String) {
        u128_to_decimal(*self as u128)
    }
}

impl Decimal for u32 {
    open spec fn decimal_spec(self) -> Seq<char> {
        dec_nat(self as nat)
    }

    fn decimal(&self) -> (s: String) {
        u128_to_decimal(*self as u128)
    }
}

impl Decimal for u64 {
    open spec fn decimal_spec(self) -> Seq<char> {
        dec_nat(self as nat)
    }

    fn decimal(&self) -> (s: String) {
        u128_to_decimal(*self as u128)
    }
}

impl Decimal for u128 {
    open spec fn decimal_spec(self) -> Seq<char> {
        dec_nat(self as nat)
    }

    fn decimal(&self) -> (s: String) {
        u128_to_decimal(*self as u128)
    }
}

impl Decimal for usize {
    open spec fn decimal_spec(self) -> Seq<char> {
        dec_nat(self as nat)
    }

    fn decimal(&self) -> (s: String) {
        u128_to_decimal(*self as u128)
    }
}

impl Decimal for i8 {
    open spec fn decimal_spec(self) -> Seq<char> {
        dec_int(self as int)
    }

    fn decimal(&self) -> (s: String) {
        i128_to_decimal(*self as i128)
    }
}

impl Decimal for i16 {
    open spec fn decimal_spec(self) -> Seq<char> {
        dec_int(self as int)
    }

    fn decimal(&self) -> (s: String) {
        i128_to_decimal(*self as i128)
    }
}

impl Decimal for i32 {
    open spec fn decimal_spec(self) -> Seq<char> {
        dec_int(self as int)
    }

    fn decimal(&self) -> (s: String) {
        i128_to_decimal(*self as i128)
    }
}

impl Decimal for i64 {
    open spec fn decimal_spec(self) -> Seq<char> {
        dec_int(self as int)
    }

    fn decimal(&self) -> (s: String) {
        i128_to_decimal(*self as i128)
    }
}

impl Decimal for i128 {
    open spec fn decimal_spec(self) -> Seq<char> {
        dec_int(self as int)
    }

    fn decimal(&self) -> (s: String) {
        i128_to_decimal(*self as i128)
    }
}

impl Decimal for isize {
    open spec fn decimal_spec(self) -> Seq<char> {
        dec_int(self as int)
    }

    fn decimal(&self) -> (s: String) {
        i128_to_decimal(*self as i128)
    }
}

} // verus!
