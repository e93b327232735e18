//! Checked operations on numbers.
//!
//! Every operation that can overflow or leave its domain is exposed as a
//! trait with a method form (`a.cadd(b)`) and a free-function form
//! (`cadd(a, b)`), both returning a `Result`: the computed value, or an
//! [`Error`] whose message embeds the operation and its operands. The
//! numeric computation itself is the underlying primitive's; the
//! implementations here only classify the failure and report it.
//!
//! Every name is the name of the unchecked operation with a `c` prefix
//! that stands for "checked": `cadd` for addition, `cilog2` for the base 2
//! integer logarithm, and so on.

use vstd::prelude::*;
use vstd::string::StringExecFns;

use crate::error::Error;

verus! {

/// Division truncated toward zero, as the primitive `/` of the signed
/// machine types behaves.
pub open spec fn trunc_div(x: int, d: int) -> int {
    if x == 0 {
        0
    } else if x > 0 && d > 0 {
        x / d
    } else if x < 0 && d < 0 {
        (x * -1) / (d * -1)
    } else if x < 0 {
        ((x * -1) / d) * -1
    } else {
        (x / (d * -1)) * -1
    }
}

/// The remainder of division truncated toward zero, as the primitive `%`
/// of the signed machine types behaves: the result takes the sign of `x`.
pub open spec fn trunc_rem(x: int, d: int) -> int {
    if x == 0 {
        0
    } else if x > 0 && d > 0 {
        x % d
    } else if x < 0 && d < 0 {
        ((x * -1) % (d * -1)) * -1
    } else if x < 0 {
        ((x * -1) % d) * -1
    } else {
        x % (d * -1)
    }
}

/// The smallest multiple of `b` at or above `a`.
pub open spec fn next_multiple_of(a: int, b: int) -> int
    recommends
        a >= 0,
        b > 0,
{
    if a % b == 0 {
        a
    } else {
        a + b - a % b
    }
}

/// The smallest power of two at or above `a` (at or above one, for a
/// zero `a`).
pub open spec fn next_power_of_two(a: nat) -> nat
    decreases a,
{
    if a <= 1 {
        1
    } else {
        2 * next_power_of_two((a + 1) / 2)
    }
}

/// Law: a division-family operation reports two different failures, and
/// they can never be confused: for the same rendering of the operands,
/// the division-by-zero message differs from the overflow message.
pub proof fn lemma_division_messages_distinct(a: Seq<char>, mid: Seq<char>, b: Seq<char>)
    ensures
        "division by zero: "@ + a + mid + b != "overflow: "@ + a + mid + b,
{
    reveal_strlit("division by zero: ");
    reveal_strlit("overflow: ");
    let s1 = "division by zero: "@ + a + mid + b;
    let s2 = "overflow: "@ + a + mid + b;
    assert(s1[0] == 'd');
    assert(s2[0] == 'o');
    assert(s1 != s2) by {
        if s1 == s2 {
            assert(s1[0] == s2[0]);
        }
    }
}

pub(crate) fn error_1(p1: &str, a: String) -> (e: Error)
    ensures
        e@.message == p1@ + a@,
        e@.backtrace is None,
{
    let mut m = String::from_str(p1);
    m.append(a.as_str());
    Error::new(m)
}

pub(crate) fn error_1c(p1: &str, a: String, p2: &str) -> (e: Error)
    ensures
        e@.message == p1@ + a@ + p2@,
        e@.backtrace is None,
{
    let mut m = String::from_str(p1);
    m.append(a.as_str());
    m.append(p2);
    proof {
        assert(m@ =~= p1@ + a@ + p2@);
    }
    Error::new(m)
}

pub(crate) fn error_2(p1: &str, a: String, p2: &str, b: String) -> (e: Error)
    ensures
        e@.message == p1@ + a@ + p2@ + b@,
        e@.backtrace is None,
{
    let mut m = String::from_str(p1);
    m.append(a.as_str());
    m.append(p2);
    m.append(b.as_str());
    proof {
        assert(m@ =~= p1@ + a@ + p2@ + b@);
    }
    Error::new(m)
}

pub(crate) fn error_2c(p1: &str, a: String, p2: &str, b: String, p3: &str) -> (e: Error)
    ensures
        e@.message == p1@ + a@ + p2@ + b@ + p3@,
        e@.backtrace is None,
{
    let mut m = String::from_str(p1);
    m.append(a.as_str());
    m.append(p2);
    m.append(b.as_str());
    m.append(p3);
    proof {
        assert(m@ =~= p1@ + a@ + p2@ + b@ + p3@);
    }
    Error::new(m)
}

/// Addition: `a + b`. Returns an error on overflow.
pub trait Cadd<Rhs = Self>: Sized {
    /// The type of the operation's result.
    type Output;

    /// Whether the operation is defined and its result representable.
    spec fn cadd_in_range(self, b: Rhs) -> bool;

    /// The result, when the operation succeeds.
    spec fn cadd_value(self, b: Rhs) -> Self::Output;

    /// The message of the error reported when it fails.
    spec fn cadd_message(self, b: Rhs) -> Seq<char>;

    /// Addition: `a + b`. Returns an error on overflow.
    fn cadd(self, b: Rhs) -> (r: Result<Self::Output, Error>)
        ensures
            r matches Ok(v) ==> self.cadd_in_range(b) && v == self.cadd_value(b),
            r matches Err(e) ==> !self.cadd_in_range(b) && e@.message == self.cadd_message(b)
                && e@.backtrace is None,
    ;
}

/// Addition: `a + b`. Returns an error on overflow.
pub fn cadd<T1: Cadd<T2>, T2>(a: T1, b: T2) -> (r: Result<T1::Output, Error>)
    ensures
        r matches Ok(v) ==> a.cadd_in_range(b) && v == a.cadd_value(b),
        r matches Err(e) ==> !a.cadd_in_range(b) && e@.message == a.cadd_message(b)
            && e@.backtrace is None,
{
    a.cadd(b)
}

/// Subtraction: `a - b`. Returns an error on overflow.
pub trait Csub<Rhs = Self>: Sized {
    /// The type of the operation's result.
    type Output;

    /// Whether the operation is defined and its result representable.
    spec fn csub_in_range(self, b: Rhs) -> bool;

    /// The result, when the operation succeeds.
    spec fn csub_value(self, b: Rhs) -> Self::Output;

    /// The message of the error reported when it fails.
    spec fn csub_message(self, b: Rhs) -> Seq<char>;

    /// Subtraction: `a - b`. Returns an error on overflow.
    fn csub(self, b: Rhs) -> (r: Result<Self::Output, Error>)
        ensures
            r matches Ok(v) ==> self.csub_in_range(b) && v == self.csub_value(b),
            r matches Err(e) ==> !self.csub_in_range(b) && e@.message == self.csub_message(b)
                && e@.backtrace is None,
    ;
}

/// Subtraction: `a - b`. Returns an error on overflow.
pub fn csub<T1: Csub<T2>, T2>(a: T1, b: T2) -> (r: Result<T1::Output, Error>)
    ensures
        r matches Ok(v) ==> a.csub_in_range(b) && v == a.csub_value(b),
        r matches Err(e) ==> !a.csub_in_range(b) && e@.message == a.csub_message(b)
            && e@.backtrace is None,
{
    a.csub(b)
}

/// Multiplication: `a * b`. Returns an error on overflow.
pub trait Cmul<Rhs = Self>: Sized {
    /// The type of the operation's result.
    type Output;

    /// Whether the operation is defined and its result representable.
    spec fn cmul_in_range(self, b: Rhs) -> bool;

    /// The result, when the operation succeeds.
    spec fn cmul_value(self, b: Rhs) -> Self::Output;

    /// The message of the error reported when it fails.
    spec fn cmul_message(self, b: Rhs) -> Seq<char>;

    /// Multiplication: `a * b`. Returns an error on overflow.
    fn cmul(self, b: Rhs) -> (r: Result<Self::Output, Error>)
        ensures
            r matches Ok(v) ==> self.cmul_in_range(b) && v == self.cmul_value(b),
            r matches Err(e) ==> !self.cmul_in_range(b) && e@.message == self.cmul_message(b)
                && e@.backtrace is None,
    ;
}

/// Multiplication: `a * b`. Returns an error on overflow.
pub fn cmul<T1: Cmul<T2>, T2>(a: T1, b: T2) -> (r: Result<T1::Output, Error>)
    ensures
        r matches Ok(v) ==> a.cmul_in_range(b) && v == a.cmul_value(b),
        r matches Err(e) ==> !a.cmul_in_range(b) && e@.message == a.cmul_message(b)
            && e@.backtrace is None,
{
    a.cmul(b)
}

/// Division: `a / b`. Returns an error on overflow or if the divisor is zero.
pub trait Cdiv<Rhs = Self>: Sized {
    /// The type of the operation's result.
    type Output;

    /// Whether the operation is defined and its result representable.
    spec fn cdiv_in_range(self, b: Rhs) -> bool;

    /// The result, when the operation succeeds.
    spec fn cdiv_value(self, b: Rhs) -> Self::Output;

    /// The message of the error reported when it fails.
    spec fn cdiv_message(self, b: Rhs) -> Seq<char>;

    /// Division: `a / b`. Returns an error on overflow or if the divisor is zero.
    fn cdiv(self, b: Rhs) -> (r: Result<Self::Output, Error>)
        ensures
            r matches Ok(v) ==> self.cdiv_in_range(b) && v == self.cdiv_value(b),
            r matches Err(e) ==> !self.cdiv_in_range(b) && e@.message == self.cdiv_message(b)
                && e@.backtrace is None,
    ;
}

/// Division: `a / b`. Returns an error on overflow or if the divisor is zero.
pub fn cdiv<T1: Cdiv<T2>, T2>(a: T1, b: T2) -> (r: Result<T1::Output, Error>)
    ensures
        r matches Ok(v) ==> a.cdiv_in_range(b) && v == a.cdiv_value(b),
        r matches Err(e) ==> !a.cdiv_in_range(b) && e@.message == a.cdiv_message(b)
            && e@.backtrace is None,
{
    a.cdiv(b)
}

/// Euclidean division. Returns an error on overflow or if the divisor is zero.
pub trait CdivEuclid<Rhs = Self>: Sized {
    /// The type of the operation's result.
    type Output;

    /// Whether the operation is defined and its result representable.
    spec fn cdiv_euclid_in_range(self, b: Rhs) -> bool;

    /// The result, when the operation succeeds.
    spec fn cdiv_euclid_value(self, b: Rhs) -> Self::Output;

    /// The message of the error reported when it fails.
    spec fn cdiv_euclid_message(self, b: Rhs) -> Seq<char>;

    /// Euclidean division. Returns an error on overflow or if the divisor is zero.
    fn cdiv_euclid(self, b: Rhs) -> (r: Result<Self::Output, Error>)
        ensures
            r matches Ok(v) ==> self.cdiv_euclid_in_range(b) && v == self.cdiv_euclid_value(b),
            r matches Err(e) ==> !self.cdiv_euclid_in_range(b) && e@.message == self.cdiv_euclid_message(b)
                && e@.backtrace is None,
    ;
}

/// Euclidean division. Returns an error on overflow or if the divisor is zero.
pub fn cdiv_euclid<T1: CdivEuclid<T2>, T2>(a: T1, b: T2) -> (r: Result<T1::Output, Error>)
    ensures
        r matches Ok(v) ==> a.cdiv_euclid_in_range(b) && v == a.cdiv_euclid_value(b),
        r matches Err(e) ==> !a.cdiv_euclid_in_range(b) && e@.message == a.cdiv_euclid_message(b)
            && e@.backtrace is None,
{
    a.cdiv_euclid(b)
}

/// Remainder: `a % b`. Returns an error on overflow or if the divisor is zero.
pub trait Crem<Rhs = Self>: Sized {
    /// The type of the operation's result.
    type Output;

    /// Whether the operation is defined and its result representable.
    spec fn crem_in_range(self, b: Rhs) -> bool;

    /// The result, when the operation succeeds.
    spec fn crem_value(self, b: Rhs) -> Self::Output;

    /// The message of the error reported when it fails.
    spec fn crem_message(self, b: Rhs) -> Seq<char>;

    /// Remainder: `a % b`. Returns an error on overflow or if the divisor is zero.
    fn crem(self, b: Rhs) -> (r: Result<Self::Output, Error>)
        ensures
            r matches Ok(v) ==> self.crem_in_range(b) && v == self.crem_value(b),
            r matches Err(e) ==> !self.crem_in_range(b) && e@.message == self.crem_message(b)
                && e@.backtrace is None,
    ;
}

/// Remainder: `a % b`. Returns an error on overflow or if the divisor is zero.
pub fn crem<T1: Crem<T2>, T2>(a: T1, b: T2) -> (r: Result<T1::Output, Error>)
    ensures
        r matches Ok(v) ==> a.crem_in_range(b) && v == a.crem_value(b),
        r matches Err(e) ==> !a.crem_in_range(b) && e@.message == a.crem_message(b)
            && e@.backtrace is None,
{
    a.crem(b)
}

/// Euclidean remainder. Returns an error on overflow or if the divisor is zero.
pub trait CremEuclid<Rhs = Self>: Sized {
    /// The type of the operation's result.
    type Output;

    /// Whether the operation is defined and its result representable.
    spec fn crem_euclid_in_range(self, b: Rhs) -> bool;

    /// The result, when the operation succeeds.
    spec fn crem_euclid_value(self, b: Rhs) -> Self::Output;

    /// The message of the error reported when it fails.
    spec fn crem_euclid_message(self, b: Rhs) -> Seq<char>;

    /// Euclidean remainder. Returns an error on overflow or if the divisor is zero.
    fn crem_euclid(self, b: Rhs) -> (r: Result<Self::Output, Error>)
        ensures
            r matches Ok(v) ==> self.crem_euclid_in_range(b) && v == self.crem_euclid_value(b),
            r matches Err(e) ==> !self.crem_euclid_in_range(b) && e@.message == self.crem_euclid_message(b)
                && e@.backtrace is None,
    ;
}

/// Euclidean remainder. Returns an error on overflow or if the divisor is zero.
pub fn crem_euclid<T1: CremEuclid<T2>, T2>(a: T1, b: T2) -> (r: Result<T1::Output, Error>)
    ensures
        r matches Ok(v) ==> a.crem_euclid_in_range(b) && v == a.crem_euclid_value(b),
        r matches Err(e) ==> !a.crem_euclid_in_range(b) && e@.message == a.crem_euclid_message(b)
            && e@.backtrace is None,
{
    a.crem_euclid(b)
}

/// Integer logarithm in an arbitrary base, rounded down. Returns an error if the number is not positive or the base is less than 2.
pub trait CILog<Rhs = Self>: Sized {
    /// The type of the operation's result.
    type Output;

    /// Whether the operation is defined and its result representable.
    spec fn cilog_in_range(self, b: Rhs) -> bool;

    /// The result, when the operation succeeds.
    spec fn cilog_value(self, b: Rhs) -> Self::Output;

    /// The message of the error reported when it fails.
    spec fn cilog_message(self, b: Rhs) -> Seq<char>;

    /// Integer logarithm in an arbitrary base, rounded down. Returns an error if the number is not positive or the base is less than 2.
    fn cilog(self, b: Rhs) -> (r: Result<Self::Output, Error>)
        ensures
            r matches Ok(v) ==> self.cilog_in_range(b) && v == self.cilog_value(b),
            r matches Err(e) ==> !self.cilog_in_range(b) && e@.message == self.cilog_message(b)
                && e@.backtrace is None,
    ;
}

/// Integer logarithm in an arbitrary base, rounded down. Returns an error if the number is not positive or the base is less than 2.
pub fn cilog<T1: CILog<T2>, T2>(a: T1, b: T2) -> (r: Result<T1::Output, Error>)
    ensures
        r matches Ok(v) ==> a.cilog_in_range(b) && v == a.cilog_value(b),
        r matches Err(e) ==> !a.cilog_in_range(b) && e@.message == a.cilog_message(b)
            && e@.backtrace is None,
{
    a.cilog(b)
}

/// Shift left: `a << b`. Returns an error if `b` is greater than or equal to the number of bits in the type.
pub trait Cshl<Rhs = Self>: Sized {
    /// The type of the operation's result.
    type Output;

    /// Whether the operation is defined and its result representable.
    spec fn cshl_in_range(self, b: Rhs) -> bool;

    /// The result, when the operation succeeds.
    spec fn cshl_value(self, b: Rhs) -> Self::Output;

    /// The message of the error reported when it fails.
    spec fn cshl_message(self, b: Rhs) -> Seq<char>;

    /// Shift left: `a << b`. Returns an error if `b` is greater than or equal to the number of bits in the type.
    fn cshl(self, b: Rhs) -> (r: Result<Self::Output, Error>)
        ensures
            r matches Ok(v) ==> self.cshl_in_range(b) && v == self.cshl_value(b),
            r matches Err(e) ==> !self.cshl_in_range(b) && e@.message == self.cshl_message(b)
                && e@.backtrace is None,
    ;
}

/// Shift left: `a << b`. Returns an error if `b` is greater than or equal to the number of bits in the type.
pub fn cshl<T1: Cshl<T2>, T2>(a: T1, b: T2) -> (r: Result<T1::Output, Error>)
    ensures
        r matches Ok(v) ==> a.cshl_in_range(b) && v == a.cshl_value(b),
        r matches Err(e) ==> !a.cshl_in_range(b) && e@.message == a.cshl_message(b)
            && e@.backtrace is None,
{
    a.cshl(b)
}

/// Shift right: `a >> b`. Returns an error if `b` is greater than or equal to the number of bits in the type.
pub trait Cshr<Rhs = Self>: Sized {
    /// The type of the operation's result.
    type Output;

    /// Whether the operation is defined and its result representable.
    spec fn cshr_in_range(self, b: Rhs) -> bool;

    /// The result, when the operation succeeds.
    spec fn cshr_value(self, b: Rhs) -> Self::Output;

    /// The message of the error reported when it fails.
    spec fn cshr_message(self, b: Rhs) -> Seq<char>;

    /// Shift right: `a >> b`. Returns an error if `b` is greater than or equal to the number of bits in the type.
    fn cshr(self, b: Rhs) -> (r: Result<Self::Output, Error>)
        ensures
            r matches Ok(v) ==> self.cshr_in_range(b) && v == self.cshr_value(b),
            r matches Err(e) ==> !self.cshr_in_range(b) && e@.message == self.cshr_message(b)
                && e@.backtrace is None,
    ;
}

/// Shift right: `a >> b`. Returns an error if `b` is greater than or equal to the number of bits in the type.
pub fn cshr<T1: Cshr<T2>, T2>(a: T1, b: T2) -> (r: Result<T1::Output, Error>)
    ensures
        r matches Ok(v) ==> a.cshr_in_range(b) && v == a.cshr_value(b),
        r matches Err(e) ==> !a.cshr_in_range(b) && e@.message == a.cshr_message(b)
            && e@.backtrace is None,
{
    a.cshr(b)
}

/// Exponentiation. Returns an error on overflow.
pub trait Cpow<Rhs = Self>: Sized {
    /// The type of the operation's result.
    type Output;

    /// Whether the operation is defined and its result representable.
    spec fn cpow_in_range(self, b: Rhs) -> bool;

    /// The result, when the operation succeeds.
    spec fn cpow_value(self, b: Rhs) -> Self::Output;

    /// The message of the error reported when it fails.
    spec fn cpow_message(self, b: Rhs) -> Seq<char>;

    /// Exponentiation. Returns an error on overflow.
    fn cpow(self, b: Rhs) -> (r: Result<Self::Output, Error>)
        ensures
            r matches Ok(v) ==> self.cpow_in_range(b) && v == self.cpow_value(b),
            r matches Err(e) ==> !self.cpow_in_range(b) && e@.message == self.cpow_message(b)
                && e@.backtrace is None,
    ;
}

/// Exponentiation. Returns an error on overflow.
pub fn cpow<T1: Cpow<T2>, T2>(a: T1, b: T2) -> (r: Result<T1::Output, Error>)
    ensures
        r matches Ok(v) ==> a.cpow_in_range(b) && v == a.cpow_value(b),
        r matches Err(e) ==> !a.cpow_in_range(b) && e@.message == a.cpow_message(b)
            && e@.backtrace is None,
{
    a.cpow(b)
}

/// Next multiple of `b` at or above `a`. Returns an error on overflow or if `b` is zero.
pub trait CnextMultipleOf<Rhs = Self>: Sized {
    /// The type of the operation's result.
    type Output;

    /// Whether the operation is defined and its result representable.
    spec fn cnext_multiple_of_in_range(self, b: Rhs) -> bool;

    /// The result, when the operation succeeds.
    spec fn cnext_multiple_of_value(self, b: Rhs) -> Self::Output;

    /// The message of the error reported when it fails.
    spec fn cnext_multiple_of_message(self, b: Rhs) -> Seq<char>;

    /// Next multiple of `b` at or above `a`. Returns an error on overflow or if `b` is zero.
    fn cnext_multiple_of(self, b: Rhs) -> (r: Result<Self::Output, Error>)
        ensures
            r matches Ok(v) ==> self.cnext_multiple_of_in_range(b) && v == self.cnext_multiple_of_value(b),
            r matches Err(e) ==> !self.cnext_multiple_of_in_range(b) && e@.message == self.cnext_multiple_of_message(b)
                && e@.backtrace is None,
    ;
}

/// Next multiple of `b` at or above `a`. Returns an error on overflow or if `b` is zero.
pub fn cnext_multiple_of<T1: CnextMultipleOf<T2>, T2>(a: T1, b: T2) -> (r: Result<T1::Output, Error>)
    ensures
        r matches Ok(v) ==> a.cnext_multiple_of_in_range(b) && v == a.cnext_multiple_of_value(b),
        r matches Err(e) ==> !a.cnext_multiple_of_in_range(b) && e@.message == a.cnext_multiple_of_message(b)
            && e@.backtrace is None,
{
    a.cnext_multiple_of(b)
}

/// Negation: `-a`. Returns an error on overflow.
pub trait Cneg: Sized {
    /// The type of the operation's result.
    type Output;

    /// Whether the operation is defined and its result representable.
    spec fn cneg_in_range(self) -> bool;

    /// The result, when the operation succeeds.
    spec fn cneg_value(self) -> Self::Output;

    /// The message of the error reported when it fails.
    spec fn cneg_message(self) -> Seq<char>;

    /// Negation: `-a`. Returns an error on overflow.
    fn cneg(self) -> (r: Result<Self::Output, Error>)
        ensures
            r matches Ok(v) ==> self.cneg_in_range() && v == self.cneg_value(),
            r matches Err(e) ==> !self.cneg_in_range() && e@.message == self.cneg_message()
                && e@.backtrace is None,
    ;
}

/// Negation: `-a`. Returns an error on overflow.
pub fn cneg<T1: Cneg>(value: T1) -> (r: Result<T1::Output, Error>)
    ensures
        r matches Ok(v) ==> value.cneg_in_range() && v == value.cneg_value(),
        r matches Err(e) ==> !value.cneg_in_range() && e@.message == value.cneg_message()
            && e@.backtrace is None,
{
    value.cneg()
}

/// Base 2 integer logarithm, rounded down. Returns an error if the number is not positive.
pub trait CILog2: Sized {
    /// The type of the operation's result.
    type Output;

    /// Whether the operation is defined and its result representable.
    spec fn cilog2_in_range(self) -> bool;

    /// The result, when the operation succeeds.
    spec fn cilog2_value(self) -> Self::Output;

    /// The message of the error reported when it fails.
    spec fn cilog2_message(self) -> Seq<char>;

    /// Base 2 integer logarithm, rounded down. Returns an error if the number is not positive.
    fn cilog2(self) -> (r: Result<Self::Output, Error>)
        ensures
            r matches Ok(v) ==> self.cilog2_in_range() && v == self.cilog2_value(),
            r matches Err(e) ==> !self.cilog2_in_range() && e@.message == self.cilog2_message()
                && e@.backtrace is None,
    ;
}

/// Base 2 integer logarithm, rounded down. Returns an error if the number is not positive.
pub fn cilog2<T1: CILog2>(value: T1) -> (r: Result<T1::Output, Error>)
    ensures
        r matches Ok(v) ==> value.cilog2_in_range() && v == value.cilog2_value(),
        r matches Err(e) ==> !value.cilog2_in_range() && e@.message == value.cilog2_message()
            && e@.backtrace is None,
{
    value.cilog2()
}

/// Base 10 integer logarithm, rounded down. Returns an error if the number is not positive.
pub trait CILog10: Sized {
    /// The type of the operation's result.
    type Output;

    /// Whether the operation is defined and its result representable.
    spec fn cilog10_in_range(self) -> bool;

    /// The result, when the operation succeeds.
    spec fn cilog10_value(self) -> Self::Output;

    /// The message of the error reported when it fails.
    spec fn cilog10_message(self) -> Seq<char>;

    /// Base 10 integer logarithm, rounded down. Returns an error if the number is not positive.
    fn cilog10(self) -> (r: Result<Self::Output, Error>)
        ensures
            r matches Ok(v) ==> self.cilog10_in_range() && v == self.cilog10_value(),
            r matches Err(e) ==> !self.cilog10_in_range() && e@.message == self.cilog10_message()
                && e@.backtrace is None,
    ;
}

/// Base 10 integer logarithm, rounded down. Returns an error if the number is not positive.
pub fn cilog10<T1: CILog10>(value: T1) -> (r: Result<T1::Output, Error>)
    ensures
        r matches Ok(v) ==> value.cilog10_in_range() && v == value.cilog10_value(),
        r matches Err(e) ==> !value.cilog10_in_range() && e@.message == value.cilog10_message()
            && e@.backtrace is None,
{
    value.cilog10()
}

/// Absolute value (signed kinds only). Returns an error on the minimum value, whose magnitude is not representable.
pub trait Cabs: Sized {
    /// The type of the operation's result.
    type Output;

    /// Whether the operation is defined and its result representable.
    spec fn cabs_in_range(self) -> bool;

    /// The result, when the operation succeeds.
    spec fn cabs_value(self) -> Self::Output;

    /// The message of the error reported when it fails.
    spec fn cabs_message(self) -> Seq<char>;

    /// Absolute value (signed kinds only). Returns an error on the minimum value, whose magnitude is not representable.
    fn cabs(self) -> (r: Result<Self::Output, Error>)
        ensures
            r matches Ok(v) ==> self.cabs_in_range() && v == self.cabs_value(),
            r matches Err(e) ==> !self.cabs_in_range() && e@.message == self.cabs_message()
                && e@.backtrace is None,
    ;
}

/// Absolute value (signed kinds only). Returns an error on the minimum value, whose magnitude is not representable.
pub fn cabs<T1: Cabs>(value: T1) -> (r: Result<T1::Output, Error>)
    ensures
        r matches Ok(v) ==> value.cabs_in_range() && v == value.cabs_value(),
        r matches Err(e) ==> !value.cabs_in_range() && e@.message == value.cabs_message()
            && e@.backtrace is None,
{
    value.cabs()
}

/// Next power of two at or above `a`. Returns an error on overflow.
pub trait CnextPowerOfTwo: Sized {
    /// The type of the operation's result.
    type Output;

    /// Whether the operation is defined and its result representable.
    spec fn cnext_power_of_two_in_range(self) -> bool;

    /// The result, when the operation succeeds.
    spec fn cnext_power_of_two_value(self) -> Self::Output;

    /// The message of the error reported when it fails.
    spec fn cnext_power_of_two_message(self) -> Seq<char>;

    /// Next power of two at or above `a`. Returns an error on overflow.
    fn cnext_power_of_two(self) -> (r: Result<Self::Output, Error>)
        ensures
            r matches Ok(v) ==> self.cnext_power_of_two_in_range() && v == self.cnext_power_of_two_value(),
            r matches Err(e) ==> !self.cnext_power_of_two_in_range() && e@.message == self.cnext_power_of_two_message()
                && e@.backtrace is None,
    ;
}

/// Next power of two at or above `a`. Returns an error on overflow.
pub fn cnext_power_of_two<T1: CnextPowerOfTwo>(value: T1) -> (r: Result<T1::Output, Error>)
    ensures
        r matches Ok(v) ==> value.cnext_power_of_two_in_range() && v == value.cnext_power_of_two_value(),
        r matches Err(e) ==> !value.cnext_power_of_two_in_range() && e@.message == value.cnext_power_of_two_message()
            && e@.backtrace is None,
{
    value.cnext_power_of_two()
}

} // verus!
