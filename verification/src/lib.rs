//! Checked arithmetic and numeric conversions with descriptive errors.
//!
//! Every operation that can overflow or leave its domain is exposed as a
//! total function returning a `Result`: success carries the computed value,
//! failure carries an [`Error`] whose message names the operation and its
//! operands. Conversions between integer kinds are classified once, by the
//! relationship between the two kinds' ranges ([`kind`]), and that single
//! classification drives both the fallible and the saturating conversion
//! ([`convert`]).
//!
//! Every checked operation's name is the name of the unchecked one with a
//! `c` prefix: [`ops::cadd`] for addition, [`convert::Cinto::cinto`] for
//! `cinto`, and so on.

pub mod array;
pub mod convert;
mod convert_impls;
pub mod decimal;
mod error;
pub mod kind;
pub mod non_zero;
pub mod ops;
mod ops_impls;
pub mod prelude;
pub mod text;
pub mod wide;

pub use crate::error::Error;
