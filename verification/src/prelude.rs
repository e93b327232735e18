//! Exports most of the library's traits and functions.

pub use crate::convert::{
    convert_checked, convert_saturating, non_zero, Cfrom, Cinto, IntoType, SaturatingFrom,
    SaturatingInto, ToNonZero,
};
pub use crate::error::Error;
pub use crate::ops::{
    cabs, cadd, cdiv, cdiv_euclid, cilog, cilog10, cilog2, cmul, cneg, cnext_multiple_of,
    cnext_power_of_two, cpow, crem, crem_euclid, cshl, cshr, csub, CILog, CILog10, CILog2, Cabs,
    Cadd, Cdiv, CdivEuclid, Cmul, Cneg, CnextMultipleOf, CnextPowerOfTwo, Cpow, Crem, CremEuclid,
    Cshl, Cshr, Csub,
};
