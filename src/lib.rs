//! Exposure estimation from camera capture metadata, in exact APEX arithmetic.
//!
//! Values that the photographic formulas take a logarithm or a power of are
//! carried as exact fractions; an estimate is an APEX value of the form
//! `offset + log2(log_arg)`, whose f-number is `2^(value / 2)`.
use vstd::prelude::*;

pub mod exposure;
pub mod fraction;
pub mod scan;
