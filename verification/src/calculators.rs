//! Calculators for growth and feed figures.
//!
//! Weights, feed masses and ratios are measured quantities with fractional
//! parts, and the arithmetic on them belongs to the caller. The modules here
//! hold what is decided about such figures: whether they can be worked with,
//! in which order they are checked, the reference ranges, and the rating.

pub mod feed;
pub mod growth;
