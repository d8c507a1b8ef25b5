//! Types shared by the calculators.

use vstd::prelude::*;

verus! {

/// The kinds of livestock for which reference figures are kept.
#[derive(Debug, Clone, Copy, PartialEq, Eq, Structural)]
pub enum LivestockType {
    Cattle,
    Swine,
    Chicken,
    Rabbit,
    Sheep,
    Goat,
}

} // verus!
