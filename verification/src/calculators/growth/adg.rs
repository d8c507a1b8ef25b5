//! Average daily gain: the weight an animal gains per day over a measurement
//! period, `(final_weight - initial_weight) / days`.

use vstd::prelude::*;

use crate::error::InvalidInput;

verus! {

/// Decides whether the figures of a measurement period allow a daily gain to
/// be computed.
///
/// `days` is the length of the period. `final_above_initial` says whether the
/// final weight exceeds the initial weight, and `weights_positive` whether
/// both weights are above zero. The checks are made in that order, and the
/// first that fails is reported.
pub fn check_adg_inputs(days: usize, final_above_initial: bool, weights_positive: bool) -> (checked:
    Result<(), InvalidInput>)
    ensures
        checked is Ok <==> days > 0 && final_above_initial && weights_positive,
        checked == Err::<(), InvalidInput>(InvalidInput::ZeroDays) <==> days == 0,
        checked == Err::<(), InvalidInput>(InvalidInput::FinalWeightNotAboveInitial) <==> days > 0
            && !final_above_initial,
        checked == Err::<(), InvalidInput>(InvalidInput::WeightNotPositive) <==> days > 0
            && final_above_initial && !weights_positive,
{
    if days == 0 {
        return Err(InvalidInput::ZeroDays);
    }
    if !final_above_initial {
        return Err(InvalidInput::FinalWeightNotAboveInitial);
    }
    if !weights_positive {
        return Err(InvalidInput::WeightNotPositive);
    }
    Ok(())
}

} // verus!
