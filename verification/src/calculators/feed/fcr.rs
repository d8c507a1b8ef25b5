//! Feed conversion ratio: the feed consumed per unit of weight gained,
//! `feed_intake / weight_gain`. A lower ratio means better use of the feed.

use vstd::prelude::*;

use crate::error::InvalidInput;

verus! {

/// Decides whether a feed intake and a weight gain allow a ratio to be
/// computed.
///
/// `feed_intake_positive` says whether the feed intake is above zero, and
/// `weight_gain_positive` whether the weight gain is. The feed intake is
/// checked first.
pub fn check_fcr_inputs(feed_intake_positive: bool, weight_gain_positive: bool) -> (checked: Result<
    (),
    InvalidInput,
>)
    ensures
        checked is Ok <==> feed_intake_positive && weight_gain_positive,
        checked == Err::<(), InvalidInput>(InvalidInput::FeedIntakeNotPositive)
            <==> !feed_intake_positive,
        checked == Err::<(), InvalidInput>(InvalidInput::WeightGainNotPositive)
            <==> feed_intake_positive && !weight_gain_positive,
{
    if !feed_intake_positive {
        return Err(InvalidInput::FeedIntakeNotPositive);
    }
    if !weight_gain_positive {
        return Err(InvalidInput::WeightGainNotPositive);
    }
    Ok(())
}

} // verus!
