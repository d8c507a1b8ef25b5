//! Feed efficiency: a rating of a feed conversion ratio against the range
//! that is usual for the kind of livestock.

use vstd::prelude::*;

use crate::error::InvalidInput;
use crate::types::LivestockType;

verus! {

/// How a feed conversion ratio compares with the usual range.
#[derive(Debug, Clone, Copy, PartialEq, Eq, Structural)]
pub enum FeedEfficiencyRating {
    /// The ratio lies above the range: more feed than usual per unit gained.
    Poor,
    /// The ratio lies within the range, its bounds included.
    Average,
    /// The ratio lies below the range.
    Good,
}

/// A range of feed conversion ratios, both bounds included, in tenths: a
/// bound of 39 stands for a ratio of 3.9.
#[derive(Debug, Clone, Copy, PartialEq, Eq, Structural)]
pub struct FcrRange {
    pub min_tenths: u32,
    pub max_tenths: u32,
}

/// Where the feed conversion ratio of a rating comes from.
#[derive(Debug, Clone, Copy, PartialEq, Eq, Structural)]
pub enum FcrSource {
    /// It is computed from a feed intake and a weight gain.
    FromIntakeAndGain,
    /// It is given as it is.
    Given,
}

/// The range of feed conversion ratios that is usual for a kind of livestock.
pub open spec fn spec_reference_range(livestock_type: LivestockType) -> FcrRange {
    match livestock_type {
        LivestockType::Cattle => FcrRange { min_tenths: 80, max_tenths: 120 },
        LivestockType::Goat | LivestockType::Sheep => FcrRange { min_tenths: 45, max_tenths: 55 },
        LivestockType::Swine => FcrRange { min_tenths: 30, max_tenths: 39 },
        LivestockType::Chicken => FcrRange { min_tenths: 15, max_tenths: 20 },
        LivestockType::Rabbit => FcrRange { min_tenths: 35, max_tenths: 50 },
    }
}

/// The range of feed conversion ratios that is usual for a kind of livestock.
pub fn reference_range(livestock_type: LivestockType) -> (range: FcrRange)
    ensures
        range == spec_reference_range(livestock_type),
{
    match livestock_type {
        LivestockType::Cattle => FcrRange { min_tenths: 80, max_tenths: 120 },
        LivestockType::Goat | LivestockType::Sheep => FcrRange { min_tenths: 45, max_tenths: 55 },
        LivestockType::Swine => FcrRange { min_tenths: 30, max_tenths: 39 },
        LivestockType::Chicken => FcrRange { min_tenths: 15, max_tenths: 20 },
        LivestockType::Rabbit => FcrRange { min_tenths: 35, max_tenths: 50 },
    }
}

/// Rates a feed conversion ratio from how it compares with zero and with the
/// reference range.
///
/// `fcr_positive` says whether the ratio is above zero, `above_range` whether
/// it exceeds the upper bound of the range, and `below_range` whether it lies
/// under the lower bound. A ratio that is not above zero is refused. Of the
/// others, one above the range is poor, one below it is good, and one on a
/// bound or between the bounds is average.
pub fn rate_feed_efficiency(fcr_positive: bool, above_range: bool, below_range: bool) -> (rated:
    Result<FeedEfficiencyRating, InvalidInput>)
    ensures
        rated is Ok <==> fcr_positive,
        rated is Err ==> rated == Err::<FeedEfficiencyRating, InvalidInput>(
            InvalidInput::FcrNotPositive,
        ),
        rated == Ok::<FeedEfficiencyRating, InvalidInput>(FeedEfficiencyRating::Poor)
            <==> fcr_positive && above_range,
        rated == Ok::<FeedEfficiencyRating, InvalidInput>(FeedEfficiencyRating::Good)
            <==> fcr_positive && !above_range && below_range,
        rated == Ok::<FeedEfficiencyRating, InvalidInput>(FeedEfficiencyRating::Average)
            <==> fcr_positive && !above_range && !below_range,
{
    if !fcr_positive {
        return Err(InvalidInput::FcrNotPositive);
    }
    if above_range {
        Ok(FeedEfficiencyRating::Poor)
    } else if below_range {
        Ok(FeedEfficiencyRating::Good)
    } else {
        Ok(FeedEfficiencyRating::Average)
    }
}

/// Decides where the ratio of a rating is taken from, by which figures the
/// caller has given.
///
/// Feed intake and weight gain without a ratio: the ratio is computed. A
/// ratio without the other two: it is taken as given. Every other
/// combination is refused.
pub fn fcr_source(feed_intake_given: bool, weight_gain_given: bool, fcr_given: bool) -> (source:
    Result<FcrSource, InvalidInput>)
    ensures
        source == Ok::<FcrSource, InvalidInput>(FcrSource::FromIntakeAndGain)
            <==> feed_intake_given && weight_gain_given && !fcr_given,
        source == Ok::<FcrSource, InvalidInput>(FcrSource::Given)
            <==> !feed_intake_given && !weight_gain_given && fcr_given,
        source is Err <==> !(feed_intake_given && weight_gain_given && !fcr_given)
            && !(!feed_intake_given && !weight_gain_given && fcr_given),
        source is Err ==> source == Err::<FcrSource, InvalidInput>(InvalidInput::FcrSourceUnclear),
{
    if feed_intake_given && weight_gain_given && !fcr_given {
        Ok(FcrSource::FromIntakeAndGain)
    } else if !feed_intake_given && !weight_gain_given && fcr_given {
        Ok(FcrSource::Given)
    } else {
        Err(InvalidInput::FcrSourceUnclear)
    }
}

/// Every reference range starts above zero and ends above its start.
pub proof fn lemma_reference_range_is_proper(livestock_type: LivestockType)
    ensures
        0 < spec_reference_range(livestock_type).min_tenths,
        spec_reference_range(livestock_type).min_tenths < spec_reference_range(
            livestock_type,
        ).max_tenths,
{
}

} // verus!
