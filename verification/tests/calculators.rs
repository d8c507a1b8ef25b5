//! The rules of the calculators, driven with measured figures the way a
//! caller drives them.

use livestock_rs::calculators::feed::efficiency::{
    fcr_source, rate_feed_efficiency, reference_range, FcrRange, FcrSource, FeedEfficiencyRating,
};
use livestock_rs::calculators::feed::fcr::check_fcr_inputs;
use livestock_rs::calculators::growth::adg::check_adg_inputs;
use livestock_rs::error::InvalidInput;
use livestock_rs::types::LivestockType;

fn calculate_adg(initial_weight: f64, final_weight: f64, days: usize) -> Result<f64, InvalidInput> {
    check_adg_inputs(
        days,
        final_weight > initial_weight,
        final_weight > 0.0 && initial_weight > 0.0,
    )?;
    Ok((final_weight - initial_weight) / days as f64)
}

fn calculate_fcr(feed_intake: f64, weight_gain: f64) -> Result<f64, InvalidInput> {
    check_fcr_inputs(feed_intake > 0.0, weight_gain > 0.0)?;
    Ok(feed_intake / weight_gain)
}

fn calculate_feed_efficiency(
    fcr: f64,
    livestock_type: LivestockType,
) -> Result<(FeedEfficiencyRating, f64, f64), InvalidInput> {
    let range = reference_range(livestock_type);
    let min_fcr = f64::from(range.min_tenths) / 10.0;
    let max_fcr = f64::from(range.max_tenths) / 10.0;
    let rating = rate_feed_efficiency(fcr > 0.0, fcr > max_fcr, fcr < min_fcr)?;
    Ok((rating, min_fcr, max_fcr))
}

#[test]
fn test_calculate_adg() {
    let adg_test_cases = [
        (100.0, 150.0, 50, 1.0),
        (100.0, 200.0, 100, 1.0),
        (100.0, 200.0, 50, 2.0),
        (100.0, 150.0, 100, 0.5),
    ];

    for (initial_weight, final_weight, days, expected) in adg_test_cases.iter() {
        let result = calculate_adg(*initial_weight, *final_weight, *days);
        assert!(result.is_ok());
        assert_eq!(result.unwrap(), *expected);
    }
}

#[test]
fn test_calculate_adg_zero_days() {
    let result = calculate_adg(100.0, 150.0, 0);
    assert!(result.is_err());
    assert_eq!(result, Err(InvalidInput::ZeroDays));
}

#[test]
fn test_calculate_adg_negative_weight() {
    let result = calculate_adg(-100.0, 150.0, 50);
    assert!(result.is_err());
    assert_eq!(result, Err(InvalidInput::WeightNotPositive));
}

#[test]
fn test_calculate_adg_negative_final_weight() {
    let result = calculate_adg(100.0, -150.0, 50);
    assert!(result.is_err());
    assert_eq!(result, Err(InvalidInput::FinalWeightNotAboveInitial));
}

#[test]
fn test_calculate_adg_negative_initial_weight() {
    let result = calculate_adg(-100.0, 150.0, 50);
    assert!(result.is_err());
}

#[test]
fn a_final_weight_that_is_not_above_the_initial_is_refused() {
    assert_eq!(calculate_adg(150.0, 100.0, 50), Err(InvalidInput::FinalWeightNotAboveInitial));
    assert_eq!(calculate_adg(100.0, 100.0, 50), Err(InvalidInput::FinalWeightNotAboveInitial));
    assert_eq!(calculate_adg(0.0, 100.0, 50), Err(InvalidInput::WeightNotPositive));
}

#[test]
fn the_days_are_checked_before_the_weights() {
    assert_eq!(check_adg_inputs(0, false, false), Err(InvalidInput::ZeroDays));
    assert_eq!(check_adg_inputs(0, true, false), Err(InvalidInput::ZeroDays));
    assert_eq!(check_adg_inputs(0, false, true), Err(InvalidInput::ZeroDays));
    assert_eq!(check_adg_inputs(0, true, true), Err(InvalidInput::ZeroDays));
    assert_eq!(check_adg_inputs(1, false, false), Err(InvalidInput::FinalWeightNotAboveInitial));
    assert_eq!(check_adg_inputs(1, false, true), Err(InvalidInput::FinalWeightNotAboveInitial));
    assert_eq!(check_adg_inputs(1, true, false), Err(InvalidInput::WeightNotPositive));
    assert_eq!(check_adg_inputs(1, true, true), Ok(()));
    assert_eq!(check_adg_inputs(usize::MAX, true, true), Ok(()));
}

#[test]
fn test_calculate_fcr() {
    let fcr_test_cases = [
        (100.0, 300.0, 0.3333333333333333),
        (100.0, 200.0, 0.5),
        (200.0, 100.0, 2.0),
        (150.0, 100.0, 1.5),
    ];

    for (feed_intake, weight_gain, expected) in fcr_test_cases.iter() {
        let result = calculate_fcr(*feed_intake, *weight_gain);
        assert!(result.is_ok());
        assert_eq!(result.unwrap(), *expected);
    }
}

#[test]
fn test_calculate_fcr_zero_feed_intake() {
    let result = calculate_fcr(0.0, 150.0);
    assert!(result.is_err());
    assert_eq!(result, Err(InvalidInput::FeedIntakeNotPositive));
}

#[test]
fn test_calculate_fcr_zero_weight_gain() {
    let result = calculate_fcr(100.0, 0.0);
    assert!(result.is_err());
    assert_eq!(result, Err(InvalidInput::WeightGainNotPositive));
}

#[test]
fn the_feed_intake_is_checked_before_the_weight_gain() {
    assert_eq!(check_fcr_inputs(false, false), Err(InvalidInput::FeedIntakeNotPositive));
    assert_eq!(check_fcr_inputs(false, true), Err(InvalidInput::FeedIntakeNotPositive));
    assert_eq!(check_fcr_inputs(true, false), Err(InvalidInput::WeightGainNotPositive));
    assert_eq!(check_fcr_inputs(true, true), Ok(()));
}

#[test]
fn test_calculate_feed_efficiency() {
    let feed_efficiency_test_cases = [
        (10.0, LivestockType::Cattle, FeedEfficiencyRating::Average),
        (4.0, LivestockType::Cattle, FeedEfficiencyRating::Good),
        (2.0, LivestockType::Cattle, FeedEfficiencyRating::Good),
        (15.0, LivestockType::Cattle, FeedEfficiencyRating::Poor),
        (5.0, LivestockType::Goat, FeedEfficiencyRating::Average),
        (4.5, LivestockType::Goat, FeedEfficiencyRating::Average),
        (5.5, LivestockType::Goat, FeedEfficiencyRating::Average),
        (3.0, LivestockType::Swine, FeedEfficiencyRating::Average),
        (3.9, LivestockType::Swine, FeedEfficiencyRating::Average),
        (1.5, LivestockType::Chicken, FeedEfficiencyRating::Average),
        (2.0, LivestockType::Chicken, FeedEfficiencyRating::Average),
        (3.5, LivestockType::Rabbit, FeedEfficiencyRating::Average),
        (5.0, LivestockType::Rabbit, FeedEfficiencyRating::Average),
    ];

    for (fcr, livestock_type, expected) in feed_efficiency_test_cases.iter() {
        let result = calculate_feed_efficiency(*fcr, livestock_type.clone());
        assert!(result.is_ok());
        assert_eq!(result.unwrap().0, *expected);
    }
}

#[test]
fn test_calculate_feed_efficiency_zero_fcr() {
    let result = calculate_feed_efficiency(0.0, LivestockType::Cattle);
    assert!(result.is_err());
    assert_eq!(result, Err(InvalidInput::FcrNotPositive));
}

#[test]
fn a_ratio_just_outside_the_range_is_not_average() {
    let cases = [
        (12.000001, LivestockType::Cattle, FeedEfficiencyRating::Poor),
        (7.999999, LivestockType::Cattle, FeedEfficiencyRating::Good),
        (5.500001, LivestockType::Sheep, FeedEfficiencyRating::Poor),
        (4.499999, LivestockType::Sheep, FeedEfficiencyRating::Good),
        (3.900001, LivestockType::Swine, FeedEfficiencyRating::Poor),
        (2.999999, LivestockType::Swine, FeedEfficiencyRating::Good),
        (2.000001, LivestockType::Chicken, FeedEfficiencyRating::Poor),
        (1.499999, LivestockType::Chicken, FeedEfficiencyRating::Good),
        (5.000001, LivestockType::Rabbit, FeedEfficiencyRating::Poor),
        (3.499999, LivestockType::Rabbit, FeedEfficiencyRating::Good),
    ];

    for (fcr, livestock_type, expected) in cases.iter() {
        assert_eq!(calculate_feed_efficiency(*fcr, *livestock_type).unwrap().0, *expected);
    }
}

#[test]
fn a_ratio_that_is_not_above_zero_is_refused() {
    assert_eq!(calculate_feed_efficiency(-1.0, LivestockType::Goat), Err(InvalidInput::FcrNotPositive));
    assert_eq!(calculate_feed_efficiency(f64::NAN, LivestockType::Goat), Err(InvalidInput::FcrNotPositive));
    assert_eq!(rate_feed_efficiency(false, false, false), Err(InvalidInput::FcrNotPositive));
    assert_eq!(rate_feed_efficiency(false, true, false), Err(InvalidInput::FcrNotPositive));
    assert_eq!(rate_feed_efficiency(false, false, true), Err(InvalidInput::FcrNotPositive));
    assert_eq!(rate_feed_efficiency(false, true, true), Err(InvalidInput::FcrNotPositive));
}

#[test]
fn the_upper_bound_is_looked_at_first() {
    assert_eq!(rate_feed_efficiency(true, true, false), Ok(FeedEfficiencyRating::Poor));
    assert_eq!(rate_feed_efficiency(true, true, true), Ok(FeedEfficiencyRating::Poor));
    assert_eq!(rate_feed_efficiency(true, false, true), Ok(FeedEfficiencyRating::Good));
    assert_eq!(rate_feed_efficiency(true, false, false), Ok(FeedEfficiencyRating::Average));
}

#[test]
fn every_kind_of_livestock_has_its_reference_range() {
    let ranges = [
        (LivestockType::Cattle, 80, 120, 8.0, 12.0),
        (LivestockType::Goat, 45, 55, 4.5, 5.5),
        (LivestockType::Sheep, 45, 55, 4.5, 5.5),
        (LivestockType::Swine, 30, 39, 3.0, 3.9),
        (LivestockType::Chicken, 15, 20, 1.5, 2.0),
        (LivestockType::Rabbit, 35, 50, 3.5, 5.0),
    ];

    for (livestock_type, min_tenths, max_tenths, min_fcr, max_fcr) in ranges.iter() {
        let range = reference_range(*livestock_type);
        assert_eq!(range, FcrRange { min_tenths: *min_tenths, max_tenths: *max_tenths });
        assert!(0 < range.min_tenths && range.min_tenths < range.max_tenths);
        let (_, low, high) = calculate_feed_efficiency(1.0, *livestock_type).unwrap();
        assert_eq!(low, *min_fcr);
        assert_eq!(high, *max_fcr);
    }
}

#[test]
fn the_ratio_comes_from_one_source() {
    assert_eq!(fcr_source(true, true, false), Ok(FcrSource::FromIntakeAndGain));
    assert_eq!(fcr_source(false, false, true), Ok(FcrSource::Given));
    assert_eq!(fcr_source(false, false, false), Err(InvalidInput::FcrSourceUnclear));
    assert_eq!(fcr_source(true, false, false), Err(InvalidInput::FcrSourceUnclear));
    assert_eq!(fcr_source(false, true, false), Err(InvalidInput::FcrSourceUnclear));
    assert_eq!(fcr_source(true, false, true), Err(InvalidInput::FcrSourceUnclear));
    assert_eq!(fcr_source(false, true, true), Err(InvalidInput::FcrSourceUnclear));
    assert_eq!(fcr_source(true, true, true), Err(InvalidInput::FcrSourceUnclear));
}

#[test]
fn every_refusal_has_its_sentence() {
    assert_eq!(InvalidInput::ZeroDays.message(), "Number of days cannot be zero.");
    assert_eq!(
        InvalidInput::FinalWeightNotAboveInitial.message(),
        "Final weight must be greater than initial weight."
    );
    assert_eq!(InvalidInput::WeightNotPositive.message(), "Weights must be greater than zero.");
    assert_eq!(InvalidInput::FeedIntakeNotPositive.message(), "Feed intake must be greater than 0.");
    assert_eq!(InvalidInput::WeightGainNotPositive.message(), "Weight gain must be greater than 0.");
    assert_eq!(
        InvalidInput::FcrNotPositive.message(),
        "Feed Conversion Ratio (FCR) must be greater than 0."
    );
    assert_eq!(
        InvalidInput::FcrSourceUnclear.message(),
        "Either feed intake and weight gain or FCR must be provided."
    );
}
