//! Hysteresis comparison used to debounce values that straddle a threshold,
//! such as the field side of a tracked ball around the centerline.

use vstd::prelude::*;

verus! {

/// What the hysteresis comparison returns: the threshold is lowered by the
/// hysteresis margin while the previous answer was "greater", and raised by
/// it while the previous answer was "not greater".
pub open spec fn spec_greater_than_with_hysteresis(
    last: bool,
    value: int,
    threshold: int,
    hysteresis: int,
) -> bool {
    if last {
        value > threshold - hysteresis
    } else {
        value > threshold + hysteresis
    }
}

/// Compares `value` against `threshold`, with a symmetric hysteresis band
/// that the value must fully cross before the answer flips away from `last`.
pub fn greater_than_with_hysteresis(
    last: bool,
    value: i64,
    threshold: i64,
    hysteresis: i64,
) -> (greater: bool)
    requires
        0 <= hysteresis,
        i64::MIN <= threshold - hysteresis,
        threshold + hysteresis <= i64::MAX,
    ensures
        greater == spec_greater_than_with_hysteresis(last, value as int, threshold as int, hysteresis as int),
{
    if last {
        value > threshold - hysteresis
    } else {
        value > threshold + hysteresis
    }
}

/// Inside the hysteresis band the answer never flips: for any value whose
/// distance from the threshold does not exceed the hysteresis margin (left
/// edge excluded, since a "greater" answer already holds strictly above it),
/// the comparison returns the previous answer unchanged.
pub proof fn lemma_hysteresis_holds_inside_band(
    last: bool,
    value: int,
    threshold: int,
    hysteresis: int,
)
    requires
        0 <= hysteresis,
        threshold - hysteresis < value <= threshold + hysteresis,
    ensures
        spec_greater_than_with_hysteresis(last, value, threshold, hysteresis) == last,
{
}

/// Outside the band the answer is forced, whatever the previous answer was:
/// strictly above the raised threshold it is "greater", and at or below the
/// lowered threshold it is "not greater".
pub proof fn lemma_hysteresis_flips_past_band(
    last: bool,
    value: int,
    threshold: int,
    hysteresis: int,
)
    requires
        0 <= hysteresis,
    ensures
        value > threshold + hysteresis
            ==> spec_greater_than_with_hysteresis(last, value, threshold, hysteresis),
        value <= threshold - hysteresis
            ==> !spec_greater_than_with_hysteresis(last, value, threshold, hysteresis),
{
}

} // verus!
