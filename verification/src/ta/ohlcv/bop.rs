use vstd::prelude::*;

use crate::helper::{check_series_lengths_first, series_outcome_lengths_first};
use crate::{KandError, TAPeriod};

verus! {

/// The lookback of the Balance of Power (BOP): zero, as BOP needs no history.
pub open spec fn spec_lookback() -> Result<usize, KandError> {
    Ok(0)
}

/// Returns the lookback period required for the Balance of Power (BOP), the number of leading
/// outputs that stay undefined.
pub fn lookback() -> (r: Result<TAPeriod, KandError>)
    ensures
        r == spec_lookback(),
{
    Ok(0)
}

/// Checks the inputs of `bop`: an empty input, then series whose lengths differ.
/// `len` is the length of the first input series and `other_lens` those of the other
/// input and output series. Returns the lookback (zero).
pub fn validate(len: usize, other_lens: &[usize]) -> (r: Result<usize, KandError>)
    ensures
        r == series_outcome_lengths_first(len, other_lens@, 0),
{
    check_series_lengths_first(len, other_lens, 0)
}

/// The lookback is 0, whatever the input: every output is defined.
pub proof fn lemma_lookback_formula()
    ensures
        spec_lookback() == Ok::<usize, KandError>(0),
{
}

} // verus!
