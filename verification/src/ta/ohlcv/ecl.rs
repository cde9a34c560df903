use vstd::prelude::*;

use crate::helper::{all_equal_to, lengths_agree};
use crate::{KandError, TAPeriod};

verus! {

/// Returns the lookback period of the Expanded Camarilla Levels (ECL) without validating its
/// parameters.
pub fn lookback_raw() -> (r: TAPeriod)
    ensures
        r == 1,
{
    1
}

/// The lookback of the Expanded Camarilla Levels (ECL): one, as the levels come from the previous
/// bar.
pub open spec fn spec_lookback() -> Result<usize, KandError> {
    Ok(1)
}

/// Returns the lookback period required for the Expanded Camarilla Levels (ECL), the number of
/// leading outputs that stay undefined.
pub fn lookback() -> (r: Result<TAPeriod, KandError>)
    ensures
        r == spec_lookback(),
{
    Ok(1)
}

/// Checks the inputs of `ecl`: fewer than two bars, then series whose lengths differ.
/// Returns the lookback (one).
pub fn validate(len: usize, other_lens: &[usize]) -> (r: Result<usize, KandError>)
    ensures
        r == (if len < 2 {
            Err(KandError::InvalidData)
        } else if !all_equal_to(len, other_lens@) {
            Err(KandError::LengthMismatch)
        } else {
            Ok(1usize)
        }),
{
    let lookback = lookback_raw();
    if len < 2 {
        return Err(KandError::InvalidData);
    }
    if !lengths_agree(len, other_lens) {
        return Err(KandError::LengthMismatch);
    }
    if len <= lookback {
        return Err(KandError::InsufficientData);
    }
    Ok(lookback)
}

/// The lookback is 1, whatever the input: the first output needs the previous bar.
pub proof fn lemma_lookback_formula()
    ensures
        spec_lookback() == Ok::<usize, KandError>(1),
{
}

} // verus!
