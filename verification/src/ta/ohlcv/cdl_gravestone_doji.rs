use vstd::prelude::*;

use crate::helper::{all_equal_to, lengths_agree};
use crate::{KandError, TAPeriod};

verus! {

/// The lookback of the Gravestone Doji candle pattern: zero, as a single candle is enough.
pub open spec fn spec_lookback() -> Result<usize, KandError> {
    Ok(0)
}

/// Returns the lookback period required for the Gravestone Doji candle pattern, the number of
/// leading outputs that stay undefined.
pub fn lookback() -> (r: Result<TAPeriod, KandError>)
    ensures
        r == spec_lookback(),
{
    Ok(0)
}

/// Checks the inputs of `cdl_gravestone_doji`: series whose lengths differ, then the percentage
/// parameters. `params_positive` tells whether every percentage parameter is above zero.
/// An empty series is accepted. Returns the lookback (zero).
pub fn validate(
    len: usize,
    other_lens: &[usize],
    params_positive: bool,
) -> (r: Result<usize, KandError>)
    ensures
        r == (if !all_equal_to(len, other_lens@) {
            Err(KandError::LengthMismatch)
        } else if !params_positive {
            Err(KandError::InvalidParameter)
        } else {
            Ok(0usize)
        }),
{
    if !lengths_agree(len, other_lens) {
        return Err(KandError::LengthMismatch);
    }
    if !params_positive {
        return Err(KandError::InvalidParameter);
    }
    Ok(0)
}

/// Checks the parameters of `cdl_gravestone_doji_inc`: `params_positive` tells whether every
/// percentage
/// parameter is above zero.
pub fn validate_inc(params_positive: bool) -> (r: Result<(), KandError>)
    ensures
        r is Ok <==> params_positive,
        r is Err ==> r == Err::<(), KandError>(KandError::InvalidParameter),
{
    if !params_positive {
        return Err(KandError::InvalidParameter);
    }
    Ok(())
}

/// The lookback is 0, whatever the input: every output is defined.
pub proof fn lemma_lookback_formula()
    ensures
        spec_lookback() == Ok::<usize, KandError>(0),
{
}

} // verus!
