use vstd::prelude::*;

use crate::helper::{all_equal_to, lengths_agree};
use crate::{KandError, TAPeriod};

verus! {

/// The lookback of the Inverted Hammer candle pattern is `opt_period - 1`, since the body average
/// needs a full period.
pub open spec fn spec_lookback(opt_period: usize) -> Result<usize, KandError> {
    if opt_period < 2 {
        Err(KandError::InvalidParameter)
    } else {
        Ok((opt_period - 1) as usize)
    }
}

/// Returns the lookback period required for the Inverted Hammer candle pattern, the number of
/// leading outputs that stay undefined.
pub fn lookback(opt_period: usize) -> (r: Result<TAPeriod, KandError>)
    ensures
        r == spec_lookback(opt_period),
{
    if opt_period < 2 {
        return Err(KandError::InvalidParameter);
    }
    Ok(opt_period - 1)
}

/// Checks the inputs of `cdl_inverted_hammer`: the period, series whose lengths differ, the data
/// length,
/// then the factor. `factor_positive` tells whether the factor is above zero. An empty
/// input fails the data length check. Returns the lookback.
pub fn validate(
    len: usize,
    other_lens: &[usize],
    opt_period: usize,
    factor_positive: bool,
) -> (r: Result<usize, KandError>)
    ensures
        r == (match spec_lookback(opt_period) {
            Err(e) => Err(e),
            Ok(lb) => if !all_equal_to(len, other_lens@) {
                Err(KandError::LengthMismatch)
            } else if len <= lb {
                Err(KandError::InsufficientData)
            } else if !factor_positive {
                Err(KandError::InvalidParameter)
            } else {
                Ok(lb)
            },
        }),
{
    let lookback = lookback(opt_period)?;
    if !lengths_agree(len, other_lens) {
        return Err(KandError::LengthMismatch);
    }
    if len <= lookback {
        return Err(KandError::InsufficientData);
    }
    if !factor_positive {
        return Err(KandError::InvalidParameter);
    }
    Ok(lookback)
}

/// Checks the parameters of `cdl_inverted_hammer_inc`: the period must be at least 2 and the
/// factor above zero (`factor_positive`).
pub fn validate_inc(opt_period: usize, factor_positive: bool) -> (r: Result<(), KandError>)
    ensures
        r is Ok <==> opt_period >= 2 && factor_positive,
        r is Err ==> r == Err::<(), KandError>(KandError::InvalidParameter),
{
    if opt_period < 2 {
        return Err(KandError::InvalidParameter);
    }
    if !factor_positive {
        return Err(KandError::InvalidParameter);
    }
    Ok(())
}

/// The lookback is `opt_period - 1` for every period of at least 2; a shorter period is
/// rejected.
pub proof fn lemma_lookback_formula(opt_period: usize)
    ensures
        opt_period < 2 ==> spec_lookback(opt_period) == Err::<usize, KandError>(
            KandError::InvalidParameter,
        ),
        opt_period >= 2 ==> spec_lookback(opt_period) == Ok::<usize, KandError>(
            (opt_period - 1) as usize,
        ),
{
}

} // verus!
