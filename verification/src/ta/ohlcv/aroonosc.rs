use vstd::prelude::*;

use crate::helper::{check_series, checked_series};
use crate::{KandError, TAPeriod};

verus! {

/// The lookback of the Aroon Oscillator is `opt_period`.
pub open spec fn spec_lookback(opt_period: usize) -> Result<usize, KandError> {
    if opt_period < 2 {
        Err(KandError::InvalidParameter)
    } else {
        Ok(opt_period)
    }
}

/// Returns the lookback period required for the Aroon Oscillator, the number of leading outputs
/// that stay undefined.
pub fn lookback(opt_period: usize) -> (r: Result<TAPeriod, KandError>)
    ensures
        r == spec_lookback(opt_period),
{
    if opt_period < 2 {
        return Err(KandError::InvalidParameter);
    }
    Ok(opt_period)
}

/// Checks the inputs of `aroonosc`: its parameters, an empty input, then the data length, then the
/// other lengths.
/// `len` is the length of the first input series and `other_lens` those of the other
/// input and output series. Returns the lookback.
pub fn validate(
    len: usize,
    other_lens: &[usize],
    opt_period: usize,
) -> (r: Result<usize, KandError>)
    ensures
        r == checked_series(spec_lookback(opt_period), len, other_lens@),
{
    let lookback = lookback(opt_period)?;
    check_series(len, other_lens, lookback)
}

/// Checks the parameters of `aroonosc_inc`: the period must be at least 2.
pub fn validate_inc(opt_period: usize) -> (r: Result<(), KandError>)
    ensures
        r is Ok <==> opt_period >= 2,
        r is Err ==> r == Err::<(), KandError>(KandError::InvalidParameter),
{
    if opt_period < 2 {
        return Err(KandError::InvalidParameter);
    }
    Ok(())
}

/// The lookback is `opt_period` for every period of at least 2; a shorter period is
/// rejected.
pub proof fn lemma_lookback_formula(opt_period: usize)
    ensures
        opt_period < 2 ==> spec_lookback(opt_period) == Err::<usize, KandError>(
            KandError::InvalidParameter,
        ),
        opt_period >= 2 ==> spec_lookback(opt_period) == Ok::<usize, KandError>(
            opt_period,
        ),
{
}

} // verus!
