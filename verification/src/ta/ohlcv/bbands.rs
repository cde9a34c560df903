use vstd::prelude::*;

use super::sma;
use crate::helper::{check_series, checked_series};
use crate::{KandError, TAPeriod};

verus! {

/// The lookback of the Bollinger Bands (BBANDS): that of the SMA of its middle band.
pub open spec fn spec_lookback(opt_period: usize) -> Result<usize, KandError> {
    sma::spec_lookback(opt_period)
}

/// Returns the lookback period required for the Bollinger Bands (BBANDS), the number of leading
/// outputs that stay undefined.
pub fn lookback(opt_period: usize) -> (r: Result<TAPeriod, KandError>)
    ensures
        r == spec_lookback(opt_period),
{
    sma::lookback(opt_period)
}

/// Checks the inputs of `bbands`: its parameters, an empty input, then the data length, then the
/// other lengths.
/// `len` is the length of the first input series and `other_lens` those of the other
/// input and output series. Returns the lookback.
pub fn validate(
    len: usize,
    other_lens: &[usize],
    opt_period: usize,
) -> (r: Result<usize, KandError>)
    ensures
        r == checked_series(spec_lookback(opt_period), len, other_lens@),
{
    let lookback = lookback(opt_period)?;
    check_series(len, other_lens, lookback)
}

/// Checks the parameters of `bbands_inc`: the period must be at least 2.
pub fn validate_inc(opt_period: usize) -> (r: Result<(), KandError>)
    ensures
        r is Ok <==> opt_period >= 2,
        r is Err ==> r == Err::<(), KandError>(KandError::InvalidParameter),
{
    if opt_period < 2 {
        return Err(KandError::InvalidParameter);
    }
    Ok(())
}

/// The lookback is `opt_period - 1` for every period of at least 2; a shorter period is
/// rejected.
pub proof fn lemma_lookback_formula(opt_period: usize)
    ensures
        opt_period < 2 ==> spec_lookback(opt_period) == Err::<usize, KandError>(
            KandError::InvalidParameter,
        ),
        opt_period >= 2 ==> spec_lookback(opt_period) == Ok::<usize, KandError>(
            (opt_period - 1) as usize,
        ),
{
}

} // verus!
