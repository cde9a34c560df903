use vstd::prelude::*;

use crate::helper::{check_series_lengths_first, checked_series_lengths_first};
use crate::{KandError, TAPeriod};

verus! {

/// Returns the lookback period of the Momentum (MOM) without validating its parameters.
pub fn lookback_raw(opt_period: usize) -> (r: TAPeriod)
    ensures
        r == opt_period,
{
    opt_period
}

/// The lookback of the Momentum (MOM) is `opt_period`.
pub open spec fn spec_lookback(opt_period: usize) -> Result<usize, KandError> {
    if opt_period < 1 {
        Err(KandError::InvalidParameter)
    } else {
        Ok(opt_period)
    }
}

/// Returns the lookback period required for the Momentum (MOM), the number of leading outputs that
/// stay undefined.
pub fn lookback(opt_period: usize) -> (r: Result<TAPeriod, KandError>)
    ensures
        r == spec_lookback(opt_period),
{
    if opt_period < 1 {
        return Err(KandError::InvalidParameter);
    }
    Ok(lookback_raw(opt_period))
}

/// Checks the inputs of `mom`: its parameters, an empty input, then the other lengths, then the
/// data length.
/// `len` is the length of the first input series and `other_lens` those of the other
/// input and output series. Returns the lookback.
pub fn validate(
    len: usize,
    other_lens: &[usize],
    opt_period: usize,
) -> (r: Result<usize, KandError>)
    ensures
        r == checked_series_lengths_first(spec_lookback(opt_period), len, other_lens@),
{
    let lookback = lookback(opt_period)?;
    check_series_lengths_first(len, other_lens, lookback)
}

/// The lookback is `opt_period` for every period of at least 1; a shorter period is
/// rejected.
pub proof fn lemma_lookback_formula(opt_period: usize)
    ensures
        opt_period < 1 ==> spec_lookback(opt_period) == Err::<usize, KandError>(
            KandError::InvalidParameter,
        ),
        opt_period >= 1 ==> spec_lookback(opt_period) == Ok::<usize, KandError>(
            opt_period,
        ),
{
}

} // verus!
