use vstd::prelude::*;

use super::ema;
use crate::helper::{check_series, checked_series};
use crate::{KandError, TAPeriod};

verus! {

/// The lookback of the Double Exponential Moving Average (DEMA) is `2 * (opt_period - 1)`, since it
/// is an EMA of an EMA.
pub open spec fn spec_lookback(opt_period: usize) -> Result<usize, KandError> {
    if opt_period < 2 {
        Err(KandError::InvalidParameter)
    } else {
        Ok((2 * (opt_period - 1)) as usize)
    }
}

/// Returns the lookback period required for the Double Exponential Moving Average (DEMA), the
/// number of leading outputs that stay undefined.
pub fn lookback(opt_period: usize) -> (r: Result<TAPeriod, KandError>)
    requires
        opt_period - 1 <= usize::MAX / 2,
    ensures
        r == spec_lookback(opt_period),
{
    if opt_period < 2 {
        return Err(KandError::InvalidParameter);
    }
    Ok(2 * (opt_period - 1))
}

/// Checks the inputs of `dema`: its parameters, an empty input, then the data length, then the
/// other lengths.
/// `len` is the length of the first input series and `other_lens` those of the other
/// input and output series. Returns the lookback.
pub fn validate(
    len: usize,
    other_lens: &[usize],
    opt_period: usize,
) -> (r: Result<usize, KandError>)
    requires
        opt_period - 1 <= usize::MAX / 2,
    ensures
        r == checked_series(spec_lookback(opt_period), len, other_lens@),
{
    let lookback = lookback(opt_period)?;
    check_series(len, other_lens, lookback)
}

/// Checks the parameters of `dema_inc`: the period must be at least 2.
pub fn validate_inc(opt_period: usize) -> (r: Result<(), KandError>)
    ensures
        r is Ok <==> opt_period >= 2,
        r is Err ==> r == Err::<(), KandError>(KandError::InvalidParameter),
{
    if opt_period < 2 {
        return Err(KandError::InvalidParameter);
    }
    Ok(())
}

/// The DEMA lookback is twice the lookback of an EMA of the same period: DEMA takes the
/// EMA of an EMA.
pub proof fn lemma_lookback_is_twice_ema(opt_period: usize)
    requires
        opt_period >= 2,
        opt_period - 1 <= usize::MAX / 2,
    ensures
        spec_lookback(opt_period) == Ok::<usize, KandError>(
            (2 * ema::spec_lookback(opt_period).unwrap()) as usize,
        ),
{
}

/// The lookback is `2 * (opt_period - 1)` for every period of at least 2; a shorter period is
/// rejected.
pub proof fn lemma_lookback_formula(opt_period: usize)
    ensures
        opt_period < 2 ==> spec_lookback(opt_period) == Err::<usize, KandError>(
            KandError::InvalidParameter,
        ),
        opt_period >= 2 ==> spec_lookback(opt_period) == Ok::<usize, KandError>(
            (2 * (opt_period - 1)) as usize,
        ),
{
}

} // verus!
