use vstd::prelude::*;

use crate::TAInt;
use crate::helper::{check_series, checked_series};
use crate::{KandError, TAPeriod};

verus! {

/// The lookback of the Aroon is `opt_period`.
pub open spec fn spec_lookback(opt_period: usize) -> Result<usize, KandError> {
    if opt_period < 2 {
        Err(KandError::InvalidParameter)
    } else {
        Ok(opt_period)
    }
}

/// Returns the lookback period required for the Aroon, the number of leading outputs that stay
/// undefined.
pub fn lookback(opt_period: usize) -> (r: Result<TAPeriod, KandError>)
    ensures
        r == spec_lookback(opt_period),
{
    if opt_period < 2 {
        return Err(KandError::InvalidParameter);
    }
    Ok(opt_period)
}

/// Checks the inputs of `aroon`: its parameters, an empty input, then the data length, then the
/// other lengths.
/// `len` is the length of the first input series and `other_lens` those of the other
/// input and output series. Returns the lookback.
pub fn validate(
    len: usize,
    other_lens: &[usize],
    opt_period: usize,
) -> (r: Result<usize, KandError>)
    ensures
        r == checked_series(spec_lookback(opt_period), len, other_lens@),
{
    let lookback = lookback(opt_period)?;
    check_series(len, other_lens, lookback)
}

/// Checks the parameters of `aroon_inc`: the period must be at least 2.
pub fn validate_inc(opt_period: usize) -> (r: Result<(), KandError>)
    ensures
        r is Ok <==> opt_period >= 2,
        r is Err ==> r == Err::<(), KandError>(KandError::InvalidParameter),
{
    if opt_period < 2 {
        return Err(KandError::InvalidParameter);
    }
    Ok(())
}

/// Bars since the last extreme after one more bar: the count grows by one while it is below
/// the period (a negative count, read as an unsigned number, does not grow), and restarts at
/// zero when the new bar sets a new extreme (`new_extreme`).
pub fn next_days_since(days_since: TAInt, opt_period: usize, new_extreme: bool) -> (r: TAInt)
    requires
        (days_since as usize) < opt_period ==> days_since < TAInt::MAX,
    ensures
        r == (if new_extreme {
            0
        } else if (days_since as usize) < opt_period {
            days_since + 1
        } else {
            days_since as int
        }),
{
    let mut days = days_since;
    if (days as usize) < opt_period {
        days += 1;
    }
    if new_extreme {
        days = 0;
    }
    days
}

/// The lookback is `opt_period` for every period of at least 2; a shorter period is
/// rejected.
pub proof fn lemma_lookback_formula(opt_period: usize)
    ensures
        opt_period < 2 ==> spec_lookback(opt_period) == Err::<usize, KandError>(
            KandError::InvalidParameter,
        ),
        opt_period >= 2 ==> spec_lookback(opt_period) == Ok::<usize, KandError>(
            opt_period,
        ),
{
}

} // verus!
