use vstd::prelude::*;

use crate::types::MAType;
use crate::helper::{check_series, checked_series};
use crate::{KandError, TAPeriod};

verus! {

/// Returns the lookback period of the Chaikin A/D Oscillator (ADOSC) without validating its
/// parameters.
pub fn lookback_raw(
    opt_fast_period: TAPeriod,
    opt_slow_period: TAPeriod,
    opt_ma_type: MAType,
) -> (r: TAPeriod)
    requires
        opt_slow_period >= 1,
    ensures
        r == opt_slow_period - 1,
{
    opt_slow_period - 1
}

/// The lookback of the Chaikin A/D Oscillator (ADOSC) is `opt_slow_period - 1`, since the slow EMA
/// needs a full period.
pub open spec fn spec_lookback(
    opt_fast_period: TAPeriod,
    opt_slow_period: TAPeriod,
    opt_ma_type: MAType,
) -> Result<usize, KandError> {
    if opt_fast_period < 2 || opt_slow_period < 2 || opt_fast_period >= opt_slow_period {
        Err(KandError::InvalidParameter)
    } else {
        Ok((opt_slow_period - 1) as usize)
    }
}

/// Returns the lookback period required for the Chaikin A/D Oscillator (ADOSC), the number of
/// leading outputs that stay undefined.
pub fn lookback(
    opt_fast_period: TAPeriod,
    opt_slow_period: TAPeriod,
    opt_ma_type: MAType,
) -> (r: Result<TAPeriod, KandError>)
    ensures
        r == spec_lookback(opt_fast_period, opt_slow_period, opt_ma_type),
{
    if opt_fast_period < 2 || opt_slow_period < 2 || opt_fast_period >= opt_slow_period {
        return Err(KandError::InvalidParameter);
    }
    Ok(lookback_raw(opt_fast_period, opt_slow_period, opt_ma_type))
}

/// Checks the inputs of `adosc`: its parameters, an empty input, then the data length, then the
/// other lengths.
/// `len` is the length of the first input series and `other_lens` those of the other
/// input and output series. Returns the lookback.
pub fn validate(
    len: usize,
    other_lens: &[usize],
    opt_fast_period: TAPeriod,
    opt_slow_period: TAPeriod,
    opt_ma_type: MAType,
) -> (r: Result<usize, KandError>)
    ensures
        r == checked_series(spec_lookback(opt_fast_period, opt_slow_period, opt_ma_type), len, other_lens@),
{
    let lookback = lookback(opt_fast_period, opt_slow_period, opt_ma_type)?;
    check_series(len, other_lens, lookback)
}

/// Checks the parameters of `adosc_inc`: both periods at least 2, the fast one below the slow one.
pub fn validate_inc(opt_fast_period: TAPeriod, opt_slow_period: TAPeriod) -> (r: Result<(), KandError>)
    ensures
        r is Ok <==> !(opt_fast_period < 2 || opt_slow_period < 2 || opt_fast_period >= opt_slow_period),
        r is Err ==> r == Err::<(), KandError>(KandError::InvalidParameter),
{
    if opt_fast_period < 2 || opt_slow_period < 2 || opt_fast_period >= opt_slow_period {
        return Err(KandError::InvalidParameter);
    }
    Ok(())
}

/// The lookback is `opt_slow_period - 1` whatever the moving average kind, for periods of at
/// least 2 with the fast one below the slow one; other periods are rejected.
pub proof fn lemma_lookback_formula(
    opt_fast_period: TAPeriod,
    opt_slow_period: TAPeriod,
    opt_ma_type: MAType,
)
    ensures
        (opt_fast_period < 2 || opt_fast_period >= opt_slow_period) ==> spec_lookback(
            opt_fast_period,
            opt_slow_period,
            opt_ma_type,
        ) == Err::<usize, KandError>(KandError::InvalidParameter),
        (opt_fast_period >= 2 && opt_fast_period < opt_slow_period) ==> spec_lookback(
            opt_fast_period,
            opt_slow_period,
            opt_ma_type,
        ) == Ok::<usize, KandError>((opt_slow_period - 1) as usize),
{
}

} // verus!
