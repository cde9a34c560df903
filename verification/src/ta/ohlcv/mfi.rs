use vstd::prelude::*;

use crate::helper::{all_equal_to, lengths_agree};
use crate::{KandError, TAPeriod};

verus! {

/// The lookback of the Money Flow Index (MFI) is `opt_period`.
pub open spec fn spec_lookback(opt_period: usize) -> Result<usize, KandError> {
    if opt_period < 2 {
        Err(KandError::InvalidParameter)
    } else {
        Ok(opt_period)
    }
}

/// Returns the lookback period required for the Money Flow Index (MFI), the number of leading
/// outputs that stay undefined.
pub fn lookback(opt_period: usize) -> (r: Result<TAPeriod, KandError>)
    ensures
        r == spec_lookback(opt_period),
{
    if opt_period < 2 {
        return Err(KandError::InvalidParameter);
    }
    Ok(opt_period)
}

/// Checks the inputs of `mfi`: the period, an empty input, an input shorter than the
/// lookback, then series whose lengths differ. Returns the lookback.
pub fn validate(
    len: usize,
    other_lens: &[usize],
    opt_period: usize,
) -> (r: Result<usize, KandError>)
    ensures
        r == (match spec_lookback(opt_period) {
            Err(e) => Err(e),
            Ok(lb) => if len == 0 {
                Err(KandError::InvalidData)
            } else if len < lb {
                Err(KandError::InsufficientData)
            } else if !all_equal_to(len, other_lens@) {
                Err(KandError::LengthMismatch)
            } else {
                Ok(lb)
            },
        }),
{
    let lookback = lookback(opt_period)?;
    if len == 0 {
        return Err(KandError::InvalidData);
    }
    if len < lookback {
        return Err(KandError::InsufficientData);
    }
    if !lengths_agree(len, other_lens) {
        return Err(KandError::LengthMismatch);
    }
    Ok(lookback)
}

/// The lookback is `opt_period` for every period of at least 2; a shorter period is
/// rejected.
pub proof fn lemma_lookback_formula(opt_period: usize)
    ensures
        opt_period < 2 ==> spec_lookback(opt_period) == Err::<usize, KandError>(
            KandError::InvalidParameter,
        ),
        opt_period >= 2 ==> spec_lookback(opt_period) == Ok::<usize, KandError>(
            opt_period,
        ),
{
}

} // verus!
