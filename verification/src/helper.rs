//! Checks shared by the indicator functions.
pub mod arrow_macro;
pub mod buffer_pool;

use vstd::arithmetic::div_mod::{lemma_add_mod_noop, lemma_mod_equivalence, lemma_small_mod};
use vstd::prelude::*;

use crate::KandError;

verus! {

/// Every length in `others` equals `len`.
pub open spec fn all_equal_to(len: usize, others: Seq<usize>) -> bool {
    forall|i: int| 0 <= i < others.len() ==> others[i] == len
}

/// Outcome of the usual input checks of a batch indicator, made in this order:
/// an empty input, an input not longer than the lookback, series of different lengths.
pub open spec fn series_outcome(len: usize, others: Seq<usize>, lookback: usize) -> Result<
    usize,
    KandError,
> {
    if len == 0 {
        Err(KandError::InvalidData)
    } else if len <= lookback {
        Err(KandError::InsufficientData)
    } else if !all_equal_to(len, others) {
        Err(KandError::LengthMismatch)
    } else {
        Ok(lookback)
    }
}

/// The same checks as `series_outcome`, with the length check made before the data check.
pub open spec fn series_outcome_lengths_first(
    len: usize,
    others: Seq<usize>,
    lookback: usize,
) -> Result<usize, KandError> {
    if len == 0 {
        Err(KandError::InvalidData)
    } else if !all_equal_to(len, others) {
        Err(KandError::LengthMismatch)
    } else if len <= lookback {
        Err(KandError::InsufficientData)
    } else {
        Ok(lookback)
    }
}

/// Outcome of a lookback computation followed by the usual series checks.
pub open spec fn checked_series(
    lookback: Result<usize, KandError>,
    len: usize,
    others: Seq<usize>,
) -> Result<usize, KandError> {
    match lookback {
        Err(e) => Err(e),
        Ok(lb) => series_outcome(len, others, lb),
    }
}

/// Outcome of a lookback computation followed by the series checks, lengths first.
pub open spec fn checked_series_lengths_first(
    lookback: Result<usize, KandError>,
    len: usize,
    others: Seq<usize>,
) -> Result<usize, KandError> {
    match lookback {
        Err(e) => Err(e),
        Ok(lb) => series_outcome_lengths_first(len, others, lb),
    }
}

/// Returns whether every length in `others` equals `len`.
pub fn lengths_agree(len: usize, others: &[usize]) -> (r: bool)
    ensures
        r == all_equal_to(len, others@),
{
    let mut i: usize = 0;
    while i < others.len()
        invariant
            0 <= i <= others.len(),
            forall|j: int| 0 <= j < i ==> others@[j] == len,
        decreases others.len() - i,
    {
        if others[i] != len {
            return false;
        }
        i += 1;
    }
    true
}

/// Runs the usual input checks of a batch indicator: an empty input, an input not longer
/// than `lookback`, then series whose lengths differ from `len`.
pub fn check_series(len: usize, others: &[usize], lookback: usize) -> (r: Result<usize, KandError>)
    ensures
        r == series_outcome(len, others@, lookback),
{
    if len == 0 {
        return Err(KandError::InvalidData);
    }
    if len <= lookback {
        return Err(KandError::InsufficientData);
    }
    if !lengths_agree(len, others) {
        return Err(KandError::LengthMismatch);
    }
    Ok(lookback)
}

/// Runs the input checks of a batch indicator with the length check before the data check.
pub fn check_series_lengths_first(len: usize, others: &[usize], lookback: usize) -> (r: Result<
    usize,
    KandError,
>)
    ensures
        r == series_outcome_lengths_first(len, others@, lookback),
{
    if len == 0 {
        return Err(KandError::InvalidData);
    }
    if !lengths_agree(len, others) {
        return Err(KandError::LengthMismatch);
    }
    if len <= lookback {
        return Err(KandError::InsufficientData);
    }
    Ok(lookback)
}

/// First index of the window of `lookback` bars that ends at `start_idx` (clipped at the
/// start of the series).
pub open spec fn bars_window_start(start_idx: usize, lookback: usize) -> usize {
    if start_idx + 1 >= lookback {
        (start_idx + 1 - lookback) as usize
    } else {
        0
    }
}

/// Checks the window of `lowest_bars` and `highest_bars`: the series is not empty,
/// `start_idx` is inside it and `lookback` is positive. Returns the first index of the
/// window, which the window clips at the start of the series.
pub fn check_bars_window(len: usize, start_idx: usize, lookback: usize) -> (r: Result<
    usize,
    KandError,
>)
    ensures
        r == (if len == 0 || start_idx >= len || lookback == 0 {
            Err(KandError::InvalidData)
        } else {
            Ok(bars_window_start(start_idx, lookback))
        }),
{
    if len == 0 || start_idx >= len || lookback == 0 {
        return Err(KandError::InvalidData);
    }
    let end = start_idx + 1;
    if end >= lookback {
        Ok(end - lookback)
    } else {
        Ok(0)
    }
}

/// Checks the period of `period_to_k`, which must be positive.
pub fn check_k_period(period: usize) -> (r: Result<(), KandError>)
    ensures
        r is Ok <==> period > 0,
        r is Err ==> r == Err::<(), KandError>(KandError::InvalidParameter),
{
    if period == 0 {
        return Err(KandError::InvalidParameter);
    }
    Ok(())
}

/// Checks the number of streams of a saved vectorized state before it is restored: a
/// state without a stream is invalid data.
pub fn check_saved_streams(num_streams: usize) -> (r: Result<(), KandError>)
    ensures
        r is Ok <==> num_streams > 0,
        r is Err ==> r == Err::<(), KandError>(KandError::InvalidData),
{
    if num_streams == 0 {
        return Err(KandError::InvalidData);
    }
    Ok(())
}

/// Slot of a ring of `period` slots that the `n`-th input (counting from 1) occupies.
pub open spec fn ring_slot(period: nat, n: nat) -> int {
    (n as int - 1) % (period as int)
}

/// Moving a ring cursor one slot forward keeps it equal to the input count modulo the period.
pub proof fn lemma_ring_advance(period: nat, count: nat)
    requires
        period > 0,
    ensures
        ((count % period) + 1) % period == (count + 1) % period,
{
    lemma_add_mod_noop(count as int, 1, period as int);
    if period > 1 {
        lemma_small_mod(1, period);
    }
}

/// The slot that the `n`-th input of a ring overwrites was last written by input
/// `n - period`: that input used the same slot and no input in between did.
pub proof fn lemma_ring_reads_period_back(period: nat, n: nat)
    requires
        period > 0,
        n > period,
    ensures
        ring_slot(period, n) == ring_slot(period, (n - period) as nat),
        forall|k: nat| n - period < k < n ==> ring_slot(period, k) != ring_slot(period, n),
{
    lemma_mod_equivalence(n - 1, n - period - 1, period as int);
    assert((n - 1) - (n - period - 1) == period as int);
    assert((period as int) % (period as int) == 0) by {
        vstd::arithmetic::div_mod::lemma_mod_self_0(period as int);
    }
    assert forall|k: nat| n - period < k < n implies ring_slot(period, k) != ring_slot(period, n) by {
        lemma_mod_equivalence(n - 1, k - 1, period as int);
        lemma_small_mod((n - k) as nat, period);
    }
}

/// The usual checks of a batch indicator accept exactly the non-empty inputs longer than the
/// lookback whose series all have the same length, and then return the lookback. An empty
/// input is invalid data; a short one is insufficient data, whatever the lengths of the other
/// series; series of other lengths are a length mismatch.
pub proof fn lemma_series_outcome_law(len: usize, others: Seq<usize>, lookback: usize)
    ensures
        series_outcome(len, others, lookback) is Ok <==> (len > lookback && forall|i: int|
            0 <= i < others.len() ==> others[i] == len),
        series_outcome(len, others, lookback) is Ok ==> series_outcome(len, others, lookback) == Ok::<
            usize,
            KandError,
        >(lookback),
        len == 0 ==> series_outcome(len, others, lookback) == Err::<usize, KandError>(
            KandError::InvalidData,
        ),
        0 < len <= lookback ==> series_outcome(len, others, lookback) == Err::<usize, KandError>(
            KandError::InsufficientData,
        ),
        (len > lookback && exists|i: int| 0 <= i < others.len() && others[i] != len)
            ==> series_outcome(len, others, lookback) == Err::<usize, KandError>(
            KandError::LengthMismatch,
        ),
{
}

/// With the length check first, a non-empty input whose series differ in length is a length
/// mismatch even when it is also too short; otherwise the outcome is the usual one.
pub proof fn lemma_series_outcome_lengths_first_law(len: usize, others: Seq<usize>, lookback: usize)
    ensures
        len == 0 ==> series_outcome_lengths_first(len, others, lookback) == Err::<usize, KandError>(
            KandError::InvalidData,
        ),
        (len > 0 && exists|i: int| 0 <= i < others.len() && others[i] != len)
            ==> series_outcome_lengths_first(len, others, lookback) == Err::<usize, KandError>(
            KandError::LengthMismatch,
        ),
        (forall|i: int| 0 <= i < others.len() ==> others[i] == len) ==> series_outcome_lengths_first(
            len,
            others,
            lookback,
        ) == series_outcome(len, others, lookback),
{
}

/// The window of `lookback` bars ending at `start_idx` holds `lookback` bars, or every bar up
/// to `start_idx` when the series is shorter, and ends at `start_idx`.
pub proof fn lemma_bars_window_law(start_idx: usize, lookback: usize)
    requires
        lookback >= 1,
    ensures
        bars_window_start(start_idx, lookback) <= start_idx,
        start_idx + 1 - bars_window_start(start_idx, lookback) == if lookback <= start_idx + 1 {
            lookback as int
        } else {
            start_idx + 1
        },
{
}

} // verus!
