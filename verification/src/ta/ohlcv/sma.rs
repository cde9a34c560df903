use vstd::prelude::*;

use crate::helper::{
    check_series_lengths_first, checked_series_lengths_first, lemma_ring_advance,
    lemma_ring_reads_period_back, ring_slot,
};
use crate::{KandError, TAPeriod};

verus! {

/// Lookback of SMA: `period - 1` for a period of at least 2.
pub open spec fn spec_lookback(opt_period: TAPeriod) -> Result<usize, KandError> {
    if opt_period < 2 {
        Err(KandError::InvalidParameter)
    } else {
        Ok((opt_period - 1) as usize)
    }
}

/// Returns the lookback period required for SMA: `opt_period - 1`.
pub fn lookback(opt_period: TAPeriod) -> (r: Result<usize, KandError>)
    ensures
        r == spec_lookback(opt_period),
{
    if opt_period < 2 {
        return Err(KandError::InvalidParameter);
    }
    Ok(opt_period - 1)
}

/// Checks the inputs of `sma`: the period, an empty input, the output length
/// (`other_lens`), then the data length. Returns the lookback.
pub fn validate(len: usize, other_lens: &[usize], opt_period: TAPeriod) -> (r: Result<
    usize,
    KandError,
>)
    ensures
        r == checked_series_lengths_first(spec_lookback(opt_period), len, other_lens@),
{
    let lookback = lookback(opt_period)?;
    check_series_lengths_first(len, other_lens, lookback)
}

/// Checks the parameters of `sma_inc`: the period must be at least 2.
pub fn validate_inc(opt_period: TAPeriod) -> (r: Result<(), KandError>)
    ensures
        r is Ok <==> opt_period >= 2,
        r is Err ==> r == Err::<(), KandError>(KandError::InvalidParameter),
{
    if opt_period < 2 {
        return Err(KandError::InvalidParameter);
    }
    Ok(())
}

/// What a streaming SMA does with one more input.
#[derive(Debug, Clone, Copy, PartialEq, Eq, Structural)]
pub enum SmaPhase {
    /// The window is not full yet: the input is appended and the output is NaN.
    Fill,
    /// The input fills the window: the output is the mean of the window.
    Complete,
    /// The window is full: the oldest input leaves, the new one enters.
    Slide,
}

/// Abstract state of a streaming SMA: its period and how many inputs its window holds.
pub struct SmaState {
    pub period: nat,
    pub filled: nat,
}

/// Phase of one more input given the current state.
pub open spec fn sma_phase(s: SmaState) -> SmaPhase {
    if s.filled < s.period {
        if s.filled + 1 == s.period {
            SmaPhase::Complete
        } else {
            SmaPhase::Fill
        }
    } else {
        SmaPhase::Slide
    }
}

/// The state after one more input.
pub open spec fn sma_after_input(s: SmaState) -> SmaState {
    SmaState {
        period: s.period,
        filled: if s.filled < s.period {
            s.filled + 1
        } else {
            s.filled
        },
    }
}

/// State of a fresh SMA after `n` inputs.
pub open spec fn sma_after_inputs(period: nat, n: nat) -> SmaState
    decreases n,
{
    if n == 0 {
        SmaState { period, filled: 0 }
    } else {
        sma_after_input(sma_after_inputs(period, (n - 1) as nat))
    }
}

/// Stateful SMA: the period and how many inputs the window holds. The window values and
/// their sum are kept beside it by the caller, which performs each phase.
#[derive(Debug, Clone, Copy)]
pub struct StatefulSMA {
    period: TAPeriod,
    filled: usize,
}

impl View for StatefulSMA {
    type V = SmaState;

    closed spec fn view(&self) -> SmaState {
        SmaState { period: self.period as nat, filled: self.filled as nat }
    }
}

impl StatefulSMA {
    /// Creates a new StatefulSMA instance; the period must be at least 2.
    pub fn new(period: TAPeriod) -> (r: Result<Self, KandError>)
        ensures
            r is Ok <==> period >= 2,
            r matches Ok(s) ==> s@ == (SmaState { period: period as nat, filled: 0 }),
            r matches Err(e) ==> e == KandError::InvalidParameter,
    {
        if period < 2 {
            return Err(KandError::InvalidParameter);
        }
        Ok(StatefulSMA { period, filled: 0 })
    }

    /// Restores a stream from a saved period and window length.
    pub fn from_parts(period: TAPeriod, filled: usize) -> (s: Self)
        ensures
            s@ == (SmaState { period: period as nat, filled: filled as nat }),
    {
        StatefulSMA { period, filled }
    }

    /// The period of the stream.
    pub fn period(&self) -> (p: TAPeriod)
        ensures
            p == self@.period,
    {
        self.period
    }

    /// The number of inputs in the window.
    pub fn filled(&self) -> (n: usize)
        ensures
            n == self@.filled,
    {
        self.filled
    }

    /// Takes one more input and returns what the stream does with it.
    pub fn next(&mut self) -> (phase: SmaPhase)
        ensures
            final(self)@ == sma_after_input(old(self)@),
            phase == sma_phase(old(self)@),
    {
        if self.filled < self.period {
            self.filled = self.filled + 1;
            if self.filled == self.period {
                SmaPhase::Complete
            } else {
                SmaPhase::Fill
            }
        } else {
            SmaPhase::Slide
        }
    }
}

/// After `n` inputs a fresh SMA holds `min(n, period)` inputs.
pub proof fn lemma_filled_after_inputs(period: nat, n: nat)
    ensures
        sma_after_inputs(period, n).period == period,
        sma_after_inputs(period, n).filled == if n < period {
            n
        } else {
            period
        },
    decreases n,
{
    if n > 0 {
        lemma_filled_after_inputs(period, (n - 1) as nat);
    }
}

/// The `n`-th input of a fresh SMA (counting from 1) gets a defined output exactly when
/// `n` exceeds the lookback, as in the batch SMA whose first `lookback` outputs are NaN.
pub proof fn lemma_warmup_matches_lookback(period: TAPeriod, n: nat)
    requires
        period >= 2,
        n >= 1,
    ensures
        (sma_phase(sma_after_inputs(period as nat, (n - 1) as nat)) != SmaPhase::Fill) <==> (
        spec_lookback(period) matches Ok(lb) && n > lb),
{
    lemma_filled_after_inputs(period as nat, (n - 1) as nat);
}

/// Abstract state of a vectorized SMA.
pub struct BatchSmaState {
    pub period: nat,
    pub num_streams: nat,
    pub cursor: nat,
    pub count: nat,
}

/// What every stream of a vectorized SMA does with one more batch.
#[derive(Debug, Clone, Copy, PartialEq, Eq)]
pub struct BatchSmaStep {
    /// Window slot (within each stream's window) that the new value overwrites.
    pub cursor: usize,
    /// The window is still filling: the new value is added to the sum; otherwise
    /// the overwritten value is also subtracted.
    pub filling: bool,
    /// The output of this batch is defined.
    pub valid: bool,
}

/// Vectorized SMA over `num_streams` independent streams that advance together:
/// the shared ring cursor and the number of batches seen.
#[derive(Debug, Clone, Copy)]
pub struct BatchSMA {
    period: TAPeriod,
    num_streams: usize,
    cursor: usize,
    count: usize,
}

impl View for BatchSMA {
    type V = BatchSmaState;

    closed spec fn view(&self) -> BatchSmaState {
        BatchSmaState {
            period: self.period as nat,
            num_streams: self.num_streams as nat,
            cursor: self.cursor as nat,
            count: self.count as nat,
        }
    }
}

/// The ring cursor of a vectorized SMA follows the number of batches.
pub open spec fn batch_sma_synced(s: BatchSmaState) -> bool {
    s.period > 0 && s.cursor == s.count % s.period
}

impl BatchSMA {
    /// Creates a vectorized SMA; the period must be at least 2 and there must be a stream.
    /// The windows of all streams take `num_streams * period` values.
    pub fn new(period: TAPeriod, num_streams: usize) -> (r: Result<Self, KandError>)
        ensures
            r is Ok <==> period >= 2 && num_streams > 0,
            r matches Ok(b) ==> b@ == (BatchSmaState {
                period: period as nat,
                num_streams: num_streams as nat,
                cursor: 0,
                count: 0,
            }),
            r matches Ok(b) ==> batch_sma_synced(b@),
            r matches Err(e) ==> e == KandError::InvalidParameter,
    {
        if period < 2 || num_streams == 0 {
            return Err(KandError::InvalidParameter);
        }
        proof {
            vstd::arithmetic::div_mod::lemma_small_mod(0, period as nat);
        }
        Ok(BatchSMA { period, num_streams, cursor: 0, count: 0 })
    }

    /// Restores a vectorized SMA from saved values.
    pub fn from_parts(period: TAPeriod, num_streams: usize, cursor: usize, count: usize) -> (b: Self)
        ensures
            b@ == (BatchSmaState {
                period: period as nat,
                num_streams: num_streams as nat,
                cursor: cursor as nat,
                count: count as nat,
            }),
    {
        BatchSMA { period, num_streams, cursor, count }
    }

    /// The period of every stream.
    pub fn period(&self) -> (p: TAPeriod)
        ensures
            p == self@.period,
    {
        self.period
    }

    /// The number of streams.
    pub fn num_streams(&self) -> (n: usize)
        ensures
            n == self@.num_streams,
    {
        self.num_streams
    }

    /// The ring cursor.
    pub fn cursor(&self) -> (c: usize)
        ensures
            c == self@.cursor,
    {
        self.cursor
    }

    /// The number of batches seen.
    pub fn count(&self) -> (c: usize)
        ensures
            c == self@.count,
    {
        self.count
    }

    /// Checks an input batch: one value per stream, then no missing value.
    pub fn check_input(&self, input_len: usize, null_count: usize) -> (r: Result<(), KandError>)
        ensures
            r == (if input_len != self@.num_streams {
                Err(KandError::LengthMismatch)
            } else if null_count > 0 {
                Err(KandError::InvalidData)
            } else {
                Ok(())
            }),
    {
        if input_len != self.num_streams {
            return Err(KandError::LengthMismatch);
        }
        if null_count > 0 {
            return Err(KandError::InvalidData);
        }
        Ok(())
    }

    /// Position in the windows buffer of the slot `cursor` of `stream`.
    pub fn window_offset(&self, stream: usize, cursor: usize) -> (o: usize)
        requires
            stream < self@.num_streams,
            cursor < self@.period,
            self@.num_streams * self@.period <= usize::MAX,
        ensures
            o == stream * self@.period + cursor,
            o < self@.num_streams * self@.period,
    {
        proof {
            vstd::arithmetic::mul::lemma_mul_inequality(
                stream as int + 1,
                self.num_streams as int,
                self.period as int,
            );
            vstd::arithmetic::mul::lemma_mul_is_distributive_add_other_way(
                self.period as int,
                stream as int,
                1,
            );
        }
        stream * self.period + cursor
    }

    /// Takes one more batch: returns the slot to overwrite, whether the windows are still
    /// filling and whether the output is defined, then moves the cursor forward.
    pub fn next(&mut self) -> (step: BatchSmaStep)
        requires
            old(self)@.cursor < old(self)@.period,
            old(self)@.count < usize::MAX,
        ensures
            final(self)@.period == old(self)@.period,
            final(self)@.num_streams == old(self)@.num_streams,
            final(self)@.count == old(self)@.count + 1,
            final(self)@.cursor == (old(self)@.cursor + 1) % old(self)@.period,
            step.cursor == old(self)@.cursor,
            step.filling == (old(self)@.count + 1 <= old(self)@.period),
            step.valid == (old(self)@.count + 1 >= old(self)@.period),
            batch_sma_synced(old(self)@) ==> batch_sma_synced(final(self)@),
    {
        self.count = self.count + 1;
        let step = BatchSmaStep {
            cursor: self.cursor,
            filling: self.count <= self.period,
            valid: self.count >= self.period,
        };
        proof {
            lemma_ring_advance(self.period as nat, (self.count - 1) as nat);
        }
        self.cursor = (self.cursor + 1) % self.period;
        step
    }
}

/// In a synced vectorized SMA whose windows are full, the slot that batch `count + 1`
/// overwrites, and whose value leaves the sum of every stream, was written by batch
/// `count + 1 - period` and by no batch after it: each sum always covers the last `period`
/// values of its stream.
pub proof fn lemma_slides_out_period_back(s: BatchSmaState)
    requires
        batch_sma_synced(s),
        s.count >= s.period,
    ensures
        s.cursor == ring_slot(s.period, s.count + 1),
        ring_slot(s.period, s.count + 1) == ring_slot(s.period, (s.count + 1 - s.period) as nat),
        forall|k: nat|
            s.count + 1 - s.period < k < s.count + 1 ==> #[trigger] ring_slot(s.period, k) != ring_slot(
                s.period,
                s.count + 1,
            ),
{
    lemma_ring_reads_period_back(s.period, s.count + 1);
}

/// The lookback is `opt_period - 1` for every period of at least 2; a shorter period is
/// rejected.
pub proof fn lemma_lookback_formula(opt_period: usize)
    ensures
        opt_period < 2 ==> spec_lookback(opt_period) == Err::<usize, KandError>(
            KandError::InvalidParameter,
        ),
        opt_period >= 2 ==> spec_lookback(opt_period) == Ok::<usize, KandError>(
            (opt_period - 1) as usize,
        ),
{
}

/// The schedule of a fresh SMA of period `p`: inputs before the `p`-th fill the window, the
/// `p`-th completes it and gives the first mean, and every later input slides the window.
pub proof fn lemma_phase_law(period: nat, n: nat)
    requires
        period >= 1,
        n >= 1,
    ensures
        n < period ==> sma_phase(sma_after_inputs(period, (n - 1) as nat)) == SmaPhase::Fill,
        n == period ==> sma_phase(sma_after_inputs(period, (n - 1) as nat)) == SmaPhase::Complete,
        n > period ==> sma_phase(sma_after_inputs(period, (n - 1) as nat)) == SmaPhase::Slide,
{
    lemma_filled_after_inputs(period, (n - 1) as nat);
}

} // verus!
