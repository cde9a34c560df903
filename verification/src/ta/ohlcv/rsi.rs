use vstd::prelude::*;

use crate::helper::{check_series, checked_series};
use crate::KandError;

verus! {

/// Lookback of RSI: `period` for a period of at least 2.
pub open spec fn spec_lookback(opt_period: usize) -> Result<usize, KandError> {
    if opt_period < 2 {
        Err(KandError::InvalidParameter)
    } else {
        Ok(opt_period)
    }
}

/// Returns the lookback period required for RSI: `opt_period` price changes need
/// `opt_period + 1` prices.
pub fn lookback(opt_period: usize) -> (r: Result<usize, KandError>)
    ensures
        r == spec_lookback(opt_period),
{
    if opt_period < 2 {
        return Err(KandError::InvalidParameter);
    }
    Ok(opt_period)
}

/// Checks the inputs of `rsi`: the period, an empty input, the data length, then the
/// output lengths (`other_lens`). Returns the lookback.
pub fn validate(len: usize, other_lens: &[usize], opt_period: usize) -> (r: Result<
    usize,
    KandError,
>)
    ensures
        r == checked_series(spec_lookback(opt_period), len, other_lens@),
{
    let lookback = lookback(opt_period)?;
    check_series(len, other_lens, lookback)
}

/// Checks the parameters of `rsi_inc`: the period must be at least 2.
pub fn validate_inc(opt_period: usize) -> (r: Result<(), KandError>)
    ensures
        r is Ok <==> opt_period >= 2,
        r is Err ==> r == Err::<(), KandError>(KandError::InvalidParameter),
{
    if opt_period < 2 {
        return Err(KandError::InvalidParameter);
    }
    Ok(())
}

/// What a streaming RSI does with one more price.
#[derive(Debug, Clone, Copy, PartialEq, Eq, Structural)]
pub enum RsiPhase {
    /// The first price is only remembered; the output is NaN.
    First,
    /// Gains and losses are summed over the first `period` prices after the first; the output is NaN.
    Accumulate,
    /// The price `period + 1` adds the last of the first `period` changes; the averages
    /// become the means of those changes and the output is defined.
    Seed,
    /// Average gain and loss are smoothed; the output is defined.
    Smooth,
}

/// Phase of the `count`-th price of an RSI of the given period.
pub open spec fn rsi_phase(period: nat, count: nat) -> RsiPhase {
    if count == 1 {
        RsiPhase::First
    } else if count <= period {
        RsiPhase::Accumulate
    } else if count == period + 1 {
        RsiPhase::Seed
    } else {
        RsiPhase::Smooth
    }
}

/// Abstract state of a streaming RSI: its period and the number of prices seen.
pub struct RsiState {
    pub period: nat,
    pub count: nat,
}

/// Stateful RSI: period and number of prices seen. The averages and the previous price are
/// kept beside it by the caller, which performs each phase.
#[derive(Debug, Clone, Copy)]
pub struct StatefulRSI {
    period: usize,
    count: usize,
}

impl View for StatefulRSI {
    type V = RsiState;

    closed spec fn view(&self) -> RsiState {
        RsiState { period: self.period as nat, count: self.count as nat }
    }
}

impl StatefulRSI {
    /// Creates a new StatefulRSI instance; the period must be at least 2.
    pub fn new(period: usize) -> (r: Result<Self, KandError>)
        ensures
            r is Ok <==> period >= 2,
            r matches Ok(s) ==> s@ == (RsiState { period: period as nat, count: 0 }),
            r matches Err(e) ==> e == KandError::InvalidParameter,
    {
        if period < 2 {
            return Err(KandError::InvalidParameter);
        }
        Ok(StatefulRSI { period, count: 0 })
    }

    /// Restores a stream from a saved period and count.
    pub fn from_parts(period: usize, count: usize) -> (s: Self)
        ensures
            s@ == (RsiState { period: period as nat, count: count as nat }),
    {
        StatefulRSI { period, count }
    }

    /// The period of the stream.
    pub fn period(&self) -> (p: usize)
        ensures
            p == self@.period,
    {
        self.period
    }

    /// The number of prices seen.
    pub fn count(&self) -> (c: usize)
        ensures
            c == self@.count,
    {
        self.count
    }

    /// Counts one more price and returns what the stream does with it.
    pub fn next(&mut self) -> (phase: RsiPhase)
        requires
            old(self)@.count < usize::MAX,
        ensures
            final(self)@ == (RsiState { period: old(self)@.period, count: old(self)@.count + 1 }),
            phase == rsi_phase(old(self)@.period, old(self)@.count + 1),
            old(self)@.count >= 1 ==> (phase == RsiPhase::Seed <==> old(self)@.count == old(self)@.period),
            old(self)@.count > old(self)@.period ==> phase == RsiPhase::Smooth,
    {
        self.count = self.count + 1;
        rsi_phase_of(self.period, self.count)
    }
}

/// Returns the phase of the `count`-th price of an RSI.
fn rsi_phase_of(period: usize, count: usize) -> (phase: RsiPhase)
    ensures
        phase == rsi_phase(period as nat, count as nat),
{
    if count == 1 {
        RsiPhase::First
    } else if count <= period {
        RsiPhase::Accumulate
    } else if count - 1 == period {
        RsiPhase::Seed
    } else {
        RsiPhase::Smooth
    }
}

/// The `n`-th price of a fresh RSI gets a defined output exactly when `n` exceeds the
/// lookback, as in the batch RSI whose first `lookback` outputs are NaN.
pub proof fn lemma_warmup_matches_lookback(period: usize, n: nat)
    requires
        period >= 2,
        n >= 1,
    ensures
        (rsi_phase(period as nat, n) == RsiPhase::Seed || rsi_phase(period as nat, n)
            == RsiPhase::Smooth) <==> (spec_lookback(period) matches Ok(
            lb,
        ) && n > lb),
{
}

/// Abstract state of a vectorized RSI.
pub struct BatchRsiState {
    pub period: nat,
    pub num_streams: nat,
    pub counts: Seq<usize>,
}

/// Vectorized RSI over independent streams: the per-stream price counts.
#[derive(Debug)]
pub struct BatchRSI {
    period: usize,
    num_streams: usize,
    counts: Vec<usize>,
}

impl View for BatchRSI {
    type V = BatchRsiState;

    closed spec fn view(&self) -> BatchRsiState {
        BatchRsiState {
            period: self.period as nat,
            num_streams: self.num_streams as nat,
            counts: self.counts@,
        }
    }
}

impl Clone for BatchRSI {
    fn clone(&self) -> (c: Self)
        ensures
            c@ == self@,
    {
        BatchRSI { period: self.period, num_streams: self.num_streams, counts: self.counts.clone() }
    }
}

impl BatchRSI {
    /// Creates a vectorized RSI; the period must be at least 2 and there must be a stream.
    pub fn new(period: usize, num_streams: usize) -> (r: Result<Self, KandError>)
        ensures
            r is Ok <==> period >= 2 && num_streams > 0,
            r matches Ok(b) ==> b@.period == period && b@.num_streams == num_streams
                && b@.counts == Seq::new(num_streams as nat, |i: int| 0usize),
            r matches Err(e) ==> e == KandError::InvalidParameter,
    {
        if period < 2 || num_streams == 0 {
            return Err(KandError::InvalidParameter);
        }
        let mut counts: Vec<usize> = Vec::new();
        let mut i: usize = 0;
        while i < num_streams
            invariant
                i <= num_streams,
                counts@ == Seq::new(i as nat, |j: int| 0usize),
            decreases num_streams - i,
        {
            counts.push(0);
            i += 1;
        }
        Ok(BatchRSI { period, num_streams, counts })
    }

    /// Restores a vectorized RSI from a saved period and per-stream counts.
    pub fn from_parts(period: usize, counts: Vec<usize>) -> (b: Self)
        ensures
            b@ == (BatchRsiState {
                period: period as nat,
                num_streams: counts@.len(),
                counts: counts@,
            }),
    {
        let num_streams = counts.len();
        BatchRSI { period, num_streams, counts }
    }

    /// The period of every stream.
    pub fn period(&self) -> (p: usize)
        ensures
            p == self@.period,
    {
        self.period
    }

    /// The number of streams.
    pub fn num_streams(&self) -> (n: usize)
        ensures
            n == self@.num_streams,
    {
        self.num_streams
    }

    /// The prices seen by each stream.
    pub fn counts(&self) -> (c: &Vec<usize>)
        ensures
            c@ == self@.counts,
    {
        &self.counts
    }

    /// Checks that an input batch has one price per stream.
    pub fn check_input(&self, input_len: usize) -> (r: Result<(), KandError>)
        ensures
            r is Ok <==> input_len == self@.num_streams,
            r is Err ==> r == Err::<(), KandError>(KandError::LengthMismatch),
    {
        if input_len != self.num_streams {
            return Err(KandError::LengthMismatch);
        }
        Ok(())
    }

    /// Counts one more price on `stream` and returns what that stream does with it.
    pub fn next(&mut self, stream: usize) -> (phase: RsiPhase)
        requires
            stream < old(self)@.counts.len(),
            old(self)@.counts[stream as int] < usize::MAX,
        ensures
            final(self)@.period == old(self)@.period,
            final(self)@.num_streams == old(self)@.num_streams,
            final(self)@.counts == old(self)@.counts.update(
                stream as int,
                (old(self)@.counts[stream as int] + 1) as usize,
            ),
            phase == rsi_phase(old(self)@.period, (old(self)@.counts[stream as int] + 1) as nat),
            old(self)@.counts[stream as int] >= 1 ==> (phase == RsiPhase::Seed
                <==> old(self)@.counts[stream as int] == old(self)@.period),
            old(self)@.counts[stream as int] > old(self)@.period ==> phase == RsiPhase::Smooth,
    {
        let c = self.counts[stream] + 1;
        self.counts.set(stream, c);
        rsi_phase_of(self.period, c)
    }
}

/// The schedule of an RSI of period `p`: the first price is only remembered, the next `p - 1`
/// prices accumulate gains and losses, price `p + 1` seeds the averages with the means of the
/// first `p` changes, and every later price is smoothed into them; the averages are seeded once.
pub proof fn lemma_phase_law(period: nat, n: nat)
    requires
        period >= 1,
    ensures
        n == 1 ==> rsi_phase(period, n) == RsiPhase::First,
        2 <= n <= period ==> rsi_phase(period, n) == RsiPhase::Accumulate,
        n == period + 1 ==> rsi_phase(period, n) == RsiPhase::Seed,
        n > period + 1 ==> rsi_phase(period, n) == RsiPhase::Smooth,
        rsi_phase(period, n) == RsiPhase::Seed <==> n == period + 1,
{
}

/// The lookback is `opt_period` for every period of at least 2; a shorter period is
/// rejected.
pub proof fn lemma_lookback_formula(opt_period: usize)
    ensures
        opt_period < 2 ==> spec_lookback(opt_period) == Err::<usize, KandError>(
            KandError::InvalidParameter,
        ),
        opt_period >= 2 ==> spec_lookback(opt_period) == Ok::<usize, KandError>(
            opt_period,
        ),
{
}

} // verus!
