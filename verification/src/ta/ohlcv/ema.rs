use vstd::prelude::*;

use crate::helper::{check_series, checked_series};
use crate::{KandError, TAPeriod};

verus! {

/// Returns the lookback period for EMA without input validation: `opt_period - 1`.
pub fn lookback_raw(opt_period: TAPeriod) -> (r: TAPeriod)
    requires
        opt_period >= 1,
    ensures
        r == opt_period - 1,
{
    opt_period - 1
}

/// Lookback of EMA: `period - 1` for a period of at least 2.
pub open spec fn spec_lookback(opt_period: TAPeriod) -> Result<usize, KandError> {
    if opt_period < 2 {
        Err(KandError::InvalidParameter)
    } else {
        Ok((opt_period - 1) as usize)
    }
}

/// Returns the lookback period required for EMA: the first value needs a full period.
pub fn lookback(opt_period: TAPeriod) -> (r: Result<TAPeriod, KandError>)
    ensures
        r == spec_lookback(opt_period),
{
    if opt_period < 2 {
        return Err(KandError::InvalidParameter);
    }
    Ok(lookback_raw(opt_period))
}

/// Checks the inputs of `ema`: the period, then an empty input, then the data length,
/// then the output length (`other_lens`). Returns the lookback.
pub fn validate(len: usize, other_lens: &[usize], opt_period: TAPeriod) -> (r: Result<
    usize,
    KandError,
>)
    ensures
        r == checked_series(spec_lookback(opt_period), len, other_lens@),
{
    let lookback = lookback(opt_period)?;
    check_series(len, other_lens, lookback)
}

/// Checks the parameters of `ema_inc`.
pub fn validate_inc(opt_period: TAPeriod) -> (r: Result<(), KandError>)
    ensures
        r is Ok <==> opt_period >= 2,
        r is Err ==> r == Err::<(), KandError>(KandError::InvalidParameter),
{
    if opt_period < 2 {
        return Err(KandError::InvalidParameter);
    }
    Ok(())
}

/// What a streaming EMA does with one more input.
#[derive(Debug, Clone, Copy, PartialEq, Eq, Structural)]
pub enum EmaPhase {
    /// The first `period - 1` inputs are summed; the output is NaN.
    Warmup,
    /// The `period`-th input completes the sum; the output is its mean.
    Seed,
    /// Every later input is smoothed into the previous value.
    Smooth,
}

/// Phase of the `count`-th input of an EMA of the given period.
pub open spec fn ema_phase(period: nat, count: nat) -> EmaPhase {
    if count < period {
        EmaPhase::Warmup
    } else if count == period {
        EmaPhase::Seed
    } else {
        EmaPhase::Smooth
    }
}

/// Abstract state of a streaming EMA: its period and how many inputs it has seen.
pub struct EmaState {
    pub period: nat,
    pub count: nat,
}

/// The state after one more input.
pub open spec fn ema_after_input(s: EmaState) -> EmaState {
    EmaState { period: s.period, count: s.count + 1 }
}

/// Stateful EMA: the period and the number of inputs seen. The running sum and the
/// previous average are kept beside it by the caller, which performs each phase.
#[derive(Debug, Clone, Copy)]
pub struct StatefulEMA {
    period: TAPeriod,
    count: usize,
}

impl View for StatefulEMA {
    type V = EmaState;

    closed spec fn view(&self) -> EmaState {
        EmaState { period: self.period as nat, count: self.count as nat }
    }
}

impl StatefulEMA {
    /// Creates a new EMA stream; the period must be at least 2.
    pub fn new(period: TAPeriod) -> (r: Result<Self, KandError>)
        ensures
            r is Ok <==> period >= 2,
            r matches Ok(s) ==> s@ == (EmaState { period: period as nat, count: 0 }),
            r matches Err(e) ==> e == KandError::InvalidParameter,
    {
        if period < 2 {
            return Err(KandError::InvalidParameter);
        }
        Ok(StatefulEMA { period, count: 0 })
    }

    /// Restores a stream from a saved period and input count.
    pub fn from_parts(period: TAPeriod, count: usize) -> (s: Self)
        ensures
            s@ == (EmaState { period: period as nat, count: count as nat }),
    {
        StatefulEMA { period, count }
    }

    /// The period of the stream.
    pub fn period(&self) -> (p: TAPeriod)
        ensures
            p == self@.period,
    {
        self.period
    }

    /// The number of inputs seen so far.
    pub fn count(&self) -> (c: usize)
        ensures
            c == self@.count,
    {
        self.count
    }

    /// Counts one more input and returns what the stream does with it.
    pub fn next(&mut self) -> (phase: EmaPhase)
        requires
            old(self)@.count < usize::MAX,
        ensures
            final(self)@ == ema_after_input(old(self)@),
            phase == ema_phase(old(self)@.period, old(self)@.count + 1),
            phase == EmaPhase::Seed <==> old(self)@.count + 1 == old(self)@.period,
            old(self)@.count + 1 > old(self)@.period ==> phase == EmaPhase::Smooth,
    {
        self.count = self.count + 1;
        if self.count < self.period {
            EmaPhase::Warmup
        } else if self.count == self.period {
            EmaPhase::Seed
        } else {
            EmaPhase::Smooth
        }
    }
}

/// Abstract state of a vectorized EMA: period, number of streams and inputs seen per stream.
pub struct BatchEmaState {
    pub period: nat,
    pub num_streams: nat,
    pub counts: Seq<usize>,
}

/// Vectorized EMA over `num_streams` independent streams: the per-stream input counts.
#[derive(Debug)]
pub struct BatchEMA {
    period: TAPeriod,
    num_streams: usize,
    counts: Vec<usize>,
}

impl View for BatchEMA {
    type V = BatchEmaState;

    closed spec fn view(&self) -> BatchEmaState {
        BatchEmaState {
            period: self.period as nat,
            num_streams: self.num_streams as nat,
            counts: self.counts@,
        }
    }
}

impl Clone for BatchEMA {
    fn clone(&self) -> (c: Self)
        ensures
            c@ == self@,
    {
        BatchEMA { period: self.period, num_streams: self.num_streams, counts: self.counts.clone() }
    }
}

impl BatchEMA {
    /// Creates a vectorized EMA; the period must be at least 2 and there must be a stream.
    pub fn new(period: TAPeriod, num_streams: usize) -> (r: Result<Self, KandError>)
        ensures
            r is Ok <==> period >= 2 && num_streams > 0,
            r matches Ok(b) ==> b@.period == period && b@.num_streams == num_streams
                && b@.counts == Seq::new(num_streams as nat, |i: int| 0usize),
            r matches Err(e) ==> e == KandError::InvalidParameter,
    {
        if period < 2 || num_streams == 0 {
            return Err(KandError::InvalidParameter);
        }
        let mut counts: Vec<usize> = Vec::new();
        let mut i: usize = 0;
        while i < num_streams
            invariant
                i <= num_streams,
                counts@ == Seq::new(i as nat, |j: int| 0usize),
            decreases num_streams - i,
        {
            counts.push(0);
            i += 1;
        }
        Ok(BatchEMA { period, num_streams, counts })
    }

    /// Restores a vectorized EMA from a saved period and per-stream counts.
    pub fn from_parts(period: TAPeriod, counts: Vec<usize>) -> (b: Self)
        ensures
            b@.period == period,
            b@.num_streams == counts.len(),
            b@.counts == counts@,
    {
        let num_streams = counts.len();
        BatchEMA { period, num_streams, counts }
    }

    /// The period of every stream.
    pub fn period(&self) -> (p: TAPeriod)
        ensures
            p == self@.period,
    {
        self.period
    }

    /// The number of streams.
    pub fn num_streams(&self) -> (n: usize)
        ensures
            n == self@.num_streams,
    {
        self.num_streams
    }

    /// The inputs seen by each stream.
    pub fn counts(&self) -> (c: &Vec<usize>)
        ensures
            c@ == self@.counts,
    {
        &self.counts
    }

    /// Checks that an input batch has one value per stream.
    pub fn check_input(&self, input_len: usize) -> (r: Result<(), KandError>)
        ensures
            r is Ok <==> input_len == self@.num_streams,
            r is Err ==> r == Err::<(), KandError>(KandError::LengthMismatch),
    {
        if input_len != self.num_streams {
            return Err(KandError::LengthMismatch);
        }
        Ok(())
    }

    /// Counts one more input on `stream` and returns what that stream does with it.
    pub fn next(&mut self, stream: usize) -> (phase: EmaPhase)
        requires
            stream < old(self)@.counts.len(),
            old(self)@.counts[stream as int] < usize::MAX,
        ensures
            final(self)@.period == old(self)@.period,
            final(self)@.num_streams == old(self)@.num_streams,
            final(self)@.counts == old(self)@.counts.update(
                stream as int,
                (old(self)@.counts[stream as int] + 1) as usize,
            ),
            phase == ema_phase(old(self)@.period, (old(self)@.counts[stream as int] + 1) as nat),
            phase == EmaPhase::Seed <==> old(self)@.counts[stream as int] + 1 == old(self)@.period,
            old(self)@.counts[stream as int] + 1 > old(self)@.period ==> phase == EmaPhase::Smooth,
    {
        let c = self.counts[stream] + 1;
        self.counts.set(stream, c);
        if c < self.period {
            EmaPhase::Warmup
        } else if c == self.period {
            EmaPhase::Seed
        } else {
            EmaPhase::Smooth
        }
    }
}

/// A stream fed `n` inputs from a fresh state is past its warm-up exactly when
/// `n` exceeds the lookback of the batch EMA: the first defined output of the
/// stream is the one at index `lookback` of the batch output.
pub proof fn lemma_warmup_matches_lookback(period: TAPeriod, n: nat)
    requires
        period >= 2,
    ensures
        (ema_phase(period as nat, n) != EmaPhase::Warmup) <==> (spec_lookback(period) matches Ok(
            lb,
        ) && n > lb),
{
}

/// The schedule of an EMA of period `p`: inputs before the `p`-th only warm up, the `p`-th
/// input seeds the average with the mean of the first `p` inputs, and every later input is
/// smoothed into it; the average is seeded once.
pub proof fn lemma_phase_law(period: nat, n: nat)
    ensures
        n < period ==> ema_phase(period, n) == EmaPhase::Warmup,
        n == period ==> ema_phase(period, n) == EmaPhase::Seed,
        n > period ==> ema_phase(period, n) == EmaPhase::Smooth,
        ema_phase(period, n) == EmaPhase::Seed <==> n == period,
{
}

/// The lookback is `opt_period - 1` for every period of at least 2; a shorter period is
/// rejected.
pub proof fn lemma_lookback_formula(opt_period: usize)
    ensures
        opt_period < 2 ==> spec_lookback(opt_period) == Err::<usize, KandError>(
            KandError::InvalidParameter,
        ),
        opt_period >= 2 ==> spec_lookback(opt_period) == Ok::<usize, KandError>(
            (opt_period - 1) as usize,
        ),
{
}

} // verus!
