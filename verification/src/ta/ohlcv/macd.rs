use vstd::prelude::*;

use super::ema::{self, ema_after_input, ema_phase, BatchEMA, EmaPhase, EmaState, StatefulEMA};
use crate::helper::{check_series, checked_series};
use crate::KandError;

verus! {

/// The periods of MACD are rejected when one of them is 0 or the fast period is not
/// below the slow one.
pub open spec fn periods_rejected(
    opt_fast_period: usize,
    opt_slow_period: usize,
    opt_signal_period: usize,
) -> bool {
    opt_fast_period == 0 || opt_slow_period == 0 || opt_signal_period == 0 || opt_fast_period
        >= opt_slow_period
}

/// Lookback of MACD: the slow EMA lookback plus the signal EMA lookback,
/// `(slow - 1) + (signal - 1)`, for positive periods with the fast one below the slow one.
pub open spec fn spec_lookback(
    opt_fast_period: usize,
    opt_slow_period: usize,
    opt_signal_period: usize,
) -> Result<usize, KandError> {
    if periods_rejected(opt_fast_period, opt_slow_period, opt_signal_period) {
        Err(KandError::InvalidParameter)
    } else {
        Ok(((opt_slow_period - 1) + (opt_signal_period - 1)) as usize)
    }
}

/// The periods are rejected before the lookback is summed, or the sum fits in a `usize`.
pub open spec fn lookback_fits(
    opt_fast_period: usize,
    opt_slow_period: usize,
    opt_signal_period: usize,
) -> bool {
    spec_lookback(opt_fast_period, opt_slow_period, opt_signal_period) is Err || (opt_slow_period
        - 1) + (opt_signal_period - 1) <= usize::MAX
}

/// Returns the lookback period required for MACD: `(slow - 1) + (signal - 1)`.
pub fn lookback(opt_fast_period: usize, opt_slow_period: usize, opt_signal_period: usize) -> (r:
    Result<usize, KandError>)
    requires
        lookback_fits(opt_fast_period, opt_slow_period, opt_signal_period),
    ensures
        r == spec_lookback(opt_fast_period, opt_slow_period, opt_signal_period),
{
    if opt_fast_period == 0 || opt_slow_period == 0 || opt_signal_period == 0 {
        return Err(KandError::InvalidParameter);
    }
    if opt_fast_period >= opt_slow_period {
        return Err(KandError::InvalidParameter);
    }
    let slow_lookback = opt_slow_period - 1;
    let signal_lookback = opt_signal_period - 1;
    Ok(slow_lookback + signal_lookback)
}

/// Outcome of the input checks of `macd`.
pub open spec fn validate_outcome(
    len: usize,
    other_lens: Seq<usize>,
    opt_fast_period: usize,
    opt_slow_period: usize,
    opt_signal_period: usize,
) -> Result<usize, KandError> {
    match checked_series(
        spec_lookback(opt_fast_period, opt_slow_period, opt_signal_period),
        len,
        other_lens,
    ) {
        Err(e) => Err(e),
        Ok(lb) => if len < opt_slow_period + opt_signal_period {
            Err(KandError::InsufficientData)
        } else {
            Ok(lb)
        },
    }
}

/// Checks the inputs of `macd`: the periods, an empty input, the data length, the output
/// lengths (`other_lens`), and that at least a full signal period follows the slow period.
/// Returns the lookback.
pub fn validate(
    len: usize,
    other_lens: &[usize],
    opt_fast_period: usize,
    opt_slow_period: usize,
    opt_signal_period: usize,
) -> (r: Result<usize, KandError>)
    requires
        lookback_fits(opt_fast_period, opt_slow_period, opt_signal_period),
    ensures
        r == validate_outcome(len, other_lens@, opt_fast_period, opt_slow_period, opt_signal_period),
{
    let lookback = lookback(opt_fast_period, opt_slow_period, opt_signal_period)?;
    let lookback = check_series(len, other_lens, lookback)?;
    let remaining = if len > opt_slow_period {
        len - opt_slow_period
    } else {
        0
    };
    if remaining < opt_signal_period {
        return Err(KandError::InsufficientData);
    }
    Ok(lookback)
}

/// Checks the parameters of `macd_inc`.
pub fn validate_inc(opt_fast_period: usize, opt_slow_period: usize, opt_signal_period: usize) -> (r:
    Result<(), KandError>)
    ensures
        r is Ok <==> !periods_rejected(opt_fast_period, opt_slow_period, opt_signal_period),
        r is Err ==> r == Err::<(), KandError>(KandError::InvalidParameter),
{
    if opt_fast_period == 0 || opt_slow_period == 0 || opt_signal_period == 0 {
        return Err(KandError::InvalidParameter);
    }
    if opt_fast_period >= opt_slow_period {
        return Err(KandError::InvalidParameter);
    }
    Ok(())
}

/// Abstract state of a streaming MACD: its fast, slow and signal EMAs.
pub struct MacdState {
    pub fast: EmaState,
    pub slow: EmaState,
    pub signal: EmaState,
}

/// The MACD line of an input is defined once both of its EMAs are past their warm-up.
pub open spec fn line_defined(fast: EmaPhase, slow: EmaPhase) -> bool {
    fast != EmaPhase::Warmup && slow != EmaPhase::Warmup
}

/// The state after one more input whose MACD line, where defined, is a number:
/// both line EMAs take the input, and the signal EMA takes the line once it is defined.
pub open spec fn macd_after_input(m: MacdState) -> MacdState {
    let fast = ema_after_input(m.fast);
    let slow = ema_after_input(m.slow);
    let defined = line_defined(ema_phase(fast.period, fast.count), ema_phase(slow.period, slow.count));
    MacdState {
        fast,
        slow,
        signal: if defined {
            ema_after_input(m.signal)
        } else {
            m.signal
        },
    }
}

/// Number of line values the signal EMA has taken after `n` inputs.
pub open spec fn signal_inputs(slow_period: nat, n: nat) -> nat {
    if n >= slow_period {
        (n - slow_period + 1) as nat
    } else {
        0
    }
}

/// The three EMAs of a MACD fed with numbers agree on the number of inputs seen.
pub open spec fn macd_synced(m: MacdState) -> bool {
    &&& m.fast.count == m.slow.count
    &&& m.signal.count == signal_inputs(m.slow.period, m.slow.count)
}

/// Stateful MACD: three EMA streams. The caller computes the EMA values; it feeds the
/// price to both line EMAs with `next_lines`, and the MACD line to the signal EMA with
/// `next_signal` when that line is a number.
#[derive(Debug, Clone, Copy)]
pub struct StatefulMACD {
    fast_ema: StatefulEMA,
    slow_ema: StatefulEMA,
    signal_ema: StatefulEMA,
}

impl View for StatefulMACD {
    type V = MacdState;

    closed spec fn view(&self) -> MacdState {
        MacdState { fast: self.fast_ema@, slow: self.slow_ema@, signal: self.signal_ema@ }
    }
}

impl StatefulMACD {
    /// Creates a new StatefulMACD instance: all periods at least 2, fast below slow.
    pub fn new(opt_fast_period: usize, opt_slow_period: usize, opt_signal_period: usize) -> (r:
        Result<Self, KandError>)
        requires
            opt_fast_period < 2 || opt_slow_period < 2 || opt_signal_period < 2 || lookback_fits(
                opt_fast_period,
                opt_slow_period,
                opt_signal_period,
            ),
        ensures
            r is Ok <==> opt_fast_period >= 2 && opt_slow_period >= 2 && opt_signal_period >= 2
                && opt_fast_period < opt_slow_period,
            r matches Ok(m) ==> m@ == (MacdState {
                fast: EmaState { period: opt_fast_period as nat, count: 0 },
                slow: EmaState { period: opt_slow_period as nat, count: 0 },
                signal: EmaState { period: opt_signal_period as nat, count: 0 },
            }),
            r matches Err(e) ==> e == KandError::InvalidParameter,
    {
        let fast_ema = StatefulEMA::new(opt_fast_period)?;
        let slow_ema = StatefulEMA::new(opt_slow_period)?;
        let signal_ema = StatefulEMA::new(opt_signal_period)?;
        let _ = lookback(opt_fast_period, opt_slow_period, opt_signal_period)?;
        Ok(StatefulMACD { fast_ema, slow_ema, signal_ema })
    }

    /// Restores a MACD from its three saved EMA streams.
    pub fn from_parts(fast_ema: StatefulEMA, slow_ema: StatefulEMA, signal_ema: StatefulEMA) -> (m:
        Self)
        ensures
            m@ == (MacdState { fast: fast_ema@, slow: slow_ema@, signal: signal_ema@ }),
    {
        StatefulMACD { fast_ema, slow_ema, signal_ema }
    }

    /// The fast EMA stream.
    pub fn fast(&self) -> (e: &StatefulEMA)
        ensures
            e@ == self@.fast,
    {
        &self.fast_ema
    }

    /// The slow EMA stream.
    pub fn slow(&self) -> (e: &StatefulEMA)
        ensures
            e@ == self@.slow,
    {
        &self.slow_ema
    }

    /// The signal EMA stream.
    pub fn signal(&self) -> (e: &StatefulEMA)
        ensures
            e@ == self@.signal,
    {
        &self.signal_ema
    }

    /// Feeds one price to the fast and slow EMAs and returns their phases.
    pub fn next_lines(&mut self) -> (phases: (EmaPhase, EmaPhase))
        requires
            old(self)@.fast.count < usize::MAX,
            old(self)@.slow.count < usize::MAX,
        ensures
            final(self)@.fast == ema_after_input(old(self)@.fast),
            final(self)@.slow == ema_after_input(old(self)@.slow),
            final(self)@.signal == old(self)@.signal,
            phases.0 == ema_phase(old(self)@.fast.period, old(self)@.fast.count + 1),
            phases.1 == ema_phase(old(self)@.slow.period, old(self)@.slow.count + 1),
    {
        let fast = self.fast_ema.next();
        let slow = self.slow_ema.next();
        (fast, slow)
    }

    /// Feeds one MACD line value to the signal EMA and returns its phase.
    pub fn next_signal(&mut self) -> (phase: EmaPhase)
        requires
            old(self)@.signal.count < usize::MAX,
        ensures
            final(self)@.fast == old(self)@.fast,
            final(self)@.slow == old(self)@.slow,
            final(self)@.signal == ema_after_input(old(self)@.signal),
            phase == ema_phase(old(self)@.signal.period, old(self)@.signal.count + 1),
    {
        self.signal_ema.next()
    }
}

/// Returns whether the MACD line is defined, given the phases of its two EMAs.
pub fn is_line_defined(fast: EmaPhase, slow: EmaPhase) -> (r: bool)
    ensures
        r == line_defined(fast, slow),
{
    fast != EmaPhase::Warmup && slow != EmaPhase::Warmup
}

/// A freshly created MACD is synced.
pub proof fn lemma_new_is_synced(m: MacdState)
    requires
        m.fast.count == 0,
        m.slow.count == 0,
        m.signal.count == 0,
        m.slow.period >= 2,
    ensures
        macd_synced(m),
{
}

/// Feeding a number keeps a MACD synced when its fast period is below its slow period.
pub proof fn lemma_input_keeps_synced(m: MacdState)
    requires
        macd_synced(m),
        m.fast.period < m.slow.period,
    ensures
        macd_synced(macd_after_input(m)),
        macd_after_input(m).fast.period == m.fast.period,
        macd_after_input(m).slow.period == m.slow.period,
        macd_after_input(m).signal.period == m.signal.period,
{
}

/// In a synced MACD that has seen `n >= 1` numbers, the output of the `n`-th input has a
/// defined signal line exactly when `n` exceeds the lookback of the batch MACD, so that
/// the streaming and the batch computations start their signal at the same index.
pub proof fn lemma_signal_starts_after_lookback(m: MacdState)
    requires
        macd_synced(m),
        m.fast.period >= 2,
        m.fast.period < m.slow.period,
        m.signal.period >= 2,
        m.slow.count >= 1,
    ensures
        (line_defined(ema_phase(m.fast.period, m.fast.count), ema_phase(m.slow.period, m.slow.count))
            && ema_phase(m.signal.period, m.signal.count) != EmaPhase::Warmup) <==> m.slow.count
            > (m.slow.period - 1) + (m.signal.period - 1),
{
}

/// The MACD lookback is the lookback of the slow EMA plus the lookback of the signal EMA.
pub proof fn lemma_lookback_composes(
    opt_fast_period: usize,
    opt_slow_period: usize,
    opt_signal_period: usize,
)
    requires
        opt_fast_period >= 2,
        opt_fast_period < opt_slow_period,
        opt_signal_period >= 2,
        lookback_fits(opt_fast_period, opt_slow_period, opt_signal_period),
    ensures
        spec_lookback(opt_fast_period, opt_slow_period, opt_signal_period) == Ok::<usize, KandError>(
            (ema::spec_lookback(opt_slow_period).unwrap() + ema::spec_lookback(
                opt_signal_period,
            ).unwrap()) as usize,
        ),
{
}

/// Abstract state of a vectorized MACD.
pub struct BatchMacdState {
    pub fast: ema::BatchEmaState,
    pub slow: ema::BatchEmaState,
    pub signal: ema::BatchEmaState,
    pub num_streams: nat,
}

/// Vectorized MACD over independent streams: three vectorized EMAs. Every batch feeds the
/// prices to the fast and slow EMAs and the MACD line of every stream to the signal EMA.
#[derive(Debug)]
pub struct BatchMACD {
    fast_ema: BatchEMA,
    slow_ema: BatchEMA,
    signal_ema: BatchEMA,
    num_streams: usize,
}

impl View for BatchMACD {
    type V = BatchMacdState;

    closed spec fn view(&self) -> BatchMacdState {
        BatchMacdState {
            fast: self.fast_ema@,
            slow: self.slow_ema@,
            signal: self.signal_ema@,
            num_streams: self.num_streams as nat,
        }
    }
}

impl BatchMACD {
    /// Creates a new BatchMACD instance: every period at least 2 and at least one stream.
    pub fn new(
        opt_fast_period: usize,
        opt_slow_period: usize,
        opt_signal_period: usize,
        num_streams: usize,
    ) -> (r: Result<Self, KandError>)
        ensures
            r is Ok <==> opt_fast_period >= 2 && opt_slow_period >= 2 && opt_signal_period >= 2
                && num_streams > 0,
            r matches Ok(b) ==> {
                &&& b@.num_streams == num_streams
                &&& b@.fast.period == opt_fast_period
                &&& b@.slow.period == opt_slow_period
                &&& b@.signal.period == opt_signal_period
                &&& b@.fast.num_streams == num_streams
                &&& b@.slow.num_streams == num_streams
                &&& b@.signal.num_streams == num_streams
                &&& b@.fast.counts == Seq::new(num_streams as nat, |i: int| 0usize)
                &&& b@.slow.counts == Seq::new(num_streams as nat, |i: int| 0usize)
                &&& b@.signal.counts == Seq::new(num_streams as nat, |i: int| 0usize)
            },
            r matches Err(e) ==> e == KandError::InvalidParameter,
    {
        let fast_ema = BatchEMA::new(opt_fast_period, num_streams)?;
        let slow_ema = BatchEMA::new(opt_slow_period, num_streams)?;
        let signal_ema = BatchEMA::new(opt_signal_period, num_streams)?;
        Ok(BatchMACD { fast_ema, slow_ema, signal_ema, num_streams })
    }

    /// The number of streams.
    pub fn num_streams(&self) -> (n: usize)
        ensures
            n == self@.num_streams,
    {
        self.num_streams
    }

    /// The fast vectorized EMA.
    pub fn fast(&self) -> (e: &BatchEMA)
        ensures
            e@ == self@.fast,
    {
        &self.fast_ema
    }

    /// The slow vectorized EMA.
    pub fn slow(&self) -> (e: &BatchEMA)
        ensures
            e@ == self@.slow,
    {
        &self.slow_ema
    }

    /// The signal vectorized EMA.
    pub fn signal(&self) -> (e: &BatchEMA)
        ensures
            e@ == self@.signal,
    {
        &self.signal_ema
    }

    /// Restores a vectorized MACD from its saved EMAs.
    pub fn from_parts(fast_ema: BatchEMA, slow_ema: BatchEMA, signal_ema: BatchEMA) -> (b: Self)
        ensures
            b@ == (BatchMacdState {
                fast: fast_ema@,
                slow: slow_ema@,
                signal: signal_ema@,
                num_streams: fast_ema@.num_streams,
            }),
    {
        let num_streams = fast_ema.num_streams();
        BatchMACD { fast_ema, slow_ema, signal_ema, num_streams }
    }

    /// Checks that an input batch has one price per stream.
    pub fn check_input(&self, input_len: usize) -> (r: Result<(), KandError>)
        ensures
            r is Ok <==> input_len == self@.fast.num_streams && input_len == self@.slow.num_streams,
            r is Err ==> r == Err::<(), KandError>(KandError::LengthMismatch),
    {
        self.fast_ema.check_input(input_len)?;
        self.slow_ema.check_input(input_len)
    }

    /// Feeds one price of `stream` to its fast and slow EMAs and, once the MACD line of the
    /// stream is defined, that line to its signal EMA. Returns the phases of the line EMAs and
    /// the phase of the signal EMA, or `None` where the line is undefined and the signal
    /// EMA is left as it was.
    pub fn next(&mut self, stream: usize) -> (phases: (EmaPhase, EmaPhase, Option<EmaPhase>))
        requires
            stream < old(self)@.fast.counts.len(),
            stream < old(self)@.slow.counts.len(),
            stream < old(self)@.signal.counts.len(),
            old(self)@.fast.counts[stream as int] < usize::MAX,
            old(self)@.slow.counts[stream as int] < usize::MAX,
            old(self)@.signal.counts[stream as int] < usize::MAX,
        ensures
            final(self)@.num_streams == old(self)@.num_streams,
            final(self)@.fast.period == old(self)@.fast.period,
            final(self)@.slow.period == old(self)@.slow.period,
            final(self)@.signal.period == old(self)@.signal.period,
            final(self)@.fast.num_streams == old(self)@.fast.num_streams,
            final(self)@.slow.num_streams == old(self)@.slow.num_streams,
            final(self)@.signal.num_streams == old(self)@.signal.num_streams,
            final(self)@.fast.counts == old(self)@.fast.counts.update(
                stream as int,
                (old(self)@.fast.counts[stream as int] + 1) as usize,
            ),
            final(self)@.slow.counts == old(self)@.slow.counts.update(
                stream as int,
                (old(self)@.slow.counts[stream as int] + 1) as usize,
            ),
            phases.0 == ema_phase(old(self)@.fast.period, (old(self)@.fast.counts[stream as int] + 1) as nat),
            phases.1 == ema_phase(old(self)@.slow.period, (old(self)@.slow.counts[stream as int] + 1) as nat),
            line_defined(phases.0, phases.1) ==> {
                &&& final(self)@.signal.counts == old(self)@.signal.counts.update(
                    stream as int,
                    (old(self)@.signal.counts[stream as int] + 1) as usize,
                )
                &&& phases.2 == Some(
                    ema_phase(
                        old(self)@.signal.period,
                        (old(self)@.signal.counts[stream as int] + 1) as nat,
                    ),
                )
            },
            !line_defined(phases.0, phases.1) ==> final(self)@.signal.counts == old(self)@.signal.counts
                && phases.2 is None,
            stream_macd(final(self)@, stream as int) == macd_after_input(
                stream_macd(old(self)@, stream as int),
            ),
    {
        let fast = self.fast_ema.next(stream);
        let slow = self.slow_ema.next(stream);
        if is_line_defined(fast, slow) {
            let signal = self.signal_ema.next(stream);
            (fast, slow, Some(signal))
        } else {
            (fast, slow, None)
        }
    }
}

/// Stream `i` of a vectorized MACD, seen as a streaming MACD.
pub open spec fn stream_macd(b: BatchMacdState, i: int) -> MacdState {
    MacdState {
        fast: EmaState { period: b.fast.period, count: b.fast.counts[i] as nat },
        slow: EmaState { period: b.slow.period, count: b.slow.counts[i] as nat },
        signal: EmaState { period: b.signal.period, count: b.signal.counts[i] as nat },
    }
}

/// The MACD lookback is `(slow - 1) + (signal - 1)` for positive periods with the fast one
/// below the slow one; a zero period or a fast period not below the slow one is rejected.
pub proof fn lemma_lookback_formula(
    opt_fast_period: usize,
    opt_slow_period: usize,
    opt_signal_period: usize,
)
    ensures
        (opt_fast_period == 0 || opt_slow_period == 0 || opt_signal_period == 0 || opt_fast_period
            >= opt_slow_period) ==> spec_lookback(opt_fast_period, opt_slow_period, opt_signal_period)
            == Err::<usize, KandError>(KandError::InvalidParameter),
        (opt_fast_period > 0 && opt_signal_period > 0 && opt_fast_period < opt_slow_period)
            ==> spec_lookback(opt_fast_period, opt_slow_period, opt_signal_period) == Ok::<
            usize,
            KandError,
        >(((opt_slow_period - 1) + (opt_signal_period - 1)) as usize),
{
}

/// With valid periods and series that pass the length and data checks, the input checks of
/// `macd` fail with `InsufficientData` exactly when fewer than `slow + signal` prices are
/// given, so that a full signal period follows the slow period; otherwise they return the
/// lookback. The fast period plays no part in it.
pub proof fn lemma_validate_needs_slow_plus_signal(
    len: usize,
    other_lens: Seq<usize>,
    opt_fast_period: usize,
    opt_slow_period: usize,
    opt_signal_period: usize,
)
    requires
        opt_fast_period > 0,
        opt_signal_period > 0,
        opt_fast_period < opt_slow_period,
        len > (opt_slow_period - 1) + (opt_signal_period - 1),
        crate::helper::all_equal_to(len, other_lens),
    ensures
        validate_outcome(len, other_lens, opt_fast_period, opt_slow_period, opt_signal_period) == (
        if len < opt_slow_period + opt_signal_period {
            Err::<usize, KandError>(KandError::InsufficientData)
        } else {
            Ok(((opt_slow_period - 1) + (opt_signal_period - 1)) as usize)
        }),
{
}

} // verus!
