use vstd::prelude::*;

use crate::helper::{
    check_series_lengths_first,
    checked_series_lengths_first,
    lemma_ring_advance,
    lemma_ring_reads_period_back,
    ring_slot,
};
use crate::{KandError, TAPeriod};

verus! {

/// Returns the lookback period of ROC without validating the period: `opt_period`.
pub fn lookback_raw(opt_period: usize) -> (r: TAPeriod)
    ensures
        r == opt_period,
{
    opt_period
}

/// Lookback of ROC: `period` for a period of at least 1.
pub open spec fn spec_lookback(opt_period: usize) -> Result<usize, KandError> {
    if opt_period < 1 {
        Err(KandError::InvalidParameter)
    } else {
        Ok(opt_period)
    }
}

/// Returns the lookback period required for ROC: each output compares with the input
/// `opt_period` bars back.
pub fn lookback(opt_period: usize) -> (r: Result<usize, KandError>)
    ensures
        r == spec_lookback(opt_period),
{
    if opt_period < 1 {
        return Err(KandError::InvalidParameter);
    }
    Ok(lookback_raw(opt_period))
}

/// Checks the inputs of `roc`: the period, an empty input, the output length
/// (`other_lens`), then the data length. Returns the lookback.
pub fn validate(len: usize, other_lens: &[usize], opt_period: usize) -> (r: Result<
    usize,
    KandError,
>)
    ensures
        r == checked_series_lengths_first(spec_lookback(opt_period), len, other_lens@),
{
    let lookback = lookback(opt_period)?;
    check_series_lengths_first(len, other_lens, lookback)
}

/// Abstract state of a streaming ROC: period, inputs seen and ring cursor.
pub struct RocState {
    pub period: nat,
    pub count: nat,
    pub cursor: nat,
}

/// The ring cursor of a streaming ROC follows the number of inputs.
pub open spec fn roc_synced(s: RocState) -> bool {
    s.period > 0 && s.cursor == s.count % s.period
}

/// What a ring-buffered stream does with one more input.
#[derive(Debug, Clone, Copy, PartialEq, Eq)]
pub struct RingStep {
    /// Slot of the window that holds the input `period` inputs back; the new input replaces it.
    pub slot: usize,
    /// Fewer than `period + 1` inputs have been seen: the output is NaN.
    pub warming_up: bool,
}

/// Stateful ROC: period, number of inputs seen and the cursor of its window ring.
/// The window values are kept beside it by the caller.
#[derive(Debug, Clone, Copy)]
pub struct StatefulROC {
    period: usize,
    count: usize,
    cursor: usize,
}

impl View for StatefulROC {
    type V = RocState;

    closed spec fn view(&self) -> RocState {
        RocState { period: self.period as nat, count: self.count as nat, cursor: self.cursor as nat }
    }
}

impl StatefulROC {
    /// Creates a new StatefulROC instance; the period must be at least 1.
    pub fn new(period: usize) -> (r: Result<Self, KandError>)
        ensures
            r is Ok <==> period >= 1,
            r matches Ok(s) ==> s@ == (RocState { period: period as nat, count: 0, cursor: 0 }),
            r matches Ok(s) ==> roc_synced(s@),
            r matches Err(e) ==> e == KandError::InvalidParameter,
    {
        if period < 1 {
            return Err(KandError::InvalidParameter);
        }
        proof {
            vstd::arithmetic::div_mod::lemma_small_mod(0, period as nat);
        }
        Ok(StatefulROC { period, count: 0, cursor: 0 })
    }

    /// Restores a stream from saved values.
    pub fn from_parts(period: usize, count: usize, cursor: usize) -> (s: Self)
        ensures
            s@ == (RocState { period: period as nat, count: count as nat, cursor: cursor as nat }),
    {
        StatefulROC { period, count, cursor }
    }

    /// The period of the stream.
    pub fn period(&self) -> (p: usize)
        ensures
            p == self@.period,
    {
        self.period
    }

    /// The number of inputs seen.
    pub fn count(&self) -> (c: usize)
        ensures
            c == self@.count,
    {
        self.count
    }

    /// The ring cursor.
    pub fn cursor(&self) -> (c: usize)
        ensures
            c == self@.cursor,
    {
        self.cursor
    }

    /// Takes one more input: returns the slot that holds the input `period` back and
    /// whether the stream is still warming up, then moves the cursor forward.
    pub fn next(&mut self) -> (step: RingStep)
        requires
            old(self)@.cursor < old(self)@.period,
            old(self)@.count < usize::MAX,
        ensures
            final(self)@.period == old(self)@.period,
            final(self)@.count == old(self)@.count + 1,
            final(self)@.cursor == (old(self)@.cursor + 1) % old(self)@.period,
            step.slot == old(self)@.cursor,
            step.warming_up == (old(self)@.count + 1 <= old(self)@.period),
            roc_synced(old(self)@) ==> roc_synced(final(self)@),
    {
        self.count = self.count + 1;
        let slot = self.cursor;
        proof {
            lemma_ring_advance(self.period as nat, (self.count - 1) as nat);
        }
        self.cursor = (self.cursor + 1) % self.period;
        RingStep { slot, warming_up: self.count <= self.period }
    }
}

/// In a synced ROC, the slot that input `n = count + 1` reads once the warm-up is over was
/// written by input `n - period` and by no input after it, so every output compares an
/// input with the one exactly `period` inputs before it.
pub proof fn lemma_reads_input_period_back(s: RocState)
    requires
        roc_synced(s),
        s.count >= s.period,
    ensures
        s.cursor == ring_slot(s.period, s.count + 1),
        ring_slot(s.period, s.count + 1) == ring_slot(s.period, (s.count + 1 - s.period) as nat),
        forall|k: nat|
            s.count + 1 - s.period < k < s.count + 1 ==> #[trigger] ring_slot(s.period, k) != ring_slot(
                s.period,
                s.count + 1,
            ),
{
    lemma_ring_reads_period_back(s.period, s.count + 1);
}

/// Abstract state of a vectorized ROC.
pub struct BatchRocState {
    pub period: nat,
    pub num_streams: nat,
    pub counts: Seq<usize>,
    pub cursors: Seq<usize>,
}

/// Every stream of a vectorized ROC is a synced ring: its cursor follows its input count.
pub open spec fn batch_roc_synced(b: BatchRocState) -> bool {
    &&& b.period > 0
    &&& b.counts.len() == b.num_streams
    &&& b.cursors.len() == b.num_streams
    &&& forall|i: int|
        0 <= i < b.num_streams ==> roc_synced(
            #[trigger] stream_state(b, i),
        )
}

/// Stream `i` of a vectorized ROC, seen as a streaming ROC.
pub open spec fn stream_state(b: BatchRocState, i: int) -> RocState {
    RocState { period: b.period, count: b.counts[i] as nat, cursor: b.cursors[i] as nat }
}

/// Vectorized ROC over independent streams: per-stream input counts and ring cursors.
#[derive(Debug)]
pub struct BatchROC {
    period: usize,
    num_streams: usize,
    counts: Vec<usize>,
    cursors: Vec<usize>,
}

impl View for BatchROC {
    type V = BatchRocState;

    closed spec fn view(&self) -> BatchRocState {
        BatchRocState {
            period: self.period as nat,
            num_streams: self.num_streams as nat,
            counts: self.counts@,
            cursors: self.cursors@,
        }
    }
}

impl Clone for BatchROC {
    fn clone(&self) -> (c: Self)
        ensures
            c@ == self@,
    {
        BatchROC {
            period: self.period,
            num_streams: self.num_streams,
            counts: self.counts.clone(),
            cursors: self.cursors.clone(),
        }
    }
}

impl BatchROC {
    /// Creates a vectorized ROC; the period must be at least 1 and there must be a stream.
    pub fn new(period: usize, num_streams: usize) -> (r: Result<Self, KandError>)
        ensures
            r is Ok <==> period >= 1 && num_streams > 0,
            r matches Ok(b) ==> b@.period == period && b@.num_streams == num_streams
                && b@.counts == Seq::new(num_streams as nat, |i: int| 0usize)
                && b@.cursors == Seq::new(num_streams as nat, |i: int| 0usize),
            r matches Ok(b) ==> batch_roc_synced(b@),
            r matches Err(e) ==> e == KandError::InvalidParameter,
    {
        if period < 1 || num_streams == 0 {
            return Err(KandError::InvalidParameter);
        }
        let mut counts: Vec<usize> = Vec::new();
        let mut cursors: Vec<usize> = Vec::new();
        let mut i: usize = 0;
        while i < num_streams
            invariant
                i <= num_streams,
                counts@ == Seq::new(i as nat, |j: int| 0usize),
                cursors@ == Seq::new(i as nat, |j: int| 0usize),
            decreases num_streams - i,
        {
            counts.push(0);
            cursors.push(0);
            i += 1;
        }
        proof {
            vstd::arithmetic::div_mod::lemma_small_mod(0, period as nat);
        }
        Ok(BatchROC { period, num_streams, counts, cursors })
    }

    /// Restores a vectorized ROC from saved values.
    pub fn from_parts(period: usize, counts: Vec<usize>, cursors: Vec<usize>) -> (b: Self)
        ensures
            b@ == (BatchRocState {
                period: period as nat,
                num_streams: counts@.len(),
                counts: counts@,
                cursors: cursors@,
            }),
    {
        let num_streams = counts.len();
        BatchROC { period, num_streams, counts, cursors }
    }

    /// The period of every stream.
    pub fn period(&self) -> (p: usize)
        ensures
            p == self@.period,
    {
        self.period
    }

    /// The number of streams.
    pub fn num_streams(&self) -> (n: usize)
        ensures
            n == self@.num_streams,
    {
        self.num_streams
    }

    /// The inputs seen by each stream.
    pub fn counts(&self) -> (c: &Vec<usize>)
        ensures
            c@ == self@.counts,
    {
        &self.counts
    }

    /// The ring cursor of each stream.
    pub fn cursors(&self) -> (c: &Vec<usize>)
        ensures
            c@ == self@.cursors,
    {
        &self.cursors
    }

    /// Checks that an input batch has one value per stream.
    pub fn check_input(&self, input_len: usize) -> (r: Result<(), KandError>)
        ensures
            r is Ok <==> input_len == self@.num_streams,
            r is Err ==> r == Err::<(), KandError>(KandError::LengthMismatch),
    {
        if input_len != self.num_streams {
            return Err(KandError::LengthMismatch);
        }
        Ok(())
    }

    /// Position in the windows buffer of the slot `cursor` of `stream`.
    pub fn window_offset(&self, stream: usize, cursor: usize) -> (o: usize)
        requires
            stream < self@.num_streams,
            cursor < self@.period,
            self@.num_streams * self@.period <= usize::MAX,
        ensures
            o == stream * self@.period + cursor,
            o < self@.num_streams * self@.period,
    {
        proof {
            vstd::arithmetic::mul::lemma_mul_inequality(
                stream as int + 1,
                self.num_streams as int,
                self.period as int,
            );
            vstd::arithmetic::mul::lemma_mul_is_distributive_add_other_way(
                self.period as int,
                stream as int,
                1,
            );
        }
        stream * self.period + cursor
    }

    /// Takes one more input on `stream`: returns the slot that holds its input `period`
    /// back and whether the stream is still warming up, then moves its cursor forward.
    pub fn next(&mut self, stream: usize) -> (step: RingStep)
        requires
            stream < old(self)@.counts.len(),
            stream < old(self)@.cursors.len(),
            old(self)@.cursors[stream as int] < old(self)@.period,
            old(self)@.counts[stream as int] < usize::MAX,
        ensures
            final(self)@.period == old(self)@.period,
            final(self)@.num_streams == old(self)@.num_streams,
            final(self)@.counts == old(self)@.counts.update(
                stream as int,
                (old(self)@.counts[stream as int] + 1) as usize,
            ),
            final(self)@.cursors == old(self)@.cursors.update(
                stream as int,
                ((old(self)@.cursors[stream as int] + 1) % (old(self)@.period as int)) as usize,
            ),
            step.slot == old(self)@.cursors[stream as int],
            step.warming_up == (old(self)@.counts[stream as int] + 1 <= old(self)@.period),
            batch_roc_synced(old(self)@) ==> batch_roc_synced(final(self)@),
    {
        let count = self.counts[stream] + 1;
        self.counts.set(stream, count);
        let slot = self.cursors[stream];
        self.cursors.set(stream, (slot + 1) % self.period);
        proof {
            if batch_roc_synced(old(self)@) {
                lemma_ring_advance(self.period as nat, (count - 1) as nat);
                assert forall|i: int| 0 <= i < self@.num_streams implies roc_synced(
                    #[trigger] stream_state(self@, i),
                ) by {
                    if i != stream {
                        assert(stream_state(self@, i) == stream_state(old(self)@, i));
                    }
                }
            }
        }
        RingStep { slot, warming_up: count <= self.period }
    }
}

/// In a synced vectorized ROC, each stream past its warm-up compares its input with the one
/// exactly `period` inputs before it, as a streaming ROC does.
pub proof fn lemma_stream_reads_input_period_back(b: BatchRocState, i: int)
    requires
        batch_roc_synced(b),
        0 <= i < b.num_streams,
        b.counts[i] >= b.period,
    ensures
        b.cursors[i] == ring_slot(b.period, (b.counts[i] + 1) as nat),
        ring_slot(b.period, (b.counts[i] + 1) as nat) == ring_slot(b.period, (b.counts[i] + 1 - b.period) as nat),
        forall|k: nat|
            b.counts[i] + 1 - b.period < k < b.counts[i] + 1 ==> #[trigger] ring_slot(b.period, k)
                != ring_slot(b.period, (b.counts[i] + 1) as nat),
{
    assert(roc_synced(stream_state(b, i)));
    lemma_reads_input_period_back(stream_state(b, i));
}

/// The lookback is `opt_period` for every period of at least 1; a shorter period is
/// rejected.
pub proof fn lemma_lookback_formula(opt_period: usize)
    ensures
        opt_period < 1 ==> spec_lookback(opt_period) == Err::<usize, KandError>(
            KandError::InvalidParameter,
        ),
        opt_period >= 1 ==> spec_lookback(opt_period) == Ok::<usize, KandError>(
            opt_period,
        ),
{
}

} // verus!
