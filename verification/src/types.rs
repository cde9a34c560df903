use vstd::prelude::*;

use crate::TAInt;

verus! {

/// Moving average kinds that an indicator may be configured with.
#[derive(Debug, Clone, Copy, PartialEq, Eq, Structural)]
pub enum MAType {
    SMA,
    EMA,
    WMA,
}

/// Signals emitted by pattern and trend indicators.
#[derive(Debug, Clone, Copy, PartialEq, Eq, Structural)]
pub enum Signal {
    /// A bullish pattern or an uptrend.
    Bullish,
    /// A bearish pattern or a downtrend.
    Bearish,
    /// No pattern, or no trend yet.
    Neutral,
    /// A pattern without direction (such as a doji).
    Pattern,
}

/// The integer that encodes a signal in indicator outputs.
pub open spec fn signal_value(s: Signal) -> TAInt {
    match s {
        Signal::Bullish => 100,
        Signal::Bearish => -100i64,
        Signal::Neutral => 0,
        Signal::Pattern => 100,
    }
}

impl Signal {
    /// Returns the integer that encodes this signal in indicator outputs.
    pub fn value(self) -> (v: TAInt)
        ensures
            v == signal_value(self),
    {
        match self {
            Signal::Bullish => 100,
            Signal::Bearish => -100i64,
            Signal::Neutral => 0,
            Signal::Pattern => 100,
        }
    }
}

impl From<Signal> for TAInt {
    fn from(s: Signal) -> (v: TAInt) {
        s.value()
    }
}

impl vstd::std_specs::convert::FromSpecImpl<Signal> for TAInt {
    open spec fn obeys_from_spec() -> bool {
        true
    }

    open spec fn from_spec(s: Signal) -> TAInt {
        signal_value(s)
    }
}

/// The signal codes: a bullish signal or a pattern is `100`, a bearish signal `-100` and no
/// signal `0`; the bullish and bearish codes are opposite.
pub proof fn lemma_signal_codes(s: Signal)
    ensures
        signal_value(s) == (match s {
            Signal::Bullish | Signal::Pattern => 100int,
            Signal::Bearish => -100int,
            Signal::Neutral => 0int,
        }),
        signal_value(Signal::Bearish) == -signal_value(Signal::Bullish),
{
}

} // verus!
