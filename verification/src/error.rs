use vstd::prelude::*;

verus! {

/// Errors reported by the indicator functions.
#[derive(Debug, Clone, Copy, PartialEq, Eq, Structural)]
pub enum KandError {
    /// A parameter is out of its range (for example a period below its minimum).
    InvalidParameter,
    /// The input is empty or otherwise unusable.
    InvalidData,
    /// Input and output series have different lengths.
    LengthMismatch,
    /// The input is too short for the requested lookback.
    InsufficientData,
    /// A NaN was found in the input.
    NaNDetected,
    /// A numeric conversion failed.
    ConversionError,
}

} // verus!
