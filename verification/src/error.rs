use vstd::prelude::*;

verus! {

/// Every way a quote request can fail.
///
/// All failures are returned as values; no verified function of this
/// library panics on an input its precondition admits.
#[derive(Clone, Copy, Debug, PartialEq, Eq, Structural)]
pub enum SwapError {
    /// A reserve needed by the trade is empty, or the curve cannot
    /// produce any output without draining the destination reserve.
    InsufficientLiquidity,
    /// An intermediate product of the fixed-point arithmetic exceeds
    /// the unsigned 128-bit space, or a result does not fit the
    /// caller's 64-bit amount type.
    Overflow,
    /// A time-dependent curve was invoked without a present timestamp.
    MissingTimestamp,
    /// The requested input asset matches neither of the pool's mints.
    UnknownAsset,
    /// The fee schedule is internally inconsistent: a zero denominator,
    /// a numerator above its denominator, or fee components whose
    /// denominators differ where a common one is required.
    ConfigurationError,
}

impl SwapError {
    /// A short, stable description of the error for hosts to display.
    pub fn message(&self) -> (r: &'static str)
        ensures
            r@ == self.message_spec(),
    {
        match self {
            SwapError::InsufficientLiquidity => "insufficient liquidity",
            SwapError::Overflow => "arithmetic overflow",
            SwapError::MissingTimestamp => "missing timestamp",
            SwapError::UnknownAsset => "unknown asset",
            SwapError::ConfigurationError => "inconsistent fee configuration",
        }
    }

    pub open spec fn message_spec(self) -> Seq<char> {
        match self {
            SwapError::InsufficientLiquidity => "insufficient liquidity"@,
            SwapError::Overflow => "arithmetic overflow"@,
            SwapError::MissingTimestamp => "missing timestamp"@,
            SwapError::UnknownAsset => "unknown asset"@,
            SwapError::ConfigurationError => "inconsistent fee configuration"@,
        }
    }
}

} // verus!
