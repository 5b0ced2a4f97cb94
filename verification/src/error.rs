//! The ways in which a transition can be rejected.

use vstd::prelude::*;

verus! {

/// Why a transition was rejected. Every rejection leaves the curve untouched.
#[derive(Clone, Copy, Debug, PartialEq, Eq, Structural)]
pub enum PumpError {
    /// The curve has already reached its migration threshold.
    BondingCurveComplete,
    /// The requested amount meets or exceeds the virtual token reserves.
    InsufficientTokens,
    /// A division step had no representable result.
    InvalidCalculation,
    /// A checked arithmetic step left the 64-bit range, in either direction.
    Overflow,
    /// The computed cost or payout violates the caller's bound.
    SlippageExceeded,
}

impl PumpError {
    /// The text that goes with each rejection.
    pub open spec fn message_text(self) -> Seq<char> {
        match self {
            PumpError::BondingCurveComplete => "Bonding curve is complete"@,
            PumpError::InsufficientTokens => "Insufficient tokens"@,
            PumpError::InvalidCalculation => "Invalid calculation"@,
            PumpError::Overflow => "Overflow"@,
            PumpError::SlippageExceeded => "Slippage exceeded"@,
        }
    }

    /// A short description of the rejection, for logs and clients.
    pub fn message(&self) -> (text: &'static str)
        ensures
            text@ == self.message_text(),
    {
        match self {
            PumpError::BondingCurveComplete => "Bonding curve is complete",
            PumpError::InsufficientTokens => "Insufficient tokens",
            PumpError::InvalidCalculation => "Invalid calculation",
            PumpError::Overflow => "Overflow",
            PumpError::SlippageExceeded => "Slippage exceeded",
        }
    }
}

} // verus!
