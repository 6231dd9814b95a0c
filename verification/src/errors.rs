use vstd::prelude::*;

verus! {

/// The ways in which an operation is turned down. None of them is retried by
/// the library; a caller may submit again with other parameters.
#[derive(Clone, Copy, Debug, PartialEq, Eq, Structural)]
pub enum XGrowthError {
    /// The quoted amount is worse than the bound the caller stated.
    SlippageExceeded,
    /// A buy would push the circulating supply past the curve's cap.
    MaxSupplyReached,
    /// The reserve cannot cover what a sell would pay out.
    InsufficientReserve,
    /// A performance report came from an identity other than the reporter.
    UnauthorizedOracle,
    /// A claim was made with nothing pending.
    NoRewardsToClaim,
    /// The curve parameters are malformed, or give no representable quote.
    InvalidBondingCurve,
    /// A performance report would take a counter past its width.
    CounterOverflow,
}

impl XGrowthError {
    /// The text shown to a user for each error.
    pub open spec fn spec_message(self) -> Seq<char> {
        match self {
            XGrowthError::SlippageExceeded => "Slippage tolerance exceeded"@,
            XGrowthError::MaxSupplyReached => "Maximum supply reached"@,
            XGrowthError::InsufficientReserve => "Insufficient reserve balance"@,
            XGrowthError::UnauthorizedOracle => "Unauthorized oracle"@,
            XGrowthError::NoRewardsToClaim => "No rewards to claim"@,
            XGrowthError::InvalidBondingCurve => "Invalid bonding curve parameters"@,
            XGrowthError::CounterOverflow => "Performance counter overflow"@,
        }
    }

    /// Returns the text shown to a user for this error.
    pub fn message(&self) -> (r: &'static str)
        ensures
            r@ == self.spec_message(),
    {
        match self {
            XGrowthError::SlippageExceeded => "Slippage tolerance exceeded",
            XGrowthError::MaxSupplyReached => "Maximum supply reached",
            XGrowthError::InsufficientReserve => "Insufficient reserve balance",
            XGrowthError::UnauthorizedOracle => "Unauthorized oracle",
            XGrowthError::NoRewardsToClaim => "No rewards to claim",
            XGrowthError::InvalidBondingCurve => "Invalid bonding curve parameters",
            XGrowthError::CounterOverflow => "Performance counter overflow",
        }
    }
}

} // verus!
