use vstd::prelude::*;

verus! {

/// The closed set of reasons an operation can refuse to run. Every failure
/// aborts the whole operation and leaves every record unchanged.
#[derive(Clone, Copy, Debug, PartialEq, Eq, Structural)]
pub enum UmayError {
    /// The caller is not the authority the operation demands.
    Unauthorized,
    /// A deposit arrived at or after the pool's deadline.
    DeadlinePassed,
    /// A funding-only operation was attempted outside the Funding state.
    NotFunding,
    /// A settlement operation found the pool in the wrong lifecycle state.
    InvalidState,
    /// A zero amount, an empty balance, or a vault too small for a payout.
    InsufficientFunds,
    /// An unknown scenario selector, or the selected payout gate is inactive.
    InvalidScenario,
}

} // verus!
