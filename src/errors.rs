use vstd::prelude::*;

verus! {

/// Every failure the engine reports, one named condition each.
#[derive(Debug, Clone, Copy, PartialEq, Eq, Structural)]
pub enum QBitFlowError {
    ZeroAmount,
    InvalidFeePercentage,
    PaymentNotDueYet,
    InvalidFrequency,
    InsufficientAllowance,
    Unauthorized,
    Overflow,
    InvalidSubscriptionParameters,
    CannotCancelActiveSubscription,
    MaxAmountExceeded,
    InvalidAmount,
    MaxAmountInvalid,
    /// A transfer of the payment itself (not of a compute refund) was refused.
    TransferFailed,
}

} // verus!
