//! Recurring-billing and delegated-spending engine: a shared allowance pool per
//! (subscriber, asset), subscriptions that draw from it, fee splitting, and
//! compute-cost refunds, all with checked arithmetic.
//!
//! Moving funds is left to the caller, who hands each operation a transfer
//! function; the engine decides what moves, in which order, and what the
//! records become whatever the transfers report.
pub mod commitment;
pub mod constants;
pub mod errors;
pub mod fees;
pub mod ledger;
pub mod payments;
pub mod permit;
pub mod refund;
pub mod state;
pub mod subscriptions;

pub use commitment::create_subscription_hash;
pub use constants::{FEE_DENOMINATOR, MAX_FEE_BPS, MIN_FEE_FOR_CONTRACT_BPS, MIN_FREQUENCY, PAYG_GRACE_SECONDS, REFUND_SCALE};
pub use errors::QBitFlowError;
pub use fees::{calculate_fee, split_payment, PaymentSplit};
pub use payments::{process_sol_payment, process_token_payment, PaymentReport};
pub use permit::PermitRegistry;
pub use refund::{compute_refund, refund_amount, ComputeRefundData, TransferLeg};
pub use state::{
    delegate_needs_reset, initialize, update_owner, AllowanceIncreased, Authority, ComputeRefundFailed,
    MaxAmountUpdated, PaymentProcessed, Subscription, SubscriptionCancelled, SubscriptionCreated,
    SubscriptionPaymentProcessed,
};
pub use subscriptions::{
    cancel_subscription, create_subscription, execute_subscription, force_cancel_subscription, increase_allowance,
    update_max_amount, CapUpdateReport, CreationReport, ExecutionReport, IncreaseReport,
};
