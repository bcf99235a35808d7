use vstd::prelude::*;

verus! {

/// Basis points in one whole.
pub const FEE_DENOMINATOR: u16 = 10000;

/// Shortest billing period accepted, in seconds (seven days).
pub const MIN_FREQUENCY: u32 = 604800;

/// Floor on the protocol fee rate, in basis points.
pub const MIN_FEE_FOR_CONTRACT_BPS: u16 = 75;

/// Ceiling on either fee rate, in basis points.
pub const MAX_FEE_BPS: u16 = 1000;

/// Fixed-point scale of token prices and compute costs (smallest units per whole).
pub const REFUND_SCALE: u64 = 1000000000;

/// Skew subtracted from a pay-as-you-go due date so that it does not drift later each cycle.
pub const PAYG_GRACE_SECONDS: i64 = 3600;

} // verus!
