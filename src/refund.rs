use vstd::prelude::*;
use crate::constants::REFUND_SCALE;
use crate::errors::QBitFlowError;

verus! {

/// The destination of a transfer the engine asks for.
#[derive(Debug, Clone, Copy, PartialEq, Eq, Structural)]
pub enum TransferLeg {
    /// Protocol fee, to the fee recipient.
    ProtocolFee,
    /// Partner (organization) fee, to the partner.
    PartnerFee,
    /// What is left of the payment, to the merchant.
    Merchant,
    /// Reimbursement of a compute cost, to the fee recipient.
    ComputeRefund,
}

/// A compute cost paid in the base unit, and the price of one token in that unit,
/// both at the fixed-point scale `REFUND_SCALE`.
#[derive(Debug, Clone, Copy, PartialEq, Eq, Structural)]
pub struct ComputeRefundData {
    pub token_price_in_lamports: u64,
    pub compute_cost_in_lamports: u64,
}

/// The token-equivalent of the compute cost: `cost * price / SCALE`.
pub open spec fn refund_tokens(params: ComputeRefundData) -> int {
    (params.compute_cost_in_lamports as int) * (params.token_price_in_lamports as int) / (REFUND_SCALE as int)
}

/// What a refund request comes to: `Ok(0)` when either input is zero, the
/// token amount when it fits the cap (a cap of zero caps nothing), an error otherwise.
pub open spec fn refund_due(max_amount_refund: u64, params: ComputeRefundData) -> Result<u64, QBitFlowError> {
    if params.token_price_in_lamports == 0 || params.compute_cost_in_lamports == 0 {
        Ok(0u64)
    } else if refund_tokens(params) > u64::MAX {
        Err(QBitFlowError::Overflow)
    } else if max_amount_refund > 0 && refund_tokens(params) > max_amount_refund {
        Err(QBitFlowError::MaxAmountExceeded)
    } else {
        Ok(refund_tokens(params) as u64)
    }
}

/// One of the transfers of a payment reported failure: the protocol fee, the
/// partner fee (where it is sent), or the merchant's remainder.
pub open spec fn payment_transfer_refused<T: Fn(TransferLeg, u64) -> bool>(
    transfer: T,
    protocol_fee: u64,
    partner_fee: u64,
    partner_sent: bool,
    merchant_amount: u64,
) -> bool {
    ||| call_ensures(transfer, (TransferLeg::ProtocolFee, protocol_fee), false)
    ||| partner_sent && call_ensures(transfer, (TransferLeg::PartnerFee, partner_fee), false)
    ||| call_ensures(transfer, (TransferLeg::Merchant, merchant_amount), false)
}

/// A refund of `refund` out of `due` was charged only as far as its transfer
/// reported: a refund was moved by a transfer that succeeded, and one that was
/// due but not charged had its transfer refused.
pub open spec fn refund_as_reported<T: Fn(TransferLeg, u64) -> bool>(transfer: T, refund: u64, due: u64) -> bool {
    &&& refund > 0 ==> call_ensures(transfer, (TransferLeg::ComputeRefund, refund), true)
    &&& due > 0 && refund == 0 ==> call_ensures(transfer, (TransferLeg::ComputeRefund, due), false)
}

/// Converts a compute cost into tokens, under a cap (`0` for no cap).
pub fn refund_amount(max_amount_refund: u64, params: &ComputeRefundData) -> (r: Result<u64, QBitFlowError>)
    ensures
        r == refund_due(max_amount_refund, *params),
{
    if params.token_price_in_lamports == 0 {
        return Ok(0);
    }
    if params.compute_cost_in_lamports == 0 {
        return Ok(0);
    }
    assert((params.compute_cost_in_lamports as u128) * (params.token_price_in_lamports as u128)
        <= 0xffff_ffff_ffff_ffffu128 * 0xffff_ffff_ffff_ffffu128) by (nonlinear_arith);
    let wide: u128 = (params.compute_cost_in_lamports as u128) * (params.token_price_in_lamports as u128)
        / (REFUND_SCALE as u128);
    if wide > u64::MAX as u128 {
        return Err(QBitFlowError::Overflow);
    }
    let tokens = wide as u64;
    if max_amount_refund > 0 && tokens > max_amount_refund {
        return Err(QBitFlowError::MaxAmountExceeded);
    }
    Ok(tokens)
}

/// Works out the refund and moves it through `transfer`, best effort.
///
/// A refund that is due but refused by `transfer` degrades to `Ok(0)`: the
/// caller learns of it from its own transfer having failed. Errors of the
/// calculation itself are returned as they are.
pub fn compute_refund<T: Fn(TransferLeg, u64) -> bool>(
    max_amount_refund: u64,
    params: &ComputeRefundData,
    transfer: &T,
) -> (r: Result<u64, QBitFlowError>)
    requires
        forall|leg: TransferLeg, a: u64| call_requires(*transfer, (leg, a)),
    ensures
        refund_due(max_amount_refund, *params) is Err ==> r == refund_due(max_amount_refund, *params),
        refund_due(max_amount_refund, *params) matches Ok(due) ==> (r matches Ok(x) && (x == due || x == 0)),
        r matches Ok(x) ==> (x > 0 ==> call_ensures(*transfer, (TransferLeg::ComputeRefund, x), true)),
        refund_due(max_amount_refund, *params) matches Ok(due) ==> (due > 0 && r == Ok::<u64, QBitFlowError>(0)
            ==> call_ensures(*transfer, (TransferLeg::ComputeRefund, due), false)),
{
    let due = refund_amount(max_amount_refund, params)?;
    if due == 0 {
        return Ok(0);
    }
    if transfer(TransferLeg::ComputeRefund, due) {
        Ok(due)
    } else {
        Ok(0)
    }
}

} // verus!
