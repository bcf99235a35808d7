use vstd::prelude::*;
use crate::errors::QBitFlowError;
use crate::fees::{partner_fee_of, protocol_fee_of, split_error, split_payment, PaymentSplit};
use crate::refund::{compute_refund, payment_transfer_refused, refund_as_reported, refund_due, ComputeRefundData, TransferLeg};
use crate::state::PaymentProcessed;

verus! {

/// What a one-time payment did.
#[derive(Debug, Clone, Copy, PartialEq, Eq)]
pub struct PaymentReport {
    pub event: PaymentProcessed,
    /// The shares that were computed; the partner share moves only where there is a partner.
    pub split: PaymentSplit,
    pub refund: u64,
    pub refund_failed: bool,
}

/// The three shares of a payment are those of the fee split.
pub open spec fn is_split_of(s: PaymentSplit, amount: u64, fee_bps: u16, organization_fee_bps: u16) -> bool {
    &&& s.protocol_fee == protocol_fee_of(amount, fee_bps)
    &&& s.partner_fee == partner_fee_of(amount, fee_bps, organization_fee_bps)
    &&& s.merchant_amount == amount - s.protocol_fee - s.partner_fee
}

/// A one-time payment in the native asset: protocol fee, partner fee when there
/// is a partner to receive it, then the merchant's remainder.
pub fn process_sol_payment<T: Fn(TransferLeg, u64) -> bool>(
    amount: u64,
    fee_bps: u16,
    uuid: [u8; 16],
    organization_fee_bps: u16,
    has_organization_fee_recipient: bool,
    transfer: &T,
) -> (r: Result<PaymentReport, QBitFlowError>)
    requires
        forall|leg: TransferLeg, a: u64| call_requires(*transfer, (leg, a)),
    ensures
        split_error(amount, fee_bps, organization_fee_bps) matches Some(e) ==> r == Err::<PaymentReport, QBitFlowError>(e),
        r matches Err(e) ==> split_error(amount, fee_bps, organization_fee_bps) is Some
            || (e == QBitFlowError::TransferFailed && ({
                let fee = protocol_fee_of(amount, fee_bps) as u64;
                let partner = partner_fee_of(amount, fee_bps, organization_fee_bps) as u64;
                payment_transfer_refused(*transfer, fee, partner, partner > 0 && has_organization_fee_recipient,
                    (amount - fee - partner) as u64)
            })),
        r matches Ok(rep) ==> {
            &&& split_error(amount, fee_bps, organization_fee_bps) is None
            &&& is_split_of(rep.split, amount, fee_bps, organization_fee_bps)
            &&& call_ensures(*transfer, (TransferLeg::ProtocolFee, rep.split.protocol_fee), true)
            &&& rep.split.partner_fee > 0 && has_organization_fee_recipient
                ==> call_ensures(*transfer, (TransferLeg::PartnerFee, rep.split.partner_fee), true)
            &&& call_ensures(*transfer, (TransferLeg::Merchant, rep.split.merchant_amount), true)
            &&& rep.refund == 0 && !rep.refund_failed
            &&& rep.event == (PaymentProcessed { uuid })
        },
{
    if amount == 0 {
        return Err(QBitFlowError::ZeroAmount);
    }
    let split = split_payment(amount, fee_bps, organization_fee_bps)?;
    if !transfer(TransferLeg::ProtocolFee, split.protocol_fee) {
        return Err(QBitFlowError::TransferFailed);
    }
    if split.partner_fee > 0 && has_organization_fee_recipient {
        if !transfer(TransferLeg::PartnerFee, split.partner_fee) {
            return Err(QBitFlowError::TransferFailed);
        }
    }
    if !transfer(TransferLeg::Merchant, split.merchant_amount) {
        return Err(QBitFlowError::TransferFailed);
    }
    Ok(PaymentReport { event: PaymentProcessed { uuid }, split, refund: 0, refund_failed: false })
}

/// A one-time payment in a token: as in the native asset, then an uncapped compute
/// refund, moved best effort; no error of the refund fails the payment.
pub fn process_token_payment<T: Fn(TransferLeg, u64) -> bool>(
    amount: u64,
    fee_bps: u16,
    uuid: [u8; 16],
    organization_fee_bps: u16,
    compute_refund_params: &ComputeRefundData,
    transfer: &T,
) -> (r: Result<PaymentReport, QBitFlowError>)
    requires
        forall|leg: TransferLeg, a: u64| call_requires(*transfer, (leg, a)),
    ensures
        split_error(amount, fee_bps, organization_fee_bps) matches Some(e) ==> r == Err::<PaymentReport, QBitFlowError>(e),
        r matches Err(e) ==> split_error(amount, fee_bps, organization_fee_bps) is Some
            || (e == QBitFlowError::TransferFailed && ({
                let fee = protocol_fee_of(amount, fee_bps) as u64;
                let partner = partner_fee_of(amount, fee_bps, organization_fee_bps) as u64;
                payment_transfer_refused(*transfer, fee, partner, partner > 0, (amount - fee - partner) as u64)
            })),
        r matches Ok(rep) ==> {
            let due: u64 = match refund_due(0, *compute_refund_params) {
                Ok(d) => d,
                Err(_) => 0,
            };
            &&& split_error(amount, fee_bps, organization_fee_bps) is None
            &&& is_split_of(rep.split, amount, fee_bps, organization_fee_bps)
            &&& call_ensures(*transfer, (TransferLeg::ProtocolFee, rep.split.protocol_fee), true)
            &&& rep.split.partner_fee > 0 ==> call_ensures(*transfer, (TransferLeg::PartnerFee, rep.split.partner_fee), true)
            &&& call_ensures(*transfer, (TransferLeg::Merchant, rep.split.merchant_amount), true)
            &&& rep.refund == due || rep.refund == 0
            &&& rep.refund_failed == (due > 0 && rep.refund == 0)
            &&& refund_as_reported(*transfer, rep.refund, due)
            &&& rep.event == (PaymentProcessed { uuid })
        },
{
    if amount == 0 {
        return Err(QBitFlowError::ZeroAmount);
    }
    let split = split_payment(amount, fee_bps, organization_fee_bps)?;
    if !transfer(TransferLeg::ProtocolFee, split.protocol_fee) {
        return Err(QBitFlowError::TransferFailed);
    }
    if split.partner_fee > 0 {
        if !transfer(TransferLeg::PartnerFee, split.partner_fee) {
            return Err(QBitFlowError::TransferFailed);
        }
    }
    if !transfer(TransferLeg::Merchant, split.merchant_amount) {
        return Err(QBitFlowError::TransferFailed);
    }
    let refund: u64 = match compute_refund(0, compute_refund_params, transfer) {
        Ok(x) => x,
        Err(_) => 0,
    };
    let refund_failed = match crate::refund::refund_amount(0, compute_refund_params) {
        Ok(d) => d > 0 && refund == 0,
        Err(_) => false,
    };
    Ok(PaymentReport { event: PaymentProcessed { uuid }, split, refund, refund_failed })
}

} // verus!
