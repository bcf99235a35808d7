use vstd::prelude::*;
use crate::constants::{FEE_DENOMINATOR, MAX_FEE_BPS, MIN_FEE_FOR_CONTRACT_BPS};
use crate::errors::QBitFlowError;

verus! {

/// The protocol rate actually charged: the requested rate, raised to the floor.
pub open spec fn effective_fee_bps(fee_bps: u16) -> int {
    if fee_bps < MIN_FEE_FOR_CONTRACT_BPS {
        MIN_FEE_FOR_CONTRACT_BPS as int
    } else {
        fee_bps as int
    }
}

/// `floor(amount * bps / 10000)`.
pub open spec fn bps_of(amount: int, bps: int) -> int {
    amount * bps / (FEE_DENOMINATOR as int)
}

pub open spec fn protocol_fee_of(amount: u64, fee_bps: u16) -> int {
    bps_of(amount as int, effective_fee_bps(fee_bps))
}

/// The partner fee is carved out of what the protocol fee leaves.
pub open spec fn partner_fee_of(amount: u64, fee_bps: u16, partner_bps: u16) -> int {
    if partner_bps == 0 {
        0
    } else {
        bps_of(amount - protocol_fee_of(amount, fee_bps), partner_bps as int)
    }
}

/// The inputs on which a split is refused, and with which error.
pub open spec fn split_error(amount: u64, fee_bps: u16, partner_bps: u16) -> Option<QBitFlowError> {
    if amount == 0 {
        Some(QBitFlowError::ZeroAmount)
    } else if fee_bps > MAX_FEE_BPS || partner_bps > MAX_FEE_BPS {
        Some(QBitFlowError::InvalidFeePercentage)
    } else {
        None
    }
}

proof fn lemma_bps_bounds(amount: int, bps: int)
    requires
        0 <= amount,
        0 <= bps <= 10000,
    ensures
        0 <= bps_of(amount, bps) <= amount,
{
    assert(0 <= amount * bps <= amount * 10000) by (nonlinear_arith)
        requires 0 <= amount, 0 <= bps <= 10000;
    assert(amount * 10000 / 10000 == amount) by (nonlinear_arith)
        requires 0 <= amount;
    assert((amount * bps) / 10000 <= (amount * 10000) / 10000) by (nonlinear_arith)
        requires amount * bps <= amount * 10000, 0 <= amount * bps;
}

/// `floor(amount * bps / 10000)` on machine integers, through a widened product.
fn fee_part(amount: u64, bps: u16) -> (r: u64)
    requires
        bps <= 10000,
    ensures
        r as int == bps_of(amount as int, bps as int),
        r <= amount,
{
    proof {
        lemma_bps_bounds(amount as int, bps as int);
    }
    assert((amount as u128) * (bps as u128) <= 0xffff_ffff_ffff_ffffu128 * 10000) by (nonlinear_arith)
        requires amount <= 0xffff_ffff_ffff_ffffu64, bps <= 10000;
    let wide: u128 = (amount as u128) * (bps as u128) / (FEE_DENOMINATOR as u128);
    wide as u64
}

/// Splits `amount` into the protocol fee and the partner fee.
///
/// The protocol rate is the requested one raised to the floor; the partner fee is
/// taken from what remains after the protocol fee.
pub fn calculate_fee(amount: u64, fee_bps: u16, organization_fee_bps: u16) -> (r: Result<(u64, u64), QBitFlowError>)
    ensures
        split_error(amount, fee_bps, organization_fee_bps) is Some <==> r is Err,
        r matches Err(e) ==> Some(e) == split_error(amount, fee_bps, organization_fee_bps),
        r matches Ok((fee, partner)) ==> {
            &&& fee as int == protocol_fee_of(amount, fee_bps)
            &&& partner as int == partner_fee_of(amount, fee_bps, organization_fee_bps)
            &&& fee + partner <= amount
        },
{
    if amount == 0 {
        return Err(QBitFlowError::ZeroAmount);
    }
    if fee_bps > MAX_FEE_BPS || organization_fee_bps > MAX_FEE_BPS {
        return Err(QBitFlowError::InvalidFeePercentage);
    }
    let effective: u16 = if fee_bps < MIN_FEE_FOR_CONTRACT_BPS {
        MIN_FEE_FOR_CONTRACT_BPS
    } else {
        fee_bps
    };
    let fee = fee_part(amount, effective);
    let partner: u64 = if organization_fee_bps > 0 {
        let remaining = amount - fee;
        let p = fee_part(remaining, organization_fee_bps);
        p
    } else {
        0
    };
    Ok((fee, partner))
}

/// The three shares of one payment.
#[derive(Debug, Clone, Copy, PartialEq, Eq, Structural)]
pub struct PaymentSplit {
    pub protocol_fee: u64,
    pub partner_fee: u64,
    pub merchant_amount: u64,
}

/// Splits a payment into protocol fee, partner fee and the merchant's remainder.
///
/// The three shares always add up to `amount`.
pub fn split_payment(amount: u64, fee_bps: u16, organization_fee_bps: u16) -> (r: Result<PaymentSplit, QBitFlowError>)
    ensures
        split_error(amount, fee_bps, organization_fee_bps) is Some <==> r is Err,
        r matches Err(e) ==> Some(e) == split_error(amount, fee_bps, organization_fee_bps),
        r matches Ok(s) ==> {
            &&& s.protocol_fee as int == protocol_fee_of(amount, fee_bps)
            &&& s.partner_fee as int == partner_fee_of(amount, fee_bps, organization_fee_bps)
            &&& s.merchant_amount as int == amount - s.protocol_fee - s.partner_fee
            &&& s.protocol_fee + s.partner_fee + s.merchant_amount == amount
        },
{
    let (fee, partner) = calculate_fee(amount, fee_bps, organization_fee_bps)?;
    let merchant = match amount.checked_sub(fee) {
        Some(x) => match x.checked_sub(partner) {
            Some(y) => y,
            None => return Err(QBitFlowError::Overflow),
        },
        None => return Err(QBitFlowError::Overflow),
    };
    Ok(PaymentSplit { protocol_fee: fee, partner_fee: partner, merchant_amount: merchant })
}

} // verus!
