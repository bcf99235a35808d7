use vstd::prelude::*;
use crate::commitment::{commitment_of, create_subscription_hash};
use crate::constants::{MIN_FREQUENCY, PAYG_GRACE_SECONDS};
use crate::errors::QBitFlowError;
use crate::fees::{protocol_fee_of, partner_fee_of, split_error, split_payment, PaymentSplit};
use crate::ledger::{
    lemma_pool_retires, lemma_pool_updates, pool_consistent, slice_added, slice_removed, slice_replaced,
};
use crate::permit::PermitRegistry;
use crate::refund::{
    compute_refund, payment_transfer_refused, refund_amount, refund_as_reported, refund_due, ComputeRefundData,
    TransferLeg,
};
use crate::state::{
    same_bytes, AllowanceIncreased, MaxAmountUpdated, Subscription, SubscriptionCancelled, SubscriptionCreated,
    SubscriptionPaymentProcessed,
};

verus! {

/// The due date after a payment: one period on for a fixed-period subscription,
/// one period less the grace from now for a pay-as-you-go one.
pub open spec fn next_due_after(sub: Subscription, now: i64, frequency: u32, is_payg: bool) -> int {
    if is_payg {
        now + frequency - PAYG_GRACE_SECONDS
    } else {
        sub.next_payment_due + frequency
    }
}

/// What recording a settled payment of `amount` plus a refund of `refund` comes to:
/// the subscription and registry after it and the allowance left, or the error.
pub open spec fn settlement(
    sub: Subscription,
    registry: PermitRegistry,
    amount: u64,
    refund: u64,
    now: i64,
    frequency: u32,
    is_payg: bool,
) -> Result<(Subscription, PermitRegistry, u64), QBitFlowError> {
    let delta = amount + refund;
    let next = next_due_after(sub, now, frequency, is_payg);
    let charged_sub = Subscription {
        used_allowance: (sub.used_allowance + delta) as u64,
        last_payment_amount: amount,
        next_payment_due: next as i64,
        ..sub
    };
    let charged_reg = PermitRegistry { total_used: (registry.total_used + delta) as u64, ..registry };
    if amount >= sub.max_amount {
        Err(QBitFlowError::MaxAmountExceeded)
    } else if delta > u64::MAX || registry.total_used + delta > u64::MAX {
        Err(QBitFlowError::Overflow)
    } else if registry.total_used + delta > registry.total_allowance {
        Err(QBitFlowError::InsufficientAllowance)
    } else if sub.used_allowance + delta > sub.allowance {
        Err(QBitFlowError::InsufficientAllowance)
    } else if next < i64::MIN || next > i64::MAX {
        Err(QBitFlowError::Overflow)
    } else if sub.stopped {
        if charged_reg.spec_can_revoke(charged_sub.allowance as int, charged_sub.used_allowance as int) {
            Ok((charged_sub, PermitRegistry {
                total_allowance: (charged_reg.total_allowance - charged_sub.allowance) as u64,
                total_used: (charged_reg.total_used - charged_sub.used_allowance) as u64,
                ..registry
            }, 0u64))
        } else {
            Err(QBitFlowError::Overflow)
        }
    } else {
        Ok((charged_sub, charged_reg, (charged_sub.allowance - charged_sub.used_allowance) as u64))
    }
}

/// The due date after a payment, checked against the range of `i64`.
fn next_due(sub: &Subscription, now: i64, frequency: u32, is_payg: bool) -> (r: Option<i64>)
    ensures
        r matches Some(d) ==> d == next_due_after(*sub, now, frequency, is_payg),
        r is None <==> (next_due_after(*sub, now, frequency, is_payg) < i64::MIN
            || next_due_after(*sub, now, frequency, is_payg) > i64::MAX),
{
    let wide: i128 = if is_payg {
        now as i128 + frequency as i128 - PAYG_GRACE_SECONDS as i128
    } else {
        sub.next_payment_due as i128 + frequency as i128
    };
    if wide < i64::MIN as i128 || wide > i64::MAX as i128 {
        None
    } else {
        Some(wide as i64)
    }
}

impl Subscription {
    /// Records a settled payment of `amount`, with a compute refund of `refund`
    /// already moved: both counters grow by `amount + refund`, the schedule
    /// advances, and a stopped subscription gives its slice back to the registry.
    ///
    /// Returns the allowance left (zero once stopped). On error nothing changes.
    pub fn record_payment(
        &mut self,
        registry: &mut PermitRegistry,
        amount: u64,
        refund: u64,
        now: i64,
        frequency: u32,
        is_payg: bool,
    ) -> (r: Result<u64, QBitFlowError>)
        ensures
            r is Err ==> *final(self) == *old(self) && *final(registry) == *old(registry),
            match settlement(*old(self), *old(registry), amount, refund, now, frequency, is_payg) {
                Ok((s, g, left)) => r == Ok::<u64, QBitFlowError>(left) && *final(self) == s && *final(registry) == g,
                Err(e) => r == Err::<u64, QBitFlowError>(e),
            },
    {
        if amount >= self.max_amount {
            return Err(QBitFlowError::MaxAmountExceeded);
        }
        let delta = match amount.checked_add(refund) {
            Some(d) => d,
            None => return Err(QBitFlowError::Overflow),
        };
        let mut reg = *registry;
        reg.use_allowance(delta)?;
        if self.used_allowance > self.allowance || delta > self.allowance - self.used_allowance {
            return Err(QBitFlowError::InsufficientAllowance);
        }
        let next = match next_due(self, now, frequency, is_payg) {
            Some(d) => d,
            None => return Err(QBitFlowError::Overflow),
        };
        let mut sub = *self;
        sub.used_allowance = sub.used_allowance + delta;
        sub.last_payment_amount = amount;
        sub.next_payment_due = next;
        let left: u64 = if sub.stopped {
            reg.revoke_allowance(&sub)?;
            0
        } else {
            sub.allowance - sub.used_allowance
        };
        *self = sub;
        *registry = reg;
        Ok(left)
    }
}

/// The checks a payment passes before any funds move, in the order they are
/// made, and the first one it fails.
pub open spec fn execution_error(
    sub: Subscription,
    registry: PermitRegistry,
    now: i64,
    amount: u64,
    fee_bps: u16,
    organization_fee_bps: u16,
    presented: Seq<u8>,
    params: ComputeRefundData,
) -> Option<QBitFlowError> {
    if now < sub.next_payment_due {
        Some(QBitFlowError::PaymentNotDueYet)
    } else if amount == 0 {
        Some(QBitFlowError::ZeroAmount)
    } else if amount >= sub.max_amount {
        Some(QBitFlowError::MaxAmountExceeded)
    } else if sub.subscription_hash@ != presented {
        Some(QBitFlowError::InvalidSubscriptionParameters)
    } else if sub.used_allowance + amount >= sub.allowance {
        Some(QBitFlowError::InsufficientAllowance)
    } else if registry.total_used + amount > registry.total_allowance {
        Some(QBitFlowError::InsufficientAllowance)
    } else if split_error(amount, fee_bps, organization_fee_bps) is Some {
        split_error(amount, fee_bps, organization_fee_bps)
    } else if refund_due((sub.max_amount - amount) as u64, params) is Err {
        Some(refund_due((sub.max_amount - amount) as u64, params)->Err_0)
    } else {
        None
    }
}

/// What one execution did.
#[derive(Debug, Clone, Copy, PartialEq, Eq)]
pub struct ExecutionReport {
    pub event: SubscriptionPaymentProcessed,
    /// The shares that were transferred.
    pub split: PaymentSplit,
    /// The compute refund that was moved and charged.
    pub refund: u64,
    /// A refund was due but its transfer was refused.
    pub refund_failed: bool,
    /// The subscription was stopped and has given its slice back: its record is to be closed.
    pub closed: bool,
}

/// Pulls one payment of `amount` from a due subscription.
///
/// Checks timing, the exclusive per-payment cap, the commitment against the
/// accounts presented, and both allowances; then transfers the protocol fee, the
/// partner fee (when there is one) and the merchant's remainder, moves the compute
/// refund best effort, and records it all with `record_payment`. On any error
/// nothing changes.
pub fn execute_subscription<T: Fn(TransferLeg, u64) -> bool>(
    sub: &mut Subscription,
    registry: &mut PermitRegistry,
    uuid: [u8; 16],
    now: i64,
    amount: u64,
    fee_bps: u16,
    frequency: u32,
    organization_fee_bps: u16,
    merchant_token_account: &[u8; 32],
    subscriber_token_account: &[u8; 32],
    organization_token_account: &[u8; 32],
    compute_refund_params: &ComputeRefundData,
    is_payg: bool,
    transfer: &T,
) -> (r: Result<ExecutionReport, QBitFlowError>)
    requires
        forall|leg: TransferLeg, a: u64| call_requires(*transfer, (leg, a)),
    ensures
        ({
            let presented = commitment_of(merchant_token_account@, subscriber_token_account@, frequency, organization_token_account@);
            let check = execution_error(*old(sub), *old(registry), now, amount, fee_bps, organization_fee_bps, presented, *compute_refund_params);
            let due = refund_due((old(sub).max_amount - amount) as u64, *compute_refund_params)->Ok_0;
            let fee = protocol_fee_of(amount, fee_bps) as u64;
            let partner = partner_fee_of(amount, fee_bps, organization_fee_bps) as u64;
            let merchant = (amount - fee - partner) as u64;
            &&& check matches Some(e) ==> r == Err::<ExecutionReport, QBitFlowError>(e)
            &&& r is Err ==> *final(sub) == *old(sub) && *final(registry) == *old(registry)
            &&& r matches Err(e) ==> (check is Some
                || (e == QBitFlowError::TransferFailed && payment_transfer_refused(*transfer, fee, partner, partner > 0, merchant))
                || (settlement(*old(sub), *old(registry), amount, 0, now, frequency, is_payg) == Err::<(Subscription, PermitRegistry, u64), QBitFlowError>(e)
                    && refund_as_reported(*transfer, 0, due))
                || (settlement(*old(sub), *old(registry), amount, due, now, frequency, is_payg) == Err::<(Subscription, PermitRegistry, u64), QBitFlowError>(e)
                    && refund_as_reported(*transfer, due, due)))
            &&& r matches Ok(rep) ==> {
                &&& check is None
                &&& rep.split.protocol_fee == protocol_fee_of(amount, fee_bps)
                &&& rep.split.partner_fee == partner_fee_of(amount, fee_bps, organization_fee_bps)
                &&& rep.split.merchant_amount == amount - rep.split.protocol_fee - rep.split.partner_fee
                &&& call_ensures(*transfer, (TransferLeg::ProtocolFee, rep.split.protocol_fee), true)
                &&& rep.split.partner_fee > 0 ==> call_ensures(*transfer, (TransferLeg::PartnerFee, rep.split.partner_fee), true)
                &&& call_ensures(*transfer, (TransferLeg::Merchant, rep.split.merchant_amount), true)
                &&& rep.refund == due || rep.refund == 0
                &&& rep.refund_failed == (due > 0 && rep.refund == 0)
                &&& refund_as_reported(*transfer, rep.refund, due)
                &&& settlement(*old(sub), *old(registry), amount, rep.refund, now, frequency, is_payg)
                    == Ok::<(Subscription, PermitRegistry, u64), QBitFlowError>((*final(sub), *final(registry), rep.event.remaining_allowance))
                &&& rep.event.uuid == uuid
                &&& rep.event.next_payment_due == final(sub).next_payment_due
                &&& rep.closed == old(sub).stopped
            }
        }),
{
    if now < sub.next_payment_due {
        return Err(QBitFlowError::PaymentNotDueYet);
    }
    if amount == 0 {
        return Err(QBitFlowError::ZeroAmount);
    }
    if amount >= sub.max_amount {
        return Err(QBitFlowError::MaxAmountExceeded);
    }
    let computed = create_subscription_hash(merchant_token_account, subscriber_token_account, frequency, organization_token_account);
    if !same_bytes(&sub.subscription_hash, &computed) {
        return Err(QBitFlowError::InvalidSubscriptionParameters);
    }
    if sub.used_allowance >= sub.allowance || amount >= sub.allowance - sub.used_allowance {
        return Err(QBitFlowError::InsufficientAllowance);
    }
    if !registry.has_enough_allowance(amount) {
        return Err(QBitFlowError::InsufficientAllowance);
    }
    let split = split_payment(amount, fee_bps, organization_fee_bps)?;
    let cap = sub.max_amount - amount;
    let due = refund_amount(cap, compute_refund_params)?;

    if !transfer(TransferLeg::ProtocolFee, split.protocol_fee) {
        return Err(QBitFlowError::TransferFailed);
    }
    if split.partner_fee > 0 {
        if !transfer(TransferLeg::PartnerFee, split.partner_fee) {
            return Err(QBitFlowError::TransferFailed);
        }
    }
    if !transfer(TransferLeg::Merchant, split.merchant_amount) {
        return Err(QBitFlowError::TransferFailed);
    }
    let refund = compute_refund(cap, compute_refund_params, transfer)?;
    let closed = sub.stopped;
    let left = sub.record_payment(registry, amount, refund, now, frequency, is_payg)?;
    Ok(ExecutionReport {
        event: SubscriptionPaymentProcessed { uuid, next_payment_due: sub.next_payment_due, remaining_allowance: left },
        split,
        refund,
        refund_failed: due > 0 && refund == 0,
        closed,
    })
}

/// The checks a new subscription passes before its compute refund is moved, in
/// order, and the first one it fails.
pub open spec fn creation_error(
    registry: PermitRegistry,
    now: i64,
    amount: u64,
    max_amount: u64,
    frequency: u32,
    allowance: u64,
    is_payg: bool,
    params: ComputeRefundData,
) -> Option<QBitFlowError> {
    if frequency < MIN_FREQUENCY {
        Some(QBitFlowError::InvalidFrequency)
    } else if max_amount <= amount {
        Some(QBitFlowError::InvalidAmount)
    } else if registry.total_used > registry.total_allowance || registry.total_allowance + allowance > u64::MAX {
        Some(QBitFlowError::Overflow)
    } else if is_payg && now + frequency > i64::MAX {
        Some(QBitFlowError::Overflow)
    } else if refund_due((max_amount - amount) as u64, params) is Err {
        Some(refund_due((max_amount - amount) as u64, params)->Err_0)
    } else {
        None
    }
}

/// A refund of `refund` fits a new slice of `allowance` in `registry`.
pub open spec fn opening_refund_fits(registry: PermitRegistry, allowance: u64, refund: u64) -> bool {
    &&& refund <= allowance
    &&& registry.total_used + refund <= registry.total_allowance + allowance
}

/// What creating a subscription did.
#[derive(Debug, Clone, Copy, PartialEq, Eq)]
pub struct CreationReport {
    pub subscription: Subscription,
    pub event: SubscriptionCreated,
    /// The spending right the agent must now be approved for on the subscriber's account.
    pub approval: u64,
    pub refund: u64,
    pub refund_failed: bool,
}

/// Opens a subscription and adds its slice to the registry.
///
/// A fixed-period subscription is due at once; a pay-as-you-go one at the end of
/// its first period. The commitment binds the accounts and frequency given here.
/// A compute refund capped by `max_amount - amount` is moved best effort and
/// charged to both counters. On error the registry is unchanged.
pub fn create_subscription<T: Fn(TransferLeg, u64) -> bool>(
    registry: &mut PermitRegistry,
    uuid: [u8; 16],
    now: i64,
    subscriber: [u8; 32],
    amount: u64,
    max_amount: u64,
    frequency: u32,
    allowance: u64,
    merchant_token_account: &[u8; 32],
    subscriber_token_account: &[u8; 32],
    organization_token_account: &[u8; 32],
    compute_refund_params: &ComputeRefundData,
    is_payg: bool,
    bump: u8,
    transfer: &T,
) -> (r: Result<CreationReport, QBitFlowError>)
    requires
        forall|leg: TransferLeg, a: u64| call_requires(*transfer, (leg, a)),
    ensures
        ({
            let check = creation_error(*old(registry), now, amount, max_amount, frequency, allowance, is_payg, *compute_refund_params);
            let due = refund_due((max_amount - amount) as u64, *compute_refund_params)->Ok_0;
            &&& check matches Some(e) ==> r == Err::<CreationReport, QBitFlowError>(e)
            &&& r is Err ==> *final(registry) == *old(registry)
            &&& r matches Err(e) ==> (check is Some || (e == QBitFlowError::InsufficientAllowance
                && !opening_refund_fits(*old(registry), allowance, due) && due > 0
                && call_ensures(*transfer, (TransferLeg::ComputeRefund, due), true)))
            &&& r matches Ok(rep) ==> {
                &&& check is None
                &&& rep.refund == due || rep.refund == 0
                &&& rep.refund_failed == (due > 0 && rep.refund == 0)
                &&& refund_as_reported(*transfer, rep.refund, due)
                &&& opening_refund_fits(*old(registry), allowance, rep.refund)
                &&& rep.subscription.subscriber == subscriber
                &&& rep.subscription.next_payment_due == (if is_payg { now + frequency } else { now as int })
                &&& rep.subscription.allowance == allowance
                &&& rep.subscription.used_allowance == rep.refund
                &&& rep.subscription.subscription_hash@ == commitment_of(merchant_token_account@,
                    subscriber_token_account@, frequency, organization_token_account@)
                &&& !rep.subscription.stopped
                &&& rep.subscription.max_amount == max_amount
                &&& rep.subscription.last_payment_amount == amount
                &&& rep.subscription.bump == bump
                &&& rep.subscription.wf()
                &&& slice_added(*old(registry), *final(registry), rep.subscription)
                &&& final(registry).bump == old(registry).bump
                &&& rep.approval == old(registry).total_allowance - old(registry).total_used + allowance
                &&& rep.event.uuid == uuid
                &&& rep.event.next_payment_due == rep.subscription.next_payment_due
                &&& rep.event.initial_allowance == allowance - rep.refund
            }
        }),
{
    if frequency < MIN_FREQUENCY {
        return Err(QBitFlowError::InvalidFrequency);
    }
    if max_amount <= amount {
        return Err(QBitFlowError::InvalidAmount);
    }
    let mut reg = *registry;
    let approval = reg.add_allowance(allowance)?;
    let next_payment_due: i64 = if is_payg {
        match now.checked_add(frequency as i64) {
            Some(d) => d,
            None => return Err(QBitFlowError::Overflow),
        }
    } else {
        now
    };
    let cap = max_amount - amount;
    let due = refund_amount(cap, compute_refund_params)?;
    let subscription_hash = create_subscription_hash(
        merchant_token_account,
        subscriber_token_account,
        frequency,
        organization_token_account,
    );
    let refund = compute_refund(cap, compute_refund_params, transfer)?;
    if refund > allowance {
        return Err(QBitFlowError::InsufficientAllowance);
    }
    reg.use_allowance(refund)?;
    let subscription = Subscription {
        subscriber,
        next_payment_due,
        allowance,
        used_allowance: refund,
        subscription_hash,
        stopped: false,
        max_amount,
        last_payment_amount: amount,
        bump,
    };
    *registry = reg;
    Ok(CreationReport {
        subscription,
        event: SubscriptionCreated { uuid, next_payment_due, initial_allowance: allowance - refund },
        approval,
        refund,
        refund_failed: due > 0 && refund == 0,
    })
}

/// The subscriber cancels.
///
/// A pay-as-you-go subscription is only marked stopped (`Ok(None)`): it is closed
/// at its next execution. A fixed-period one can be cancelled only before its
/// payment window opens; its slice then leaves the registry and its record is to
/// be closed (`Ok(Some(event))`). On error nothing changes.
pub fn cancel_subscription(
    sub: &mut Subscription,
    registry: &mut PermitRegistry,
    uuid: [u8; 16],
    now: i64,
    is_payg: bool,
) -> (r: Result<Option<SubscriptionCancelled>, QBitFlowError>)
    ensures
        is_payg ==> r == Ok::<Option<SubscriptionCancelled>, QBitFlowError>(None)
            && *final(sub) == (Subscription { stopped: true, ..*old(sub) })
            && *final(registry) == *old(registry),
        !is_payg ==> *final(sub) == *old(sub),
        !is_payg && now >= old(sub).next_payment_due ==> r == Err::<Option<SubscriptionCancelled>, QBitFlowError>(
            QBitFlowError::CannotCancelActiveSubscription),
        !is_payg && now < old(sub).next_payment_due ==> (if old(registry).spec_can_revoke(
            old(sub).allowance as int, old(sub).used_allowance as int) {
            r == Ok::<Option<SubscriptionCancelled>, QBitFlowError>(Some(SubscriptionCancelled { uuid }))
                && slice_removed(*old(registry), *final(registry), *old(sub))
                && final(registry).bump == old(registry).bump
        } else {
            r == Err::<Option<SubscriptionCancelled>, QBitFlowError>(QBitFlowError::Overflow)
        }),
        r is Err ==> *final(registry) == *old(registry),
{
    if is_payg {
        sub.stopped = true;
        return Ok(None);
    }
    if now >= sub.next_payment_due {
        return Err(QBitFlowError::CannotCancelActiveSubscription);
    }
    registry.revoke_allowance(sub)?;
    Ok(Some(SubscriptionCancelled { uuid }))
}

/// Administrative cancellation: the slice leaves the registry whatever the timing
/// or the stopped flag, and the record is to be closed.
pub fn force_cancel_subscription(
    sub: &Subscription,
    registry: &mut PermitRegistry,
    uuid: [u8; 16],
) -> (r: Result<SubscriptionCancelled, QBitFlowError>)
    ensures
        old(registry).spec_can_revoke(sub.allowance as int, sub.used_allowance as int) ==> {
            &&& r == Ok::<SubscriptionCancelled, QBitFlowError>(SubscriptionCancelled { uuid })
            &&& slice_removed(*old(registry), *final(registry), *sub)
            &&& final(registry).bump == old(registry).bump
        },
        !old(registry).spec_can_revoke(sub.allowance as int, sub.used_allowance as int) ==> {
            &&& r == Err::<SubscriptionCancelled, QBitFlowError>(QBitFlowError::Overflow)
            &&& *final(registry) == *old(registry)
        },
{
    registry.revoke_allowance(sub)?;
    Ok(SubscriptionCancelled { uuid })
}

/// The checks an allowance increase passes before its refund is moved, in order,
/// and the first one it fails.
pub open spec fn increase_error(sub: Subscription, registry: PermitRegistry, new_allowance: u64) -> Option<QBitFlowError> {
    if new_allowance == 0 {
        Some(QBitFlowError::ZeroAmount)
    } else if new_allowance <= sub.allowance {
        Some(QBitFlowError::InvalidAmount)
    } else if !registry.spec_can_revoke(sub.allowance as int, sub.used_allowance as int) {
        Some(QBitFlowError::Overflow)
    } else if registry.total_allowance - sub.allowance + new_allowance > u64::MAX {
        Some(QBitFlowError::Overflow)
    } else {
        None
    }
}

/// The refund an allowance increase asks for: errors of the calculation count as nothing due.
pub open spec fn increase_refund_due(sub: Subscription, params: ComputeRefundData) -> u64 {
    if sub.last_payment_amount < sub.max_amount {
        match refund_due((sub.max_amount - sub.last_payment_amount) as u64, params) {
            Ok(d) => d,
            Err(_) => 0,
        }
    } else {
        0
    }
}

/// What an allowance increase did.
#[derive(Debug, Clone, Copy, PartialEq, Eq)]
pub struct IncreaseReport {
    pub event: AllowanceIncreased,
    /// The spending right the agent must now be approved for.
    pub approval: u64,
    pub refund: u64,
    pub refund_failed: bool,
}

/// Replaces the subscription's slice by a larger one, with nothing drawn from it yet.
///
/// The old slice leaves the registry and the new one joins it. The compute refund
/// is best effort: an error in working it out counts as nothing due. On error
/// nothing changes.
pub fn increase_allowance<T: Fn(TransferLeg, u64) -> bool>(
    sub: &mut Subscription,
    registry: &mut PermitRegistry,
    uuid: [u8; 16],
    new_allowance: u64,
    compute_refund_params: &ComputeRefundData,
    transfer: &T,
) -> (r: Result<IncreaseReport, QBitFlowError>)
    requires
        forall|leg: TransferLeg, a: u64| call_requires(*transfer, (leg, a)),
    ensures
        ({
            let check = increase_error(*old(sub), *old(registry), new_allowance);
            let due = increase_refund_due(*old(sub), *compute_refund_params);
            let after_revoke = (old(registry).total_used - old(sub).used_allowance) as u64;
            let room = old(registry).total_allowance - old(sub).allowance + new_allowance;
            &&& check matches Some(e) ==> r == Err::<IncreaseReport, QBitFlowError>(e)
            &&& r is Err ==> *final(sub) == *old(sub) && *final(registry) == *old(registry)
            &&& r matches Err(e) ==> (check is Some || (e == QBitFlowError::InsufficientAllowance
                && (due > new_allowance || after_revoke + due > room) && due > 0
                && call_ensures(*transfer, (TransferLeg::ComputeRefund, due), true)))
            &&& r matches Ok(rep) ==> {
                &&& check is None
                &&& rep.refund == due || rep.refund == 0
                &&& rep.refund_failed == (due > 0 && rep.refund == 0)
                &&& refund_as_reported(*transfer, rep.refund, due)
                &&& *final(sub) == (Subscription { allowance: new_allowance, used_allowance: rep.refund, ..*old(sub) })
                &&& rep.refund <= new_allowance
                &&& old(sub).wf() ==> final(sub).wf()
                &&& slice_replaced(*old(registry), *final(registry), *old(sub), *final(sub))
                &&& final(registry).bump == old(registry).bump
                &&& rep.approval == room - after_revoke
                &&& rep.event == (AllowanceIncreased { new_allowance, uuid })
            }
        }),
{
    if new_allowance == 0 {
        return Err(QBitFlowError::ZeroAmount);
    }
    if new_allowance <= sub.allowance {
        return Err(QBitFlowError::InvalidAmount);
    }
    let mut reg = *registry;
    reg.revoke_allowance(sub)?;
    let approval = reg.add_allowance(new_allowance)?;
    let due: u64 = if sub.last_payment_amount < sub.max_amount {
        match refund_amount(sub.max_amount - sub.last_payment_amount, compute_refund_params) {
            Ok(d) => d,
            Err(_) => 0,
        }
    } else {
        0
    };
    let refund: u64 = if sub.last_payment_amount < sub.max_amount {
        match compute_refund(sub.max_amount - sub.last_payment_amount, compute_refund_params, transfer) {
            Ok(x) => x,
            Err(_) => 0,
        }
    } else {
        0
    };
    if refund > new_allowance {
        return Err(QBitFlowError::InsufficientAllowance);
    }
    reg.use_allowance(refund)?;
    sub.allowance = new_allowance;
    sub.used_allowance = refund;
    *registry = reg;
    Ok(IncreaseReport {
        event: AllowanceIncreased { new_allowance, uuid },
        approval,
        refund,
        refund_failed: due > 0 && refund == 0,
    })
}

/// The checks a cap update passes before its refund is moved, in order, and the
/// first one it fails.
pub open spec fn cap_update_error(sub: Subscription, new_max_amount: u64, params: ComputeRefundData) -> Option<QBitFlowError> {
    if new_max_amount == 0 {
        Some(QBitFlowError::ZeroAmount)
    } else if new_max_amount <= sub.last_payment_amount {
        Some(QBitFlowError::MaxAmountInvalid)
    } else if refund_due((new_max_amount - sub.last_payment_amount) as u64, params) is Err {
        Some(refund_due((new_max_amount - sub.last_payment_amount) as u64, params)->Err_0)
    } else {
        None
    }
}

/// A refund of `refund` fits both the subscription's slice and the registry.
pub open spec fn refund_fits(sub: Subscription, registry: PermitRegistry, refund: u64) -> bool {
    &&& sub.used_allowance + refund <= sub.allowance
    &&& registry.total_used + refund <= registry.total_allowance
}

/// What a cap update did.
#[derive(Debug, Clone, Copy, PartialEq, Eq)]
pub struct CapUpdateReport {
    pub event: MaxAmountUpdated,
    pub refund: u64,
    pub refund_failed: bool,
}

/// Sets a new per-payment cap, which may never fall to or below the last payment.
///
/// The compute refund, capped by `new_max_amount - last_payment_amount`, is
/// mandatory: an error in working it out fails the update. What it moves is
/// charged to both counters. On error nothing changes.
pub fn update_max_amount<T: Fn(TransferLeg, u64) -> bool>(
    sub: &mut Subscription,
    registry: &mut PermitRegistry,
    uuid: [u8; 16],
    new_max_amount: u64,
    compute_refund_params: &ComputeRefundData,
    transfer: &T,
) -> (r: Result<CapUpdateReport, QBitFlowError>)
    requires
        forall|leg: TransferLeg, a: u64| call_requires(*transfer, (leg, a)),
    ensures
        ({
            let check = cap_update_error(*old(sub), new_max_amount, *compute_refund_params);
            let due = refund_due((new_max_amount - old(sub).last_payment_amount) as u64, *compute_refund_params)->Ok_0;
            &&& check matches Some(e) ==> r == Err::<CapUpdateReport, QBitFlowError>(e)
            &&& r is Err ==> *final(sub) == *old(sub) && *final(registry) == *old(registry)
            &&& r matches Err(e) ==> (check is Some || (e == QBitFlowError::InsufficientAllowance
                && !refund_fits(*old(sub), *old(registry), due) && due > 0
                && call_ensures(*transfer, (TransferLeg::ComputeRefund, due), true)))
            &&& r matches Ok(rep) ==> {
                &&& check is None
                &&& rep.refund == due || rep.refund == 0
                &&& rep.refund_failed == (due > 0 && rep.refund == 0)
                &&& refund_as_reported(*transfer, rep.refund, due)
                &&& rep.refund > 0 ==> refund_fits(*old(sub), *old(registry), rep.refund)
                &&& old(sub).wf() ==> final(sub).wf()
                &&& *final(sub) == (Subscription {
                    max_amount: new_max_amount,
                    used_allowance: (old(sub).used_allowance + rep.refund) as u64,
                    ..*old(sub)
                })
                &&& slice_replaced(*old(registry), *final(registry), *old(sub), *final(sub))
                &&& final(registry).bump == old(registry).bump
                &&& rep.event == (MaxAmountUpdated { uuid, new_max_amount })
            }
        }),
{
    if new_max_amount == 0 {
        return Err(QBitFlowError::ZeroAmount);
    }
    if new_max_amount <= sub.last_payment_amount {
        return Err(QBitFlowError::MaxAmountInvalid);
    }
    let cap = new_max_amount - sub.last_payment_amount;
    let due = refund_amount(cap, compute_refund_params)?;
    let refund = compute_refund(cap, compute_refund_params, transfer)?;
    if refund > 0 {
        if sub.used_allowance > sub.allowance || refund > sub.allowance - sub.used_allowance {
            return Err(QBitFlowError::InsufficientAllowance);
        }
        if !registry.has_enough_allowance(refund) {
            return Err(QBitFlowError::InsufficientAllowance);
        }
        registry.use_allowance(refund)?;
    }
    sub.max_amount = new_max_amount;
    sub.used_allowance = sub.used_allowance + refund;
    Ok(CapUpdateReport { event: MaxAmountUpdated { uuid, new_max_amount }, refund, refund_failed: due > 0 && refund == 0 })
}

/// A payment that settles moves the due date one period on from the old due date
/// for a fixed-period subscription, and to one period less the grace from now for
/// a pay-as-you-go one.
pub proof fn lemma_schedule_advance(
    sub: Subscription,
    registry: PermitRegistry,
    amount: u64,
    refund: u64,
    now: i64,
    frequency: u32,
    is_payg: bool,
)
    requires
        settlement(sub, registry, amount, refund, now, frequency, is_payg) is Ok,
    ensures
        ({
            let after = settlement(sub, registry, amount, refund, now, frequency, is_payg)->Ok_0.0;
            &&& !is_payg ==> after.next_payment_due == sub.next_payment_due + frequency
            &&& is_payg ==> after.next_payment_due == now + frequency - 3600
        }),
{
}

/// A settled payment keeps the registry in step with its live subscriptions: the
/// subscription's slice is replaced by its charged one, or, when it was stopped,
/// leaves the pool with it.
pub proof fn lemma_settlement_keeps_pool(
    registry: PermitRegistry,
    live: Seq<Subscription>,
    i: int,
    amount: u64,
    refund: u64,
    now: i64,
    frequency: u32,
    is_payg: bool,
)
    requires
        pool_consistent(registry, live),
        0 <= i < live.len(),
        settlement(live[i], registry, amount, refund, now, frequency, is_payg) is Ok,
    ensures
        ({
            let (s, g, left) = settlement(live[i], registry, amount, refund, now, frequency, is_payg)->Ok_0;
            &&& !live[i].stopped ==> pool_consistent(g, live.update(i, s))
            &&& live[i].stopped ==> pool_consistent(g, live.remove(i))
            &&& g.wf()
        }),
{
    let (s, g, left) = settlement(live[i], registry, amount, refund, now, frequency, is_payg)->Ok_0;
    if live[i].stopped {
        lemma_pool_retires(registry, g, live, i);
    } else {
        lemma_pool_updates(registry, g, live, i, s);
    }
}

/// Presenting the very accounts and frequency a subscription was created with
/// never trips the commitment check.
pub proof fn lemma_same_parameters_pass(
    sub: Subscription,
    registry: PermitRegistry,
    now: i64,
    amount: u64,
    fee_bps: u16,
    organization_fee_bps: u16,
    merchant: Seq<u8>,
    subscriber: Seq<u8>,
    frequency: u32,
    partner: Seq<u8>,
    params: ComputeRefundData,
)
    requires
        sub.subscription_hash@ == commitment_of(merchant, subscriber, frequency, partner),
    ensures
        execution_error(sub, registry, now, amount, fee_bps, organization_fee_bps,
            commitment_of(merchant, subscriber, frequency, partner), params)
            != Some(QBitFlowError::InvalidSubscriptionParameters),
{
    let cap = (sub.max_amount - amount) as u64;
    assert(refund_due(cap, params) is Err ==> refund_due(cap, params)->Err_0 != QBitFlowError::InvalidSubscriptionParameters);
}

} // verus!
