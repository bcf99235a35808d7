use vstd::prelude::*;

verus! {

/// The program's signing authority: its owner (also the fee recipient) and the
/// co-signer required to hand ownership over.
#[derive(Debug, Clone, Copy, PartialEq, Eq)]
pub struct Authority {
    pub owner: [u8; 32],
    pub co_signer: [u8; 32],
    pub bump: u8,
}

/// Sets up the authority record: the signer becomes its owner.
pub fn initialize(signer: [u8; 32], co_signer: [u8; 32], bump: u8) -> (r: Authority)
    ensures
        r.owner == signer,
        r.co_signer == co_signer,
        r.bump == bump,
{
    Authority { owner: signer, co_signer, bump }
}

/// Hands ownership (and the fee recipient role) to `new_owner`.
pub fn update_owner(authority: &mut Authority, new_owner: [u8; 32])
    ensures
        final(authority).owner == new_owner,
        final(authority).co_signer == old(authority).co_signer,
        final(authority).bump == old(authority).bump,
{
    authority.owner = new_owner;
}

/// Whether the subscriber's token account must be given the authority as its
/// delegate again: it has none, or another one.
pub fn delegate_needs_reset(current_delegate: Option<[u8; 32]>, authority: &[u8; 32]) -> (r: bool)
    ensures
        r == (current_delegate is None || current_delegate->Some_0@ != authority@),
{
    match current_delegate {
        None => true,
        Some(d) => !same_bytes(&d, authority),
    }
}

/// Byte-for-byte equality of two 32-byte values.
pub fn same_bytes(a: &[u8; 32], b: &[u8; 32]) -> (r: bool)
    ensures
        r == (a@ == b@),
{
    let mut i: usize = 0;
    while i < 32
        invariant
            0 <= i <= 32,
            a@.len() == 32,
            b@.len() == 32,
            forall|j: int| 0 <= j < i ==> a@[j] == b@[j],
        decreases 32 - i,
    {
        if a[i] != b[i] {
            return false;
        }
        i = i + 1;
    }
    assert(a@ =~= b@);
    true
}

/// One recurring-billing contract and its slice of the shared allowance.
#[derive(Debug, Clone, Copy, PartialEq, Eq)]
pub struct Subscription {
    pub subscriber: [u8; 32],
    /// Payments before this instant are refused.
    pub next_payment_due: i64,
    /// This subscription's slice of the pool.
    pub allowance: u64,
    /// What this subscription has drawn, refunds included.
    pub used_allowance: u64,
    /// Digest binding merchant, subscriber, frequency and partner.
    pub subscription_hash: [u8; 32],
    /// Terminal flag of pay-as-you-go subscriptions.
    pub stopped: bool,
    /// Exclusive cap on one payment.
    pub max_amount: u64,
    pub last_payment_amount: u64,
    pub bump: u8,
}

impl Subscription {
    /// Never drawn past its slice; the last payment stays under the cap.
    pub open spec fn wf(self) -> bool {
        &&& self.used_allowance <= self.allowance
        &&& self.last_payment_amount < self.max_amount
    }

    /// What is left of the slice.
    pub fn remaining_allowance(&self) -> (r: u64)
        requires
            self.wf(),
        ensures
            r == self.allowance - self.used_allowance,
    {
        self.allowance - self.used_allowance
    }
}

/// A one-time payment went through.
#[derive(Debug, Clone, Copy, PartialEq, Eq)]
pub struct PaymentProcessed {
    pub uuid: [u8; 16],
}

#[derive(Debug, Clone, Copy, PartialEq, Eq)]
pub struct SubscriptionCreated {
    pub uuid: [u8; 16],
    pub next_payment_due: i64,
    pub initial_allowance: u64,
}

#[derive(Debug, Clone, Copy, PartialEq, Eq)]
pub struct SubscriptionPaymentProcessed {
    pub uuid: [u8; 16],
    pub next_payment_due: i64,
    pub remaining_allowance: u64,
}

#[derive(Debug, Clone, Copy, PartialEq, Eq)]
pub struct SubscriptionCancelled {
    pub uuid: [u8; 16],
}

#[derive(Debug, Clone, Copy, PartialEq, Eq)]
pub struct AllowanceIncreased {
    pub new_allowance: u64,
    pub uuid: [u8; 16],
}

/// A compute refund was due but its transfer was refused.
#[derive(Debug, Clone, Copy, PartialEq, Eq)]
pub struct ComputeRefundFailed {
    pub uuid: [u8; 16],
}

#[derive(Debug, Clone, Copy, PartialEq, Eq)]
pub struct MaxAmountUpdated {
    pub uuid: [u8; 16],
    pub new_max_amount: u64,
}

} // verus!
