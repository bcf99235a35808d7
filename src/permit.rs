use vstd::prelude::*;
use crate::errors::QBitFlowError;
use crate::state::Subscription;

verus! {

/// The allowance pool of one (subscriber, asset) pair, shared by all of that
/// subscriber's subscriptions in that asset.
#[derive(Debug, Clone, Copy, PartialEq, Eq, Structural)]
pub struct PermitRegistry {
    /// Sum of the live subscriptions' slices.
    pub total_allowance: u64,
    /// Sum of what they have drawn.
    pub total_used: u64,
    pub bump: u8,
}

impl PermitRegistry {
    pub open spec fn wf(self) -> bool {
        self.total_used <= self.total_allowance
    }

    /// An empty pool.
    pub fn new(bump: u8) -> (r: PermitRegistry)
        ensures
            r.total_allowance == 0,
            r.total_used == 0,
            r.bump == bump,
            r.wf(),
    {
        PermitRegistry { total_allowance: 0, total_used: 0, bump }
    }

    /// Adds a slice of `allowance_amount` to the pool.
    ///
    /// Returns the spending right the agent must now be approved for: what is left
    /// unspent plus the new slice. That approval replaces any earlier one.
    pub fn add_allowance(&mut self, allowance_amount: u64) -> (r: Result<u64, QBitFlowError>)
        ensures
            r is Err <==> (old(self).total_used > old(self).total_allowance
                || old(self).total_allowance + allowance_amount > u64::MAX),
            r matches Err(e) ==> e == QBitFlowError::Overflow && *final(self) == *old(self),
            r matches Ok(approval) ==> {
                &&& approval == old(self).total_allowance - old(self).total_used + allowance_amount
                &&& final(self).total_allowance == old(self).total_allowance + allowance_amount
                &&& final(self).total_used == old(self).total_used
                &&& final(self).bump == old(self).bump
            },
    {
        let effective = match self.total_allowance.checked_sub(self.total_used) {
            Some(x) => x,
            None => return Err(QBitFlowError::Overflow),
        };
        let new_effective = match effective.checked_add(allowance_amount) {
            Some(x) => x,
            None => return Err(QBitFlowError::Overflow),
        };
        self.total_allowance = match self.total_allowance.checked_add(allowance_amount) {
            Some(x) => x,
            None => return Err(QBitFlowError::Overflow),
        };
        Ok(new_effective)
    }

    /// Whether `amount` more can be drawn; a sum past `u64::MAX` counts as not enough.
    pub fn has_enough_allowance(&self, amount: u64) -> (r: bool)
        ensures
            r == (self.total_used + amount <= self.total_allowance),
    {
        match self.total_used.checked_add(amount) {
            Some(s) => s <= self.total_allowance,
            None => false,
        }
    }

    /// Draws `amount` from the pool.
    pub fn use_allowance(&mut self, amount: u64) -> (r: Result<(), QBitFlowError>)
        ensures
            r == (if old(self).total_used + amount > u64::MAX {
                Err(QBitFlowError::Overflow)
            } else if old(self).total_used + amount > old(self).total_allowance {
                Err(QBitFlowError::InsufficientAllowance)
            } else {
                Ok(())
            }),
            r is Err ==> *final(self) == *old(self),
            r is Ok ==> {
                &&& final(self).total_used == old(self).total_used + amount
                &&& final(self).total_allowance == old(self).total_allowance
                &&& final(self).bump == old(self).bump
            },
    {
        let used = match self.total_used.checked_add(amount) {
            Some(x) => x,
            None => return Err(QBitFlowError::Overflow),
        };
        if used > self.total_allowance {
            return Err(QBitFlowError::InsufficientAllowance);
        }
        self.total_used = used;
        Ok(())
    }

    /// Takes a terminated subscription's slice out of the pool.
    ///
    /// A slice larger than what the pool holds (one revoked twice, say) is refused
    /// with `Overflow`, and so is one whose removal would leave more drawn than allowed.
    pub fn revoke_allowance(&mut self, subscription: &Subscription) -> (r: Result<(), QBitFlowError>)
        ensures
            r is Err <==> !old(self).spec_can_revoke(subscription.allowance as int, subscription.used_allowance as int),
            r matches Err(e) ==> e == QBitFlowError::Overflow && *final(self) == *old(self),
            r is Ok ==> {
                &&& final(self).total_allowance == old(self).total_allowance - subscription.allowance
                &&& final(self).total_used == old(self).total_used - subscription.used_allowance
                &&& final(self).bump == old(self).bump
                &&& final(self).wf()
            },
    {
        let total = match self.total_allowance.checked_sub(subscription.allowance) {
            Some(x) => x,
            None => return Err(QBitFlowError::Overflow),
        };
        let used = match self.total_used.checked_sub(subscription.used_allowance) {
            Some(x) => x,
            None => return Err(QBitFlowError::Overflow),
        };
        if used > total {
            return Err(QBitFlowError::Overflow);
        }
        self.total_allowance = total;
        self.total_used = used;
        Ok(())
    }

    /// Whether a slice of this size can leave the pool.
    pub open spec fn spec_can_revoke(self, allowance: int, used: int) -> bool {
        &&& allowance <= self.total_allowance
        &&& used <= self.total_used
        &&& self.total_used - used <= self.total_allowance - allowance
    }

    /// The spending right the agent should hold: what is left unspent.
    pub fn set_permit(&self) -> (r: Result<u64, QBitFlowError>)
        ensures
            r == (if self.total_used > self.total_allowance {
                Err(QBitFlowError::Overflow)
            } else {
                Ok((self.total_allowance - self.total_used) as u64)
            }),
    {
        match self.total_allowance.checked_sub(self.total_used) {
            Some(x) => Ok(x),
            None => Err(QBitFlowError::Overflow),
        }
    }
}

} // verus!
