//! Locked and liquid parts of a ledger entry, and the one operation that
//! lowers a balance.
use vstd::prelude::*;
use crate::error::ContractError;
use crate::storage::VestingInfo;

verus! {

impl VestingInfo {
    /// The ledger invariant of one entry: its balance covers what is locked.
    pub open spec fn holds_lock_at(self, t: u64) -> bool {
        self.balance >= self.distribution_info.locked_at(t)
    }

    /// What may leave the entry at time `t` (negative if the invariant is broken).
    pub open spec fn liquid_at(self, t: u64) -> int {
        self.balance - self.distribution_info.locked_at(t)
    }

    pub fn locked_amount(&self, now: u64) -> (r: u128)
        ensures
            r == self.distribution_info.locked_at(now),
    {
        self.distribution_info.get_curve().value(now)
    }

    /// The unlocked part of the balance; `NotEnoughBalance` where the balance
    /// is below the locked amount.
    pub fn liquid_amount(&self, now: u64) -> (r: Result<u128, ContractError>)
        ensures
            r is Ok <==> self.holds_lock_at(now),
            r is Ok ==> r->Ok_0 == self.liquid_at(now),
            r is Err ==> r->Err_0 == ContractError::NotEnoughBalance,
    {
        let locked = self.locked_amount(now);
        if self.balance < locked {
            Err(ContractError::NotEnoughBalance)
        } else {
            Ok(self.balance - locked)
        }
    }

    /// Takes `amount` out of the balance if it is at most the liquid part, and
    /// returns the new balance; the schedule is untouched.
    pub fn debit(&mut self, amount: u128, now: u64) -> (r: Result<u128, ContractError>)
        ensures
            r is Ok <==> amount <= old(self).liquid_at(now),
            r is Ok ==> {
                &&& r->Ok_0 == final(self).balance
                &&& final(self).balance == old(self).balance - amount
                &&& final(self).distribution_info == old(self).distribution_info
                &&& final(self).holds_lock_at(now)
            },
            r is Err ==> r->Err_0 == ContractError::InsufficientLiquidity && *final(self) == *old(
                self,
            ),
    {
        let locked = self.locked_amount(now);
        if self.balance < locked || amount > self.balance - locked {
            return Err(ContractError::InsufficientLiquidity);
        }
        self.balance = self.balance - amount;
        Ok(self.balance)
    }
}

} // verus!
