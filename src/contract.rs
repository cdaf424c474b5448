//! The vesting engine: setup, transfers and claims against the ledger, and
//! the minter's bookkeeping. Authorization, the clock and the asset ledger are
//! outside collaborators: callers pass the authorized principal, the current
//! time and the balances read, and carry out the asset movements that a
//! successful call returns.
use vstd::prelude::*;
use std::collections::HashMap;
use crate::admission::{create_vesting_accounts, lemma_schedule_map_full, schedule_map, sum_amounts};
use crate::curve::{lemma_saturating_linear_bounds, SaturatingLinear};
use crate::curve::lemma_saturating_linear_monotone;
use crate::error::ContractError;
use crate::storage::{Address, DistributionInfo, MinterInfo, VestingBalance, VestingInfo, VestingTokenInfo};

verus! {

broadcast use vstd::std_specs::hash::group_hash_axioms;

/// The whole persisted state of one vesting contract. It is uninitialized
/// until `initialize` sets `admin`, and active from then on.
pub struct Vesting {
    pub admin: Option<Address>,
    pub token_info: Option<VestingTokenInfo>,
    pub minter: Option<MinterInfo>,
    pub max_vesting_complexity: Option<u32>,
    /// Ledger entries keyed by the recipient's address.
    pub vestings: HashMap<u64, VestingInfo>,
}

impl Vesting {
    pub open spec fn is_initialized(self) -> bool {
        self.admin is Some
    }

    pub open spec fn entry(self, a: Address) -> Option<VestingInfo> {
        if self.vestings@.contains_key(a.id) {
            Some(self.vestings@[a.id])
        } else {
            None
        }
    }

    /// The ledger invariant: at time `t` every balance covers its locked amount.
    pub open spec fn ledger_holds_at(self, t: u64) -> bool {
        forall|k: u64| #[trigger]
            self.vestings@.contains_key(k) ==> self.vestings@[k].holds_lock_at(t)
    }

    /// Everything but the ledger entries is the same in both states.
    pub open spec fn same_settings(self, other: Vesting) -> bool {
        &&& self.admin == other.admin
        &&& self.token_info == other.token_info
        &&& self.minter == other.minter
        &&& self.max_vesting_complexity == other.max_vesting_complexity
    }

    /// Everything but the minter is the same in both states.
    pub open spec fn same_but_minter(self, other: Vesting) -> bool {
        &&& self.admin == other.admin
        &&& self.token_info == other.token_info
        &&& self.max_vesting_complexity == other.max_vesting_complexity
        &&& self.vestings@ == other.vestings@
    }

    /// The error `initialize` reports, in the order the checks are made, or
    /// `None` where setup succeeds.
    pub open spec fn initialize_error(
        self,
        vesting_balances: Seq<VestingBalance>,
        minter_info: Option<MinterInfo>,
        max_vesting_complexity: u32,
        admin_balance: i128,
    ) -> Option<ContractError> {
        let total = sum_amounts(vesting_balances);
        if self.is_initialized() {
            Some(ContractError::AlreadyInitialized)
        } else if vesting_balances.len() == 0 {
            Some(ContractError::EmptySet)
        } else if vesting_balances.len() > max_vesting_complexity {
            Some(ContractError::ComplexityExceeded)
        } else if total > u128::MAX {
            Some(ContractError::Overflow)
        } else if admin_balance < total {
            Some(ContractError::NoEnoughTokensToStart)
        } else if minter_info is Some && total > minter_info->Some_0.mint_capacity {
            Some(ContractError::TotalVestedOverCapacity)
        } else {
            None
        }
    }

    /// The error `claim` reports, or `None` where something is unlocked.
    pub open spec fn claim_error(self, sender: Address, now: u64) -> Option<ContractError> {
        match self.entry(sender) {
            None => Some(ContractError::VestingNotFoundForAddress),
            Some(e) => if !e.holds_lock_at(now) {
                Some(ContractError::NotEnoughBalance)
            } else if e.liquid_at(now) == 0 {
                Some(ContractError::NeverFullyVested)
            } else {
                None
            },
        }
    }

    /// The error `transfer_token` reports, or `None` where the amount is liquid.
    pub open spec fn transfer_error(self, sender: Address, amount: i128, now: u64) -> Option<
        ContractError,
    > {
        if amount <= 0 {
            Some(ContractError::InvalidTransferAmount)
        } else {
            match self.entry(sender) {
                None => Some(ContractError::VestingNotFoundForAddress),
                Some(e) => if amount > e.liquid_at(now) {
                    Some(ContractError::InsufficientLiquidity)
                } else {
                    None
                },
            }
        }
    }

    /// The error `mint` reports, or `None` where the minter may mint `amount`.
    pub open spec fn mint_error(self, sender: Address, amount: i128) -> Option<ContractError> {
        if amount <= 0 {
            Some(ContractError::InvalidMintAmount)
        } else {
            match self.minter {
                None => Some(ContractError::MinterNotFound),
                Some(m) => if sender != m.address {
                    Some(ContractError::NotAuthorized)
                } else if amount > m.mint_capacity {
                    Some(ContractError::NotEnoughCapacity)
                } else {
                    None
                },
            }
        }
    }

    /// The error `update_minter` reports: the current minter may hand the
    /// role on; with no minter, only the admin may name the first one.
    pub open spec fn update_minter_error(self, sender: Address) -> Option<ContractError> {
        match self.minter {
            Some(m) => if sender == m.address {
                None
            } else {
                Some(ContractError::NotAuthorized)
            },
            None => match self.admin {
                None => Some(ContractError::NoAdminFound),
                Some(a) => if sender == a {
                    None
                } else {
                    Some(ContractError::NotAuthorized)
                },
            },
        }
    }

    /// The error `update_minter_capacity` reports: only the admin may set the
    /// capacity, and only of an existing minter.
    pub open spec fn update_capacity_error(self, sender: Address) -> Option<ContractError> {
        match self.admin {
            None => Some(ContractError::NoAdminFound),
            Some(a) => if sender != a {
                Some(ContractError::NotAuthorized)
            } else if self.minter is None {
                Some(ContractError::MinterNotFound)
            } else {
                None
            },
        }
    }

    /// Moves the engine from uninitialized to active: admits the schedules,
    /// checks that the admin can fund them (`admin_balance` is the admin's
    /// balance of the vesting token) and that they fit a supplied minter's
    /// capacity at `now`, then records everything. On success returns the
    /// total principal, which the caller moves from the admin into the
    /// contract's custody. On failure nothing changes.
    pub fn initialize(
        &mut self,
        admin: Address,
        vesting_token: VestingTokenInfo,
        vesting_balances: Vec<VestingBalance>,
        minter_info: Option<MinterInfo>,
        max_vesting_complexity: u32,
        admin_balance: i128,
        now: u64,
    ) -> (r: Result<u128, ContractError>)
        ensures
            r is Err <==> old(self).initialize_error(
                vesting_balances@,
                minter_info,
                max_vesting_complexity,
                admin_balance,
            ) is Some,
            r is Err ==> r->Err_0 == old(self).initialize_error(
                vesting_balances@,
                minter_info,
                max_vesting_complexity,
                admin_balance,
            )->Some_0 && *final(self) == *old(self),
            r is Ok ==> {
                &&& r->Ok_0 == sum_amounts(vesting_balances@)
                &&& final(self).admin == Some(admin)
                &&& final(self).token_info == Some(vesting_token)
                &&& final(self).minter == if minter_info is Some {
                    minter_info
                } else {
                    old(self).minter
                }
                &&& final(self).max_vesting_complexity == Some(max_vesting_complexity)
                &&& final(self).vestings@ == schedule_map(vesting_balances@)
                &&& final(self).ledger_holds_at(now)
            },
    {
        if self.admin.is_some() {
            return Err(ContractError::AlreadyInitialized);
        }
        let (accounts, total) = match create_vesting_accounts(
            max_vesting_complexity,
            &vesting_balances,
        ) {
            Ok(p) => p,
            Err(e) => return Err(e),
        };
        if admin_balance < 0 || (admin_balance as u128) < total {
            return Err(ContractError::NoEnoughTokensToStart);
        }
        if let Some(m) = minter_info {
            let capacity = m.get_curve().value(now);
            if total > capacity {
                return Err(ContractError::TotalVestedOverCapacity);
            }
        }
        proof {
            let sm = schedule_map(vesting_balances@);
            lemma_schedule_map_full(vesting_balances@);
            assert forall|k: u64| #[trigger] sm.contains_key(k) implies sm[k].holds_lock_at(now) by {
                let d = sm[k].distribution_info;
                lemma_saturating_linear_bounds(
                    SaturatingLinear {
                        min_x: d.start_timestamp,
                        min_y: d.amount,
                        max_x: d.end_timestamp,
                        max_y: 0,
                    },
                    now,
                );
            }
        }
        self.admin = Some(admin);
        self.token_info = Some(vesting_token);
        if minter_info.is_some() {
            self.minter = minter_info;
        }
        self.max_vesting_complexity = Some(max_vesting_complexity);
        self.vestings = accounts;
        Ok(total)
    }

    /// Debits `amount` from the sender's entry, within its liquid part at
    /// `now`. On success the caller moves `amount` from the contract's custody
    /// to `recipient`. On failure nothing changes.
    pub fn transfer_token(&mut self, sender: Address, recipient: Address, amount: i128, now: u64) -> (r:
        Result<(), ContractError>)
        ensures
            r is Err <==> old(self).transfer_error(sender, amount, now) is Some,
            r is Err ==> r->Err_0 == old(self).transfer_error(sender, amount, now)->Some_0
                && *final(self) == *old(self),
            r is Ok ==> {
                let e = old(self).entry(sender)->Some_0;
                &&& final(self).vestings@ == old(self).vestings@.insert(
                    sender.id,
                    VestingInfo { balance: (e.balance - amount) as u128, ..e },
                )
                &&& final(self).same_settings(*old(self))
            },
            old(self).ledger_holds_at(now) ==> final(self).ledger_holds_at(now),
    {
        if amount <= 0 {
            return Err(ContractError::InvalidTransferAmount);
        }
        let mut entry: VestingInfo = match self.vestings.get(&sender.id) {
            Some(v) => *v,
            None => return Err(ContractError::VestingNotFoundForAddress),
        };
        match entry.debit(amount as u128, now) {
            Ok(_) => {},
            Err(e) => return Err(e),
        }
        self.vestings.insert(sender.id, entry);
        proof {
            self.lemma_update_keeps_invariant(*old(self), sender.id, now);
        }
        Ok(())
    }

    /// Releases everything unlocked at `now` from the sender's entry and
    /// returns that amount, which the caller moves from the contract's custody
    /// to the sender. Afterwards the balance equals the locked amount. On
    /// failure nothing changes.
    pub fn claim(&mut self, sender: Address, now: u64) -> (r: Result<u128, ContractError>)
        ensures
            r is Err <==> old(self).claim_error(sender, now) is Some,
            r is Err ==> r->Err_0 == old(self).claim_error(sender, now)->Some_0 && *final(self)
                == *old(self),
            r is Ok ==> {
                let e = old(self).entry(sender)->Some_0;
                &&& r->Ok_0 == e.liquid_at(now)
                &&& final(self).vestings@ == old(self).vestings@.insert(
                    sender.id,
                    VestingInfo { balance: e.distribution_info.locked_at(now) as u128, ..e },
                )
                &&& final(self).entry(sender)->Some_0.balance == e.distribution_info.locked_at(now)
                &&& final(self).same_settings(*old(self))
            },
            old(self).ledger_holds_at(now) ==> final(self).ledger_holds_at(now),
    {
        let mut entry: VestingInfo = match self.vestings.get(&sender.id) {
            Some(v) => *v,
            None => return Err(ContractError::VestingNotFoundForAddress),
        };
        let available = match entry.liquid_amount(now) {
            Ok(a) => a,
            Err(e) => return Err(e),
        };
        if available == 0 {
            return Err(ContractError::NeverFullyVested);
        }
        match entry.debit(available, now) {
            Ok(_) => {},
            Err(e) => return Err(e),
        }
        self.vestings.insert(sender.id, entry);
        proof {
            self.lemma_update_keeps_invariant(*old(self), sender.id, now);
        }
        Ok(available)
    }

    /// Replacing one entry by one that holds its lock keeps the invariant.
    proof fn lemma_update_keeps_invariant(self, before: Vesting, k: u64, now: u64)
        requires
            self.vestings@.contains_key(k),
            self.vestings@[k].holds_lock_at(now),
            self.vestings@ == before.vestings@.insert(k, self.vestings@[k]),
        ensures
            before.ledger_holds_at(now) ==> self.ledger_holds_at(now),
    {
        if before.ledger_holds_at(now) {
            assert forall|j: u64| #[trigger]
                self.vestings@.contains_key(j) implies self.vestings@[j].holds_lock_at(now) by {
                if j != k {
                    assert(before.vestings@.contains_key(j));
                }
            }
        }
    }

    /// Checks a burn of `amount` from the sender's own token balance, which
    /// the caller then carries out with the vesting token; the ledger is not
    /// involved, whatever is locked.
    pub fn burn(&self, sender: Address, amount: u128) -> (r: Result<(), ContractError>)
        ensures
            amount == 0 ==> r == Err::<(), _>(ContractError::InvalidBurnAmount),
            amount != 0 && self.token_info is None ==> r == Err::<(), _>(
                ContractError::NoTokenInfoFound,
            ),
            amount != 0 && self.token_info is Some ==> r is Ok,
    {
        if amount == 0 {
            return Err(ContractError::InvalidBurnAmount);
        }
        if self.token_info.is_none() {
            return Err(ContractError::NoTokenInfoFound);
        }
        Ok(())
    }

    /// Lets the minter spend `amount` of its capacity. On success the caller
    /// mints `amount` into the contract's custody. On failure nothing changes.
    pub fn mint(&mut self, sender: Address, amount: i128) -> (r: Result<(), ContractError>)
        ensures
            r is Err <==> old(self).mint_error(sender, amount) is Some,
            r is Err ==> r->Err_0 == old(self).mint_error(sender, amount)->Some_0 && *final(self)
                == *old(self),
            r is Ok ==> {
                let m = old(self).minter->Some_0;
                &&& final(self).minter == Some(
                    MinterInfo { address: m.address, mint_capacity: (m.mint_capacity - amount) as u128 },
                )
                &&& final(self).same_but_minter(*old(self))
            },
    {
        if amount <= 0 {
            return Err(ContractError::InvalidMintAmount);
        }
        let minter = match self.minter {
            Some(m) => m,
            None => return Err(ContractError::MinterNotFound),
        };
        if sender != minter.address {
            return Err(ContractError::NotAuthorized);
        }
        if (amount as u128) > minter.mint_capacity {
            return Err(ContractError::NotEnoughCapacity);
        }
        self.minter = Some(
            MinterInfo { address: minter.address, mint_capacity: minter.mint_capacity - amount as u128 },
        );
        Ok(())
    }

    /// Names `new_minter` as the minter. An existing minter may hand the role
    /// on and keeps its capacity; with none, only the admin may name one, whose
    /// capacity starts at zero. On failure nothing changes.
    pub fn update_minter(&mut self, sender: Address, new_minter: Address) -> (r: Result<
        (),
        ContractError,
    >)
        ensures
            r is Err <==> old(self).update_minter_error(sender) is Some,
            r is Err ==> r->Err_0 == old(self).update_minter_error(sender)->Some_0 && *final(self)
                == *old(self),
            r is Ok ==> {
                &&& final(self).minter == Some(
                    MinterInfo {
                        address: new_minter,
                        mint_capacity: match old(self).minter {
                            Some(m) => m.mint_capacity,
                            None => 0,
                        },
                    },
                )
                &&& final(self).same_but_minter(*old(self))
            },
    {
        let mint_capacity: u128 = match self.minter {
            Some(m) => {
                if sender != m.address {
                    return Err(ContractError::NotAuthorized);
                }
                m.mint_capacity
            },
            None => {
                match self.admin {
                    None => return Err(ContractError::NoAdminFound),
                    Some(a) => {
                        if sender != a {
                            return Err(ContractError::NotAuthorized);
                        }
                    },
                }
                0
            },
        };
        self.minter = Some(MinterInfo { address: new_minter, mint_capacity });
        Ok(())
    }

    /// Sets the minter's capacity to `new_capacity`; only the admin may. On
    /// failure nothing changes.
    pub fn update_minter_capacity(&mut self, sender: Address, new_capacity: u128) -> (r: Result<
        (),
        ContractError,
    >)
        ensures
            r is Err <==> old(self).update_capacity_error(sender) is Some,
            r is Err ==> r->Err_0 == old(self).update_capacity_error(sender)->Some_0
                && *final(self) == *old(self),
            r is Ok ==> {
                &&& final(self).minter == Some(
                    MinterInfo {
                        address: old(self).minter->Some_0.address,
                        mint_capacity: new_capacity,
                    },
                )
                &&& final(self).same_but_minter(*old(self))
            },
    {
        match self.admin {
            None => return Err(ContractError::NoAdminFound),
            Some(a) => {
                if sender != a {
                    return Err(ContractError::NotAuthorized);
                }
            },
        }
        match self.minter {
            None => Err(ContractError::MinterNotFound),
            Some(m) => {
                self.minter = Some(MinterInfo { address: m.address, mint_capacity: new_capacity });
                Ok(())
            },
        }
    }

    pub fn query_distribution_info(&self, address: Address) -> (r: Result<
        DistributionInfo,
        ContractError,
    >)
        ensures
            match self.entry(address) {
                Some(e) => r == Ok::<_, ContractError>(e.distribution_info),
                None => r == Err::<DistributionInfo, _>(ContractError::VestingNotFoundForAddress),
            },
    {
        match self.vestings.get(&address.id) {
            Some(v) => Ok(v.distribution_info),
            None => Err(ContractError::VestingNotFoundForAddress),
        }
    }

    pub fn query_token_info(&self) -> (r: Result<&VestingTokenInfo, ContractError>)
        ensures
            match self.token_info {
                Some(t) => r is Ok && *r->Ok_0 == t,
                None => r is Err && r->Err_0 == ContractError::NoTokenInfoFound,
            },
    {
        match &self.token_info {
            Some(t) => Ok(t),
            None => Err(ContractError::NoTokenInfoFound),
        }
    }

    pub fn query_minter(&self) -> (r: Result<MinterInfo, ContractError>)
        ensures
            match self.minter {
                Some(m) => r == Ok::<_, ContractError>(m),
                None => r == Err::<MinterInfo, _>(ContractError::MinterNotFound),
            },
    {
        match self.minter {
            Some(m) => Ok(m),
            None => Err(ContractError::MinterNotFound),
        }
    }

    /// What the address could claim at `now`: its balance less the locked
    /// amount. `NotEnoughBalance` only where the ledger invariant is broken.
    pub fn query_available_to_claim(&self, address: Address, now: u64) -> (r: Result<
        u128,
        ContractError,
    >)
        ensures
            match self.entry(address) {
                None => r == Err::<u128, _>(ContractError::VestingNotFoundForAddress),
                Some(e) => if e.holds_lock_at(now) {
                    r is Ok && r->Ok_0 == e.liquid_at(now)
                } else {
                    r == Err::<u128, _>(ContractError::NotEnoughBalance)
                },
            },
    {
        match self.vestings.get(&address.id) {
            Some(v) => v.liquid_amount(now),
            None => Err(ContractError::VestingNotFoundForAddress),
        }
    }

    /// An uninitialized engine.
    pub fn new() -> (r: Vesting)
        ensures
            !r.is_initialized(),
            r.token_info is None,
            r.minter is None,
            r.max_vesting_complexity is None,
            r.vestings@ == Map::<u64, VestingInfo>::empty(),
    {
        Vesting {
            admin: None,
            token_info: None,
            minter: None,
            max_vesting_complexity: None,
            vestings: HashMap::new(),
        }
    }
}

/// The ledger invariant survives the passage of time: locked amounts never
/// grow, so a ledger that holds at `t1` holds at every later `t2`. With the
/// `ensures` of `initialize`, `transfer_token` and `claim` (and the minter
/// operations, which leave the ledger alone), the invariant holds at every
/// point of any run whose clock does not go back.
pub proof fn lemma_ledger_holds_later(v: Vesting, t1: u64, t2: u64)
    requires
        v.ledger_holds_at(t1),
        t1 <= t2,
    ensures
        v.ledger_holds_at(t2),
{
    assert forall|k: u64| #[trigger] v.vestings@.contains_key(k) implies v.vestings@[k].holds_lock_at(
        t2,
    ) by {
        let d = v.vestings@[k].distribution_info;
        lemma_saturating_linear_monotone(
            SaturatingLinear { min_x: d.start_timestamp, min_y: d.amount, max_x: d.end_timestamp, max_y: 0 },
            t1,
            t2,
        );
    }
}

/// A second claim at the same time finds nothing unlocked: the state a
/// successful claim leaves makes the next claim at `now` fail with
/// `NeverFullyVested`.
pub proof fn lemma_claim_twice(before: Vesting, after: Vesting, sender: Address, now: u64)
    requires
        before.claim_error(sender, now) is None,
        after.vestings@ == before.vestings@.insert(
            sender.id,
            VestingInfo {
                balance: before.entry(sender)->Some_0.distribution_info.locked_at(now) as u128,
                ..before.entry(sender)->Some_0
            },
        ),
    ensures
        after.claim_error(sender, now) == Some(ContractError::NeverFullyVested),
{
    let d = before.entry(sender)->Some_0.distribution_info;
    lemma_saturating_linear_bounds(
        SaturatingLinear { min_x: d.start_timestamp, min_y: d.amount, max_x: d.end_timestamp, max_y: 0 },
        now,
    );
}

/// Setup is refused with `NoEnoughTokensToStart` whenever the admin holds
/// less than the summed principal, once the schedules pass admission.
pub proof fn lemma_solvency_gate(
    v: Vesting,
    vesting_balances: Seq<VestingBalance>,
    minter_info: Option<MinterInfo>,
    max_vesting_complexity: u32,
    admin_balance: i128,
)
    requires
        !v.is_initialized(),
        0 < vesting_balances.len() <= max_vesting_complexity,
        sum_amounts(vesting_balances) <= u128::MAX,
        admin_balance < sum_amounts(vesting_balances),
    ensures
        v.initialize_error(vesting_balances, minter_info, max_vesting_complexity, admin_balance)
            == Some(ContractError::NoEnoughTokensToStart),
{
}

/// More schedules than the complexity bound are always refused with
/// `ComplexityExceeded` (and a refused setup changes nothing).
pub proof fn lemma_admission_bound(
    v: Vesting,
    vesting_balances: Seq<VestingBalance>,
    minter_info: Option<MinterInfo>,
    max_vesting_complexity: u32,
    admin_balance: i128,
)
    requires
        !v.is_initialized(),
        vesting_balances.len() > max_vesting_complexity,
    ensures
        v.initialize_error(vesting_balances, minter_info, max_vesting_complexity, admin_balance)
            == Some(ContractError::ComplexityExceeded),
{
}

/// With no minter only the admin may name one; once there is a minter only
/// its own address may change it; every other caller gets `NotAuthorized`.
pub proof fn lemma_minter_authorization(v: Vesting, sender: Address)
    requires
        v.is_initialized(),
    ensures
        v.minter is None ==> (v.update_minter_error(sender) is None <==> v.admin == Some(sender)),
        v.minter is Some ==> (v.update_minter_error(sender) is None <==> sender
            == v.minter->Some_0.address),
        v.update_minter_error(sender) is Some ==> v.update_minter_error(sender) == Some(
            ContractError::NotAuthorized,
        ),
{
}

} // verus!
