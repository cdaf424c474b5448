//! Admission of the schedules supplied at setup: a bound on their number and
//! the checked sum of their principal.
use vstd::prelude::*;
use std::collections::HashMap;
use crate::error::ContractError;
use crate::storage::{VestingBalance, VestingInfo};

verus! {

broadcast use vstd::std_specs::hash::group_hash_axioms;

/// The total principal of a list of schedules.
pub open spec fn sum_amounts(s: Seq<VestingBalance>) -> int
    decreases s.len(),
{
    if s.len() == 0 {
        0
    } else {
        sum_amounts(s.drop_last()) + s.last().distribution_info.amount
    }
}

/// The ledger a list of schedules opens: one entry per recipient, holding its
/// whole amount; a recipient named twice keeps the later schedule.
pub open spec fn schedule_map(s: Seq<VestingBalance>) -> Map<u64, VestingInfo>
    decreases s.len(),
{
    if s.len() == 0 {
        Map::empty()
    } else {
        schedule_map(s.drop_last()).insert(
            s.last().rcpt_address.id,
            VestingInfo { balance: s.last().distribution_info.amount, distribution_info: s.last().distribution_info },
        )
    }
}

/// Every entry of an opened ledger holds exactly the amount of its schedule.
pub proof fn lemma_schedule_map_full(s: Seq<VestingBalance>)
    ensures
        forall|k: u64| #[trigger]
            schedule_map(s).contains_key(k) ==> schedule_map(s)[k].balance
                == schedule_map(s)[k].distribution_info.amount,
    decreases s.len(),
{
    if s.len() > 0 {
        lemma_schedule_map_full(s.drop_last());
        let prev = schedule_map(s.drop_last());
        assert forall|k: u64| #[trigger]
            schedule_map(s).contains_key(k) implies schedule_map(s)[k].balance
                == schedule_map(s)[k].distribution_info.amount by {
            if k != s.last().rcpt_address.id {
                assert(prev.contains_key(k));
            }
        }
    }
}

/// Checks the schedules against the complexity bound, sums their principal
/// and opens one ledger entry per recipient.
pub fn create_vesting_accounts(
    max_vesting_complexity: u32,
    vesting_balances: &Vec<VestingBalance>,
) -> (r: Result<(HashMap<u64, VestingInfo>, u128), ContractError>)
    ensures
        vesting_balances@.len() == 0 ==> r == Err::<(HashMap<u64, VestingInfo>, u128), _>(
            ContractError::EmptySet,
        ),
        vesting_balances@.len() > 0 && vesting_balances@.len() > max_vesting_complexity ==> r
            == Err::<(HashMap<u64, VestingInfo>, u128), _>(ContractError::ComplexityExceeded),
        0 < vesting_balances@.len() <= max_vesting_complexity && sum_amounts(vesting_balances@)
            > u128::MAX ==> r == Err::<(HashMap<u64, VestingInfo>, u128), _>(
            ContractError::Overflow,
        ),
        0 < vesting_balances@.len() <= max_vesting_complexity && sum_amounts(vesting_balances@)
            <= u128::MAX ==> {
            &&& r is Ok
            &&& r->Ok_0.0@ == schedule_map(vesting_balances@)
            &&& r->Ok_0.1 == sum_amounts(vesting_balances@)
        },
{
    let n = vesting_balances.len();
    if n == 0 {
        return Err(ContractError::EmptySet);
    }
    if n > max_vesting_complexity as usize {
        return Err(ContractError::ComplexityExceeded);
    }
    let mut accounts: HashMap<u64, VestingInfo> = HashMap::new();
    let mut total: u128 = 0;
    let mut i: usize = 0;
    while i < n
        invariant
            n == vesting_balances@.len(),
            0 <= i <= n,
            n <= max_vesting_complexity,
            total == sum_amounts(vesting_balances@.subrange(0, i as int)),
            accounts@ == schedule_map(vesting_balances@.subrange(0, i as int)),
        decreases n - i,
    {
        let b = vesting_balances[i];
        proof {
            let pre = vesting_balances@.subrange(0, i as int);
            let post = vesting_balances@.subrange(0, i as int + 1);
            assert(post.drop_last() =~= pre);
        }
        if total > u128::MAX - b.distribution_info.amount {
            proof {
                lemma_sum_amounts_grows(vesting_balances@, i as int + 1);
            }
            return Err(ContractError::Overflow);
        }
        total = total + b.distribution_info.amount;
        accounts.insert(
            b.rcpt_address.id,
            VestingInfo { balance: b.distribution_info.amount, distribution_info: b.distribution_info },
        );
        i = i + 1;
    }
    proof {
        assert(vesting_balances@.subrange(0, n as int) =~= vesting_balances@);
    }
    Ok((accounts, total))
}

/// The sum of a prefix is at most the sum of the whole list.
proof fn lemma_sum_amounts_grows(s: Seq<VestingBalance>, i: int)
    requires
        0 <= i <= s.len(),
    ensures
        sum_amounts(s.subrange(0, i)) <= sum_amounts(s),
    decreases s.len() - i,
{
    if i < s.len() {
        lemma_sum_amounts_grows(s, i + 1);
        assert(s.subrange(0, i + 1).drop_last() =~= s.subrange(0, i));
    } else {
        assert(s.subrange(0, i) =~= s);
    }
}

} // verus!
