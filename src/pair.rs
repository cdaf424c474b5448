//! The liquidity pair's storage keys and its rule for proportional deposits.
use vstd::prelude::*;

verus! {

/// The logical keys of a pair's persisted state.
#[derive(Clone, Copy, Debug, PartialEq, Eq, Structural)]
pub enum DataKey {
    TotalShares,
    ReserveA,
    ReserveB,
}

#[derive(Clone, Copy, Debug, PartialEq, Eq, Structural)]
pub enum PairType {
    Xyk,
}

#[derive(Clone, Copy, Debug, PartialEq, Eq, Structural)]
pub enum ContractError {
    /// The amount of asset B that matches the deposit of A is below its minimum.
    DepositAmountBLessThenMin,
    /// The amount of asset A that matches the deposit of B exceeds what was
    /// offered, or what was offered is below its minimum.
    DepositAmountAExceedsOrBelowMin,
}

/// The amounts actually deposited: all of both into an empty pool; otherwise
/// all of A with B in the pool's proportion if that much B was offered, else
/// all of B with A in proportion. Each quotient is rounded down.
pub open spec fn deposit_amounts(
    desired_a: u128,
    min_a: u128,
    desired_b: u128,
    min_b: u128,
    pool_balance_a: u128,
    pool_balance_b: u128,
) -> Result<(u128, u128), ContractError> {
    if pool_balance_a == 0 && pool_balance_b == 0 {
        Ok((desired_a, desired_b))
    } else {
        let amount_b = (desired_a as int) * (pool_balance_b as int) / (pool_balance_a as int);
        if amount_b <= desired_b {
            if amount_b < min_b {
                Err(ContractError::DepositAmountBLessThenMin)
            } else {
                Ok((desired_a, amount_b as u128))
            }
        } else {
            let amount_a = (desired_b as int) * (pool_balance_a as int) / (pool_balance_b as int);
            if amount_a > desired_a || desired_a < min_a {
                Err(ContractError::DepositAmountAExceedsOrBelowMin)
            } else {
                Ok((amount_a as u128, desired_b))
            }
        }
    }
}

/// Splits a deposit of up to `desired_a` and `desired_b` in the pool's
/// proportion. A non-empty pool has some of asset A, and the product of the
/// offered A and the pool's B fits in `u128`.
pub fn get_deposit_amounts(
    desired_a: u128,
    min_a: u128,
    desired_b: u128,
    min_b: u128,
    pool_balance_a: u128,
    pool_balance_b: u128,
) -> (r: Result<(u128, u128), ContractError>)
    requires
        (pool_balance_a == 0 && pool_balance_b == 0) || (pool_balance_a > 0 && desired_a
            * pool_balance_b <= u128::MAX),
    ensures
        r == deposit_amounts(desired_a, min_a, desired_b, min_b, pool_balance_a, pool_balance_b),
{
    if pool_balance_a == 0 && pool_balance_b == 0 {
        return Ok((desired_a, desired_b));
    }
    let amount_b = desired_a * pool_balance_b / pool_balance_a;
    if amount_b <= desired_b {
        if amount_b < min_b {
            return Err(ContractError::DepositAmountBLessThenMin);
        }
        Ok((desired_a, amount_b))
    } else {
        proof {
            // amount_b > desired_b, so desired_b * pool_balance_a stays below
            // desired_a * pool_balance_b; and pool_balance_b is not zero.
            let (da, db, pa, pb) = (
                desired_a as int,
                desired_b as int,
                pool_balance_a as int,
                pool_balance_b as int,
            );
            vstd::arithmetic::div_mod::lemma_fundamental_div_mod(da * pb, pa);
            vstd::arithmetic::div_mod::lemma_mod_division_less_than_divisor(da * pb, pa);
            assert(db * pa <= da * pb) by (nonlinear_arith)
                requires
                    da * pb == pa * ((da * pb) / pa) + (da * pb) % pa,
                    (da * pb) % pa >= 0,
                    (da * pb) / pa > db,
                    pa > 0,
                    db >= 0,
            ;
            assert(pb != 0) by (nonlinear_arith)
                requires
                    (da * pb) / pa > db,
                    db >= 0,
                    pa > 0,
            ;
        }
        let amount_a = desired_b * pool_balance_a / pool_balance_b;
        if amount_a > desired_a || desired_a < min_a {
            return Err(ContractError::DepositAmountAExceedsOrBelowMin);
        }
        Ok((amount_a, desired_b))
    }
}

} // verus!
