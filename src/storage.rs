//! The data the vesting engine keeps: token metadata, schedules, ledger
//! entries and the minter.
use vstd::prelude::*;
use crate::curve::{Curve, SaturatingLinear};

verus! {

/// An account or contract identity. Only its equality matters to the engine.
#[derive(Clone, Copy, Debug, PartialEq, Eq, Structural)]
pub struct Address {
    pub id: u64,
}

/// The logical keys of the persisted state.
#[derive(Clone, Copy, Debug, PartialEq, Eq, Structural)]
pub enum DataKey {
    Admin,
    Config,
    Minter,
    Whitelist,
    VestingTokenInfo,
    MaxVestingComplexity,
}

#[derive(Clone, Debug, PartialEq, Eq)]
pub struct VestingTokenInfo {
    pub name: String,
    pub symbol: String,
    pub decimals: u32,
    pub address: Address,
}

/// One schedule supplied at setup, with its recipient.
#[derive(Clone, Copy, Debug, PartialEq, Eq, Structural)]
pub struct VestingBalance {
    pub rcpt_address: Address,
    pub distribution_info: DistributionInfo,
}

#[derive(Clone, Copy, Debug, PartialEq, Eq, Structural)]
pub struct MinterInfo {
    pub address: Address,
    pub mint_capacity: u128,
}

/// A lock-down schedule: `amount` is locked up to `start_timestamp` and
/// released linearly until `end_timestamp`. Never changed once created.
#[derive(Clone, Copy, Debug, PartialEq, Eq, Structural)]
pub struct DistributionInfo {
    pub start_timestamp: u64,
    pub end_timestamp: u64,
    pub amount: u128,
}

/// A ledger entry: what a recipient still holds under its schedule.
#[derive(Clone, Copy, Debug, PartialEq, Eq, Structural)]
pub struct VestingInfo {
    pub balance: u128,
    pub distribution_info: DistributionInfo,
}

impl MinterInfo {
    pub fn get_curve(&self) -> (r: Curve)
        ensures
            r == Curve::Constant(self.mint_capacity),
    {
        Curve::Constant(self.mint_capacity)
    }
}

impl DistributionInfo {
    pub open spec fn spec_curve(self) -> Curve {
        Curve::SaturatingLinear(
            SaturatingLinear {
                min_x: self.start_timestamp,
                min_y: self.amount,
                max_x: self.end_timestamp,
                max_y: 0,
            },
        )
    }

    /// The amount still locked at time `t`.
    pub open spec fn locked_at(self, t: u64) -> int {
        self.spec_curve().spec_value(t)
    }

    pub fn get_curve(&self) -> (r: Curve)
        ensures
            r == self.spec_curve(),
    {
        Curve::SaturatingLinear(
            SaturatingLinear {
                min_x: self.start_timestamp,
                min_y: self.amount,
                max_x: self.end_timestamp,
                max_y: 0u128,
            },
        )
    }
}

} // verus!
