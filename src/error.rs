//! The ways an operation of the vesting engine can fail.
use vstd::prelude::*;

verus! {

#[derive(Clone, Copy, Debug, PartialEq, Eq, Structural)]
pub enum ContractError {
    /// `initialize` was called on an engine that is already active.
    AlreadyInitialized,
    /// No distribution schedule was supplied at setup.
    EmptySet,
    /// More schedules were supplied at setup than the complexity bound admits.
    ComplexityExceeded,
    /// The schedule amounts do not sum within `u128`.
    Overflow,
    /// The admin holds fewer tokens than the schedules commit.
    NoEnoughTokensToStart,
    /// The schedules commit more than the minter's capacity.
    TotalVestedOverCapacity,
    InvalidTransferAmount,
    InvalidBurnAmount,
    InvalidMintAmount,
    /// A debit asked for more than the currently unlocked part of a balance.
    InsufficientLiquidity,
    /// A claim found nothing unlocked.
    NeverFullyVested,
    NotAuthorized,
    MinterNotFound,
    NotEnoughCapacity,
    /// A balance is below its locked amount: the ledger invariant is broken.
    NotEnoughBalance,
    VestingNotFoundForAddress,
    NoAdminFound,
    NoTokenInfoFound,
}

} // verus!
