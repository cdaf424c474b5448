//! A time-locked token distribution engine: principal held per recipient is
//! released along a saturating-linear unlock curve, and no balance decrease may
//! touch the still-locked part.
use vstd::prelude::*;

pub mod curve;
pub mod error;
pub mod storage;
pub mod ledger;
pub mod admission;
pub mod contract;
pub mod factory;
pub mod pair;

verus! {

} // verus!
