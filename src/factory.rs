//! The factory's storage keys and the kinds of pair it deploys.
use vstd::prelude::*;

verus! {

/// The logical keys of the factory's persisted state.
#[derive(Clone, Copy, Debug, PartialEq, Eq, Structural)]
pub enum DataKey {
    Admin,
    Config,
    LpVec,
}

#[derive(Clone, Copy, Debug, PartialEq, Eq, Structural)]
pub enum PairType {
    Xyk,
}

} // verus!
