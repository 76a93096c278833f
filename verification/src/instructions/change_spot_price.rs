use crate::state::{Address, Pool};
use vstd::prelude::*;

verus! {

/// What an owner asks for: a new quote for the pool.
#[derive(Clone, Copy, Debug, PartialEq, Eq, Structural)]
pub struct ChangeSpotPriceArgs {
    pub price: u64,
}

/// The accounts of a change of quote: the owner who signs, the cosigner, and
/// the pool.
#[derive(Clone, Copy, Debug, PartialEq, Eq)]
pub struct ChangeSpotPrice {
    pub owner: Address,
    pub cosigner: Address,
    pub pool: Pool,
}

} // verus!
