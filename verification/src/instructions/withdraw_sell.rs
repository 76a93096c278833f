use crate::state::{Address, Pool};
use vstd::prelude::*;

verus! {

/// What an owner asks for: to take `asset_amount` units out of the pool's
/// inventory.
#[derive(Clone, Copy, Debug, PartialEq, Eq, Structural)]
pub struct WithdrawSellArgs {
    pub asset_amount: u64,
}

/// The accounts of a withdrawal: the owner who signs, the cosigner, and the
/// pool.
#[derive(Clone, Copy, Debug, PartialEq, Eq)]
pub struct WithdrawSell {
    pub owner: Address,
    pub cosigner: Address,
    pub pool: Pool,
}

} // verus!
