use vstd::prelude::*;

verus! {

/// One whole, in basis points.
pub const BASIS_POINTS: u64 = 10_000;

/// The first seed of a pool's derived address.
pub const POOL_PREFIX: &'static str = "mmm_pool";

/// The first seed of the derived address of a pool's payment escrow.
pub const BUYSIDE_SOL_ESCROW_ACCOUNT_PREFIX: &'static str = "mmm_buyside_sol_escrow_account";

} // verus!
