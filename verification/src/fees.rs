use crate::constants::BASIS_POINTS;
use crate::errors::MMMErrorCode;
use crate::state::Pool;
use vstd::prelude::*;

verus! {

/// `bp` basis points of `amount`, rounded down.
pub open spec fn basis_points_of(amount: int, bp: int) -> int {
    amount * bp / BASIS_POINTS as int
}

/// The liquidity-provider fee on a trade: the pool's rate applied to the trade
/// price, but never more than the payment escrow holds.
pub open spec fn lp_fee(pool: Pool, escrow_balance: u64, total_price: u64) -> u64 {
    let full = basis_points_of(total_price as int, pool.lp_fee_bp as int);
    if full <= escrow_balance {
        full as u64
    } else {
        escrow_balance
    }
}

/// The referral fee on a trade: the pool's rate applied to the trade price,
/// or `NumericOverflow` where that leaves the 64-bit range.
pub open spec fn referral_fee(pool: Pool, total_price: u64) -> Result<u64, MMMErrorCode> {
    let full = basis_points_of(total_price as int, pool.referral_bp as int);
    if full <= u64::MAX {
        Ok(full as u64)
    } else {
        Err(MMMErrorCode::NumericOverflow)
    }
}

/// `bp` basis points of `amount`, computed in 128 bits.
fn take_basis_points(amount: u64, bp: u16) -> (r: u128)
    ensures
        r == basis_points_of(amount as int, bp as int),
{
    assert(0 <= amount * bp <= 0xFFFF_FFFF_FFFF_FFFF * 0xFFFF) by (nonlinear_arith)
        requires
            0 <= amount <= 0xFFFF_FFFF_FFFF_FFFF,
            0 <= bp <= 0xFFFF,
    ;
    (amount as u128) * (bp as u128) / (BASIS_POINTS as u128)
}

/// The liquidity-provider fee that `pool` charges on a trade of
/// `total_sol_price`, given what its payment escrow holds. A fee larger than
/// the escrow balance is cut down to that balance without an error.
pub fn get_sol_lp_fee(pool: &Pool, buyside_sol_escrow_balance: u64, total_sol_price: u64) -> (r:
    Result<u64, MMMErrorCode>)
    ensures
        r == Ok::<u64, MMMErrorCode>(lp_fee(*pool, buyside_sol_escrow_balance, total_sol_price)),
{
    let full: u128 = take_basis_points(total_sol_price, pool.lp_fee_bp);
    if full <= buyside_sol_escrow_balance as u128 {
        Ok(full as u64)
    } else {
        Ok(buyside_sol_escrow_balance)
    }
}

/// The referral fee that `pool` charges on a trade of `total_sol_price`.
pub fn get_sol_referral_fee(pool: &Pool, total_sol_price: u64) -> (r: Result<u64, MMMErrorCode>)
    ensures
        r == referral_fee(*pool, total_sol_price),
{
    let full: u128 = take_basis_points(total_sol_price, pool.referral_bp);
    if full <= u64::MAX as u128 {
        Ok(full as u64)
    } else {
        Err(MMMErrorCode::NumericOverflow)
    }
}

/// Neither fee is negative, and a rate of zero gives a fee of zero.
pub proof fn lemma_basis_points_of_bounds(amount: int, bp: int)
    requires
        0 <= amount,
        0 <= bp,
    ensures
        0 <= basis_points_of(amount, bp),
        bp == 0 ==> basis_points_of(amount, bp) == 0,
        bp <= BASIS_POINTS ==> basis_points_of(amount, bp) <= amount,
{
    assert(0 <= amount * bp / 10_000) by (nonlinear_arith)
        requires
            0 <= amount,
            0 <= bp,
    ;
    assert(bp == 0 ==> amount * bp / 10_000 == 0) by (nonlinear_arith);
    assert(bp <= 10_000 ==> amount * bp / 10_000 <= amount) by (nonlinear_arith)
        requires
            0 <= amount,
            0 <= bp,
    ;
}

/// Where a pool's liquidity and referral rates together are at most one
/// whole, its two fees on any trade together are at most the trade price.
pub proof fn lemma_fees_within_price(pool: Pool, escrow_balance: u64, total_price: u64)
    requires
        pool.lp_fee_bp + pool.referral_bp <= BASIS_POINTS,
    ensures
        referral_fee(pool, total_price) is Ok,
        lp_fee(pool, escrow_balance, total_price) + referral_fee(pool, total_price).unwrap()
            <= total_price,
{
    let t = total_price as int;
    let a = pool.lp_fee_bp as int;
    let b = pool.referral_bp as int;
    assert(t * a / 10_000 + t * b / 10_000 <= t) by (nonlinear_arith)
        requires
            0 <= t,
            0 <= a,
            0 <= b,
            a + b <= 10_000,
    ;
    lemma_basis_points_of_bounds(t, a);
    lemma_basis_points_of_bounds(t, b);
}

/// A rate of zero charges nothing and never fails, whatever the price.
pub proof fn lemma_zero_rates_charge_nothing(pool: Pool, escrow_balance: u64, total_price: u64)
    ensures
        pool.lp_fee_bp == 0 ==> lp_fee(pool, escrow_balance, total_price) == 0,
        pool.referral_bp == 0 ==> referral_fee(pool, total_price) == Ok::<u64, MMMErrorCode>(0),
{
    lemma_basis_points_of_bounds(total_price as int, 0);
}

} // verus!
