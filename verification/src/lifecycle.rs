use crate::errors::MMMErrorCode;
use crate::escrow::Effect;
use crate::state::Pool;
use vstd::prelude::*;

verus! {

impl Pool {
    /// The pool after it has absorbed `asset_amount` units for which it earned
    /// `lp_fee`, its quote moved to `next_price`; `NumericOverflow` where one
    /// of the two counters would leave the 64-bit range.
    pub open spec fn spec_record_fulfill_buy(self, asset_amount: u64, lp_fee: u64, next_price: u64) -> Result<
        Pool,
        MMMErrorCode,
    > {
        if self.sellside_orders_count + asset_amount <= u64::MAX && self.lp_fee_earned + lp_fee
            <= u64::MAX {
            Ok(
                Pool {
                    sellside_orders_count: (self.sellside_orders_count + asset_amount) as u64,
                    lp_fee_earned: (self.lp_fee_earned + lp_fee) as u64,
                    spot_price: next_price,
                    ..self
                },
            )
        } else {
            Err(MMMErrorCode::NumericOverflow)
        }
    }

    /// Books a fulfilled purchase: both counters grow and the quote moves to
    /// `next_price`. Where a counter would overflow, nothing is changed.
    pub fn record_fulfill_buy(&mut self, asset_amount: u64, lp_fee: u64, next_price: u64) -> (r:
        Result<(), MMMErrorCode>)
        ensures
            match r {
                Ok(()) => Ok::<Pool, MMMErrorCode>(*final(self)) == old(self).spec_record_fulfill_buy(
                    asset_amount,
                    lp_fee,
                    next_price,
                ),
                Err(e) => *final(self) == *old(self) && Err::<Pool, MMMErrorCode>(e) == old(
                    self,
                ).spec_record_fulfill_buy(asset_amount, lp_fee, next_price),
            },
            r is Ok ==> final(self).sellside_orders_count >= old(self).sellside_orders_count,
            r is Ok ==> final(self).lp_fee_earned >= old(self).lp_fee_earned,
    {
        let count: u64 = match self.sellside_orders_count.checked_add(asset_amount) {
            Some(count) => count,
            None => {
                return Err(MMMErrorCode::NumericOverflow);
            },
        };
        let earned: u64 = match self.lp_fee_earned.checked_add(lp_fee) {
            Some(earned) => earned,
            None => {
                return Err(MMMErrorCode::NumericOverflow);
            },
        };
        self.sellside_orders_count = count;
        self.lp_fee_earned = earned;
        self.spot_price = next_price;
        Ok(())
    }

    /// Whether the pool is to be reclaimed: it does not keep what it buys, and
    /// what is left in its payment escrow does not exceed the least balance
    /// that keeps an account alive.
    pub open spec fn spec_is_depleted(self, escrow_balance: u64, rent_exempt_minimum: u64) -> bool {
        !self.reinvest_fulfill_buy && escrow_balance <= rent_exempt_minimum
    }
}

/// Decides, once every payment of a settlement has left the escrow, whether
/// the pool is reclaimed, and says so. If it is, two movements are added to
/// `effects`: what the escrow still holds goes to the owner, and the pool is
/// closed.
pub fn try_close_pool(
    pool: &Pool,
    buyside_sol_escrow_balance: u64,
    rent_exempt_minimum: u64,
    effects: &mut Vec<Effect>,
) -> (closed: bool)
    ensures
        closed == pool.spec_is_depleted(buyside_sol_escrow_balance, rent_exempt_minimum),
        final(effects)@ == closing_effects(
            old(effects)@,
            *pool,
            buyside_sol_escrow_balance,
            rent_exempt_minimum,
        ),
{
    if !pool.reinvest_fulfill_buy && buyside_sol_escrow_balance <= rent_exempt_minimum {
        effects.push(Effect::SweepEscrow { lamports: buyside_sol_escrow_balance });
        effects.push(Effect::ClosePool);
        true
    } else {
        false
    }
}

/// The movements of a settlement once the pool's fate is decided: those in
/// `prior`, and after them, for a depleted pool, the two that reclaim it.
pub open spec fn closing_effects(
    prior: Seq<Effect>,
    pool: Pool,
    escrow_balance: u64,
    rent_exempt_minimum: u64,
) -> Seq<Effect> {
    if pool.spec_is_depleted(escrow_balance, rent_exempt_minimum) {
        prior.push(Effect::SweepEscrow { lamports: escrow_balance }).push(Effect::ClosePool)
    } else {
        prior
    }
}

} // verus!
