use crate::curve::{
    lemma_exponential_monotone, lemma_exponential_settled, lemma_exponential_step,
    lemma_exponential_total_monotone, lemma_linear_total, quote, spot_after, total_price,
};
use crate::errors::MMMErrorCode;
use crate::escrow::{lemma_effect_pushed, paid_out, received_by, AssetAccount, Effect, Party};
use crate::fees::{lp_fee, referral_fee};
use crate::lifecycle::closing_effects;
use crate::instructions::sol_fulfill_buy::{
    fulfill_buy, payment_effects, royalty_effects, Fulfilled, SolFulfillBuy, SolFulfillBuyArgs,
};
use crate::royalty::{
    creator_fee, creator_royalty, lemma_royalty_paid_is_sum, payouts_of_first, royalty_budget,
};
use crate::state::{Address, CurveKind, Pool};
use vstd::prelude::*;

verus! {

/// A trade that is priced at all moves the pool's quote in the trade's
/// direction or leaves it: down for a pool that absorbs units, up for a pool
/// that releases them. Against a pool whose quote is not zero it costs more
/// than nothing; a pool whose quote is zero absorbs units for nothing.
pub proof fn lemma_quote_follows_curve(pool: Pool, n: u64, absorbing: bool)
    requires
        quote(pool, n, absorbing) is Ok,
    ensures
        absorbing ==> quote(pool, n, absorbing).unwrap().1 <= pool.spot_price,
        !absorbing ==> quote(pool, n, absorbing).unwrap().1 >= pool.spot_price,
        pool.spot_price > 0 ==> quote(pool, n, absorbing).unwrap().0 > 0,
        absorbing && pool.spot_price == 0 ==> quote(pool, n, absorbing).unwrap().0 == 0,
{
    let spot = pool.spot_price as int;
    let delta = pool.curve_delta as int;
    let count = n as nat;
    match pool.curve_type {
        CurveKind::Linear => {
            lemma_linear_total(spot, delta, absorbing, count);
            let moved = count * delta;
            assert(0 <= moved) by (nonlinear_arith)
                requires
                    moved == count * delta,
                    0 <= delta,
            ;
            let gross = count * spot;
            assert(gross >= spot && (spot > 0 ==> gross > 0)) by (nonlinear_arith)
                requires
                    gross == count * spot,
                    count >= 1,
                    0 <= spot,
            ;
            if absorbing {
                assert(spot == 0 ==> moved * (count - 1) == 0 && gross == 0) by (nonlinear_arith)
                    requires
                        0 <= moved <= spot,
                        gross == count * spot,
                ;
                assert(moved * (count - 1) <= spot * (count - 1)) by (nonlinear_arith)
                    requires
                        moved <= spot,
                        count >= 1,
                ;
                assert(2 * gross - spot * (count - 1) == spot * (count + 1)) by (nonlinear_arith)
                    requires
                        gross == count * spot,
                ;
                assert(spot > 0 ==> spot * (count + 1) > 0) by (nonlinear_arith)
                    requires
                        count >= 1,
                ;
            } else {
                assert(0 <= moved * (count + 1)) by (nonlinear_arith)
                    requires
                        0 <= moved,
                ;
            }
        },
        CurveKind::Exponential => {
            lemma_exponential_monotone(spot, delta, absorbing, 0, count);
            lemma_exponential_total_monotone(spot, delta, absorbing, 1, count);
            lemma_exponential_step(spot, delta, absorbing, 0);
            assert(total_price(CurveKind::Exponential, spot, delta, absorbing, 0) == 0);
            assert(total_price(CurveKind::Exponential, spot, delta, absorbing, 1) >= spot);
            if absorbing && spot == 0 {
                lemma_exponential_step(spot, delta, absorbing, 1);
                lemma_exponential_settled(spot, delta, absorbing, 0, count);
                assert(count * 0 == 0) by (nonlinear_arith);
            }
        },
    }
}

/// The movements that pay the creators leave the movements before them as
/// they are, pay creators only, and take out of the escrow what the payouts
/// come to.
pub proof fn lemma_royalty_effects(prior: Seq<Effect>, payouts: Seq<u64>, k: nat)
    requires
        k <= payouts.len() <= usize::MAX,
    ensures
        ({
            let all = royalty_effects(prior, payouts, k);
            &&& prior.len() <= all.len()
            &&& forall|i: int| 0 <= i < prior.len() ==> all[i] == prior[i]
            &&& forall|i: int|
                prior.len() <= i < all.len() ==> (#[trigger] all[i] matches Effect::Pay { to, .. }
                    && to is Creator)
            &&& paid_out(all) == paid_out(prior) + payouts_of_first(payouts, k)
            &&& forall|party: Party|
                !(party is Creator) ==> #[trigger] received_by(all, party) == received_by(
                    prior,
                    party,
                )
            &&& forall|c: usize|
                c < payouts.len() ==> #[trigger] received_by(all, Party::Creator(c)) == received_by(
                    prior,
                    Party::Creator(c),
                ) + if c < k {
                    payouts[c as int] as int
                } else {
                    0
                }
        }),
    decreases k,
{
    if k > 0 {
        let before = royalty_effects(prior, payouts, (k - 1) as nat);
        lemma_royalty_effects(prior, payouts, (k - 1) as nat);
        if payouts[k - 1] > 0 {
            lemma_effect_pushed(
                before,
                Effect::Pay { to: Party::Creator((k - 1) as usize), lamports: payouts[k - 1] },
            );
        }
    }
}

/// In a fulfilment that goes through, the trade price is split into the
/// seller's proceeds and the two fees with nothing left over; the proceeds
/// are at least what the seller asked for; the royalty is at most the pool's
/// royalty rate applied to the trade price; and what leaves the payment
/// escrow is the trade price and the royalty, covered by what the escrow
/// held: the proceeds to the seller, each fee to its party, and to each
/// creator that creator's part of the royalty.
pub proof fn lemma_price_is_split(ctx: SolFulfillBuy, args: SolFulfillBuyArgs)
    requires
        fulfill_buy(ctx, args) is Ok,
    ensures
        ({
            let settlement = fulfill_buy(ctx, args).unwrap().settlement;
            &&& settlement.payment_amount + settlement.lp_fee + settlement.referral_fee
                == settlement.total_price
            &&& settlement.payment_amount >= args.min_payment_amount
            &&& settlement.royalty_paid <= royalty_budget(
                ctx.pool.buyside_creator_royalty_bp,
                settlement.total_price,
            )
            &&& paid_out(settlement.effects) == settlement.total_price + settlement.royalty_paid
            &&& paid_out(settlement.effects) <= ctx.buyside_sol_escrow_account.lamports
            &&& received_by(settlement.effects, Party::Seller) == settlement.payment_amount
            &&& received_by(settlement.effects, Party::Owner) == settlement.lp_fee
            &&& received_by(settlement.effects, Party::Referral) == settlement.referral_fee
            &&& forall|c: usize|
                c < ctx.creators@.len() ==> #[trigger] received_by(
                    settlement.effects,
                    Party::Creator(c),
                ) == creator_fee(
                    royalty_budget(ctx.pool.buyside_creator_royalty_bp, settlement.total_price),
                    ctx.creators@[c as int],
                )
        }),
{
    let done = fulfill_buy(ctx, args).unwrap();
    let settlement = done.settlement;
    let (total, next) = quote(ctx.pool, args.asset_amount, true).unwrap();
    let royalty = creator_royalty(ctx.pool.buyside_creator_royalty_bp, total, ctx.creators@).unwrap();
    let payouts = royalty.0;
    lemma_royalty_paid_is_sum(ctx.pool.buyside_creator_royalty_bp, total, ctx.creators@);
    let assets = ctx.asset_effects(args.asset_amount);
    lemma_asset_effects_pay_nothing(ctx, args.asset_amount);
    let fees = payment_effects(
        assets,
        settlement.payment_amount,
        settlement.lp_fee,
        settlement.referral_fee,
    );
    lemma_payment_effects(
        assets,
        settlement.payment_amount,
        settlement.lp_fee,
        settlement.referral_fee,
    );
    let paid = royalty_effects(fees, payouts, payouts.len());
    assert(payouts.len() == ctx.creators.len());
    lemma_royalty_effects(fees, payouts, payouts.len());
    let remaining = (ctx.buyside_sol_escrow_account.lamports - total - royalty.1) as u64;
    lemma_closing_effects(paid, done.accounts.pool, remaining, ctx.rent_exempt_minimum);
}

/// The movements that reclaim a pool leave the movements before them as they
/// are and count as no payment.
pub proof fn lemma_closing_effects(
    prior: Seq<Effect>,
    pool: Pool,
    escrow_balance: u64,
    rent_exempt_minimum: u64,
)
    ensures
        ({
            let all = closing_effects(prior, pool, escrow_balance, rent_exempt_minimum);
            &&& paid_out(all) == paid_out(prior)
            &&& forall|party: Party| #[trigger] received_by(all, party) == received_by(prior, party)
            &&& forall|i: int| 0 <= i < prior.len() ==> all[i] == prior[i]
            &&& if pool.spec_is_depleted(escrow_balance, rent_exempt_minimum) {
                &&& all.len() == prior.len() + 2
                &&& all[prior.len() as int] == (Effect::SweepEscrow { lamports: escrow_balance })
                &&& all[prior.len() as int + 1] == Effect::ClosePool
            } else {
                all == prior
            }
        }),
{
    let sweep = Effect::SweepEscrow { lamports: escrow_balance };
    lemma_effect_pushed(prior, sweep);
    lemma_effect_pushed(prior.push(sweep), Effect::ClosePool);
}

/// The movements on the asset's side take nothing out of the payment escrow.
pub proof fn lemma_asset_effects_pay_nothing(ctx: SolFulfillBuy, amount: u64)
    ensures
        paid_out(ctx.asset_effects(amount)) == 0,
        forall|party: Party| #[trigger] received_by(ctx.asset_effects(amount), party) == 0,
        forall|i: int|
            0 <= i < ctx.asset_effects(amount).len() ==> !(#[trigger] ctx.asset_effects(amount)[i]
                is Pay) && !(ctx.asset_effects(amount)[i] is ClosePool),
{
    let none = Seq::<Effect>::empty();
    let moved = none.push(Effect::MoveAsset { into: ctx.asset_destination(), amount });
    let source = Effect::CloseAssetAccount { account: AssetAccount::SellerHolding };
    let inventory = Effect::CloseAssetAccount { account: AssetAccount::PoolEscrow };
    assert(paid_out(none) == 0);
    assert forall|party: Party| #[trigger] received_by(none, party) == 0 by {}
    lemma_effect_pushed(none, Effect::MoveAsset { into: ctx.asset_destination(), amount });
    lemma_effect_pushed(moved, source);
    lemma_effect_pushed(moved, inventory);
    lemma_effect_pushed(moved.push(source), inventory);
}

/// The movements that pay the seller and the fees take out of the escrow what
/// the three come to, each to its own party.
pub proof fn lemma_payment_effects(
    prior: Seq<Effect>,
    payment_amount: u64,
    lp_fee: u64,
    referral_fee: u64,
)
    ensures
        ({
            let all = payment_effects(prior, payment_amount, lp_fee, referral_fee);
            &&& prior.len() < all.len()
            &&& forall|i: int| 0 <= i < prior.len() ==> all[i] == prior[i]
            &&& forall|i: int|
                prior.len() <= i < all.len() ==> (#[trigger] all[i] matches Effect::Pay { to, .. }
                    && !(to is Creator))
            &&& paid_out(all) == paid_out(prior) + payment_amount + lp_fee + referral_fee
            &&& received_by(all, Party::Seller) == received_by(prior, Party::Seller)
                + payment_amount
            &&& received_by(all, Party::Owner) == received_by(prior, Party::Owner) + lp_fee
            &&& received_by(all, Party::Referral) == received_by(prior, Party::Referral)
                + referral_fee
            &&& forall|c: usize| #[trigger]
                received_by(all, Party::Creator(c)) == received_by(prior, Party::Creator(c))
        }),
{
    let seller = Effect::Pay { to: Party::Seller, lamports: payment_amount };
    let owner = Effect::Pay { to: Party::Owner, lamports: lp_fee };
    let referral = Effect::Pay { to: Party::Referral, lamports: referral_fee };
    let paid = prior.push(seller);
    lemma_effect_pushed(prior, seller);
    lemma_effect_pushed(paid, owner);
    lemma_effect_pushed(paid, referral);
    lemma_effect_pushed(paid.push(owner), referral);
}

/// A fulfilment that goes through leaves the pool with `asset_amount` more
/// units absorbed, the liquidity fee added to what it has earned, and as its
/// quote exactly the next quote of its curve for that trade. Neither counter
/// ever shrinks, and nothing else about the pool changes.
pub proof fn lemma_pool_is_brought_up_to_date(ctx: SolFulfillBuy, args: SolFulfillBuyArgs)
    requires
        fulfill_buy(ctx, args) is Ok,
    ensures
        ({
            let done = fulfill_buy(ctx, args).unwrap();
            let priced = quote(ctx.pool, args.asset_amount, true);
            &&& priced is Ok
            &&& args.asset_amount > 0
            &&& done.settlement.total_price == priced.unwrap().0
            &&& done.settlement.lp_fee == lp_fee(
                ctx.pool,
                ctx.buyside_sol_escrow_account.lamports,
                done.settlement.total_price,
            )
            &&& referral_fee(ctx.pool, done.settlement.total_price) == Ok::<u64, MMMErrorCode>(
                done.settlement.referral_fee,
            )
            &&& done.accounts.pool == (Pool {
                spot_price: priced.unwrap().1,
                sellside_orders_count: (ctx.pool.sellside_orders_count + args.asset_amount) as u64,
                lp_fee_earned: (ctx.pool.lp_fee_earned + done.settlement.lp_fee) as u64,
                ..ctx.pool
            })
            &&& done.accounts.pool.sellside_orders_count == ctx.pool.sellside_orders_count
                + args.asset_amount
            &&& done.accounts.pool.lp_fee_earned == ctx.pool.lp_fee_earned
                + done.settlement.lp_fee
        }),
{
}

/// A pool whose expiry has passed fulfils nothing, whatever the trade. Where
/// the accounts are the pool's own and the pool trades in the native
/// currency, the refusal is `Expired`.
pub proof fn lemma_expired_pool_is_refused(ctx: SolFulfillBuy, args: SolFulfillBuyArgs)
    requires
        ctx.pool.expiry != 0,
        ctx.pool.expiry <= ctx.unix_timestamp,
    ensures
        fulfill_buy(ctx, args) is Err,
        ctx.pool.owner@ == ctx.owner@ && ctx.pool.referral@ == ctx.referral@ && ctx.pool.cosigner@
            == ctx.cosigner@ && ctx.pool.payment_mint@ == Address::spec_native() ==> fulfill_buy(
            ctx,
            args,
        ) == Err::<Fulfilled, MMMErrorCode>(
            MMMErrorCode::Expired,
        ),
{
}

/// An asset that the allowlist turns down is never fulfilled.
pub proof fn lemma_unlisted_asset_is_refused(ctx: SolFulfillBuy, args: SolFulfillBuyArgs)
    requires
        !ctx.asset_allowed,
    ensures
        fulfill_buy(ctx, args) is Err,
        ctx.spec_validate() is Ok ==> fulfill_buy(ctx, args) == Err::<
            Fulfilled,
            MMMErrorCode,
        >(MMMErrorCode::InvalidAllowlist),
{
}

/// The requested minimum decides nothing but whether the fulfilment goes
/// through: where a sale goes through with proceeds `p`, the same sale goes
/// through in the same way for every minimum up to `p`, and is refused with
/// `InvalidRequestedPrice` for every minimum above `p`.
pub proof fn lemma_slippage_guard(ctx: SolFulfillBuy, args: SolFulfillBuyArgs, minimum: u64)
    requires
        fulfill_buy(ctx, args) is Ok,
    ensures
        ({
            let other = SolFulfillBuyArgs {
                asset_amount: args.asset_amount,
                min_payment_amount: minimum,
            };
            let proceeds = fulfill_buy(ctx, args).unwrap().settlement.payment_amount;
            &&& minimum <= proceeds ==> fulfill_buy(ctx, other) == fulfill_buy(ctx, args)
            &&& minimum > proceeds ==> fulfill_buy(ctx, other) == Err::<
                Fulfilled,
                MMMErrorCode,
            >(MMMErrorCode::InvalidRequestedPrice)
        }),
{
}

/// What a fulfilment that goes through closes.
///
/// The pool's inventory account is closed exactly where the pool keeps
/// nothing and the account is empty after the trade; the seller's holding
/// exactly where the trade emptied it. The pool is closed exactly where it
/// keeps nothing and what the payments leave in the escrow is at most the
/// least balance that keeps an account alive: then the last two movements
/// hand the owner all that is left and close the pool, after every payment,
/// and the escrow ends empty. Otherwise the escrow ends with what the
/// payments left.
pub proof fn lemma_reclamation(ctx: SolFulfillBuy, args: SolFulfillBuyArgs)
    requires
        fulfill_buy(ctx, args) is Ok,
    ensures
        ({
            let done = fulfill_buy(ctx, args).unwrap();
            let effects = done.settlement.effects;
            let left = ctx.buyside_sol_escrow_account.lamports - paid_out(effects);
            let depleted = !ctx.pool.reinvest_fulfill_buy && left <= ctx.rent_exempt_minimum;
            &&& effects.contains(Effect::CloseAssetAccount { account: AssetAccount::PoolEscrow })
                <==> !ctx.pool.reinvest_fulfill_buy
                && done.accounts.sellside_escrow_token_account.amount == 0
            &&& effects.contains(Effect::CloseAssetAccount { account: AssetAccount::SellerHolding })
                <==> done.accounts.payer_asset_account.amount == 0
            &&& 0 <= left
            &&& depleted ==> effects.len() >= 2 && effects[effects.len() - 2] == (Effect::SweepEscrow {
                lamports: left as u64,
            }) && effects.last() == Effect::ClosePool
                && done.accounts.buyside_sol_escrow_account.lamports == 0
            &&& !depleted ==> done.accounts.buyside_sol_escrow_account.lamports == left
            &&& forall|i: int|
                0 <= i < effects.len() && #[trigger] effects[i] is ClosePool ==> depleted && i
                    == effects.len() - 1
            &&& forall|i: int|
                0 <= i < effects.len() && #[trigger] effects[i] is SweepEscrow ==> depleted && i
                    == effects.len() - 2
        }),
{
    let done = fulfill_buy(ctx, args).unwrap();
    let settlement = done.settlement;
    let effects = settlement.effects;
    lemma_price_is_split(ctx, args);
    let (total, next) = quote(ctx.pool, args.asset_amount, true).unwrap();
    let royalty = creator_royalty(ctx.pool.buyside_creator_royalty_bp, total, ctx.creators@).unwrap();
    let payouts = royalty.0;
    lemma_royalty_paid_is_sum(ctx.pool.buyside_creator_royalty_bp, total, ctx.creators@);
    let assets = ctx.asset_effects(args.asset_amount);
    lemma_asset_effects_pay_nothing(ctx, args.asset_amount);
    let fees = payment_effects(
        assets,
        settlement.payment_amount,
        settlement.lp_fee,
        settlement.referral_fee,
    );
    lemma_payment_effects(
        assets,
        settlement.payment_amount,
        settlement.lp_fee,
        settlement.referral_fee,
    );
    let paid = royalty_effects(fees, payouts, payouts.len());
    assert(payouts.len() == ctx.creators.len());
    lemma_royalty_effects(fees, payouts, payouts.len());
    let remaining = (ctx.buyside_sol_escrow_account.lamports - total - royalty.1) as u64;
    lemma_closing_effects(paid, done.accounts.pool, remaining, ctx.rent_exempt_minimum);
    let inventory = Effect::CloseAssetAccount { account: AssetAccount::PoolEscrow };
    let source = Effect::CloseAssetAccount { account: AssetAccount::SellerHolding };
    assert forall|i: int| 0 <= i < assets.len() implies effects[i] == assets[i] by {
        assert(fees[i] == assets[i]);
        assert(paid[i] == fees[i]);
        assert(effects[i] == paid[i]);
    }
    assert forall|i: int| assets.len() <= i < paid.len() implies #[trigger] effects[i] is Pay by {
        assert(effects[i] == paid[i]);
        if i < fees.len() {
            assert(paid[i] == fees[i]);
            assert(fees[i] is Pay);
        } else {
            assert(paid[i] is Pay);
        }
    }
    if !ctx.pool.reinvest_fulfill_buy && ctx.sellside_escrow_token_account.amount == 0 {
        assert(assets[assets.len() - 1] == inventory);
        assert(effects[assets.len() - 1] == inventory);
    } else {
        assert forall|i: int| 0 <= i < assets.len() implies assets[i] != inventory by {}
    }
    if ctx.payer_asset_account.amount == args.asset_amount {
        assert(assets[1] == source);
        assert(effects[1] == source);
    } else {
        assert forall|i: int| 0 <= i < assets.len() implies assets[i] != source by {}
    }
    assert forall|i: int| 0 <= i < effects.len() implies (#[trigger] effects[i] == inventory ==> i
        < assets.len()) && (effects[i] == source ==> i < assets.len()) && (effects[i] is ClosePool
        ==> i >= paid.len()) && (effects[i] is SweepEscrow ==> i >= paid.len()) by {
        if i < assets.len() {
        } else if i < paid.len() {
            assert(effects[i] is Pay);
        }
    }
}

} // verus!
