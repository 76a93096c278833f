use crate::curve::{get_sol_total_price_and_next_price, quote};
use crate::errors::MMMErrorCode;
use crate::escrow::{
    escrow_signer_seeds, make_escrow_signer_seeds, make_pool_signer_seeds, pool_signer_seeds,
    AssetAccount, Authority, Effect, Party,
};
use crate::fees::{get_sol_lp_fee, get_sol_referral_fee, lp_fee, referral_fee};
use crate::lifecycle::{closing_effects, try_close_pool};
use crate::system::{is_system_transfer, system_transfer, TransferInstruction};
use crate::royalty::{creator_royalty, pay_creator_fees_in_sol, Creator};
use crate::state::{Address, Pool, SystemAccount, TokenAccount};
use vstd::prelude::*;

verus! {

/// What a seller asks for: to sell `asset_amount` units into the pool, and to
/// take home at least `min_payment_amount` for them after fees.
#[derive(Clone, Copy, Debug, PartialEq, Eq, Structural)]
pub struct SolFulfillBuyArgs {
    pub asset_amount: u64,
    pub min_payment_amount: u64,
}

/// The accounts of one fulfilment, as far as the settlement reads or changes
/// them. The seller sells into `pool`, which pays out of its payment escrow.
#[derive(Clone, Debug, PartialEq, Eq)]
pub struct SolFulfillBuy {
    /// The seller, who signs the fulfilment.
    pub payer: Address,
    /// The account handed in as the pool's owner.
    pub owner: Address,
    /// The account that signed as the pool's cosigner.
    pub cosigner: Address,
    /// The account handed in as the pool's referral.
    pub referral: Address,
    pub pool: Pool,
    /// The address of the pool's own account.
    pub pool_key: Address,
    /// The bump of the pool's derived address.
    pub pool_bump: u8,
    /// The pool's payment escrow.
    pub buyside_sol_escrow_account: SystemAccount,
    /// The bump of the payment escrow's derived address.
    pub buyside_sol_escrow_account_bump: u8,
    /// The verdict of the pool's allowlist on the asset.
    pub asset_allowed: bool,
    /// The asset's creators, in the order of the asset's own record.
    pub creators: Vec<Creator>,
    /// The seller's holding of the asset.
    pub payer_asset_account: TokenAccount,
    /// The pool's inventory of the asset.
    pub sellside_escrow_token_account: TokenAccount,
    /// The owner's holding of the asset.
    pub owner_token_account: TokenAccount,
    /// The ledger's clock at the time of the fulfilment.
    pub unix_timestamp: i64,
    /// The least balance that keeps the pool's account alive.
    pub rent_exempt_minimum: u64,
}

/// What a fulfilment came to, and the movements that carry it out.
#[derive(Clone, Debug, PartialEq, Eq)]
pub struct Settlement {
    /// What the pool pays for the units, before fees.
    pub total_price: u64,
    /// The fee kept for the pool's owner.
    pub lp_fee: u64,
    /// The fee for the referral.
    pub referral_fee: u64,
    /// What the seller takes home.
    pub payment_amount: u64,
    /// What the creators are paid together, on top of `total_price`.
    pub royalty_paid: u64,
    /// The movements of the settlement, in their order.
    pub effects: Vec<Effect>,
}

/// A settlement, with its movements as a sequence.
pub struct SettlementView {
    pub total_price: u64,
    pub lp_fee: u64,
    pub referral_fee: u64,
    pub payment_amount: u64,
    pub royalty_paid: u64,
    pub effects: Seq<Effect>,
}

impl View for Settlement {
    type V = SettlementView;

    open spec fn view(&self) -> SettlementView {
        SettlementView {
            total_price: self.total_price,
            lp_fee: self.lp_fee,
            referral_fee: self.referral_fee,
            payment_amount: self.payment_amount,
            royalty_paid: self.royalty_paid,
            effects: self.effects@,
        }
    }
}

/// A fulfilment that went through: the accounts as it leaves them, and the
/// settlement.
pub struct Fulfilled {
    pub accounts: SolFulfillBuy,
    pub settlement: SettlementView,
}

/// The movements that pay the creators: one for each of the first `k`
/// creators whose payout is not zero, after the movements in `prior`.
pub open spec fn royalty_effects(prior: Seq<Effect>, payouts: Seq<u64>, k: nat) -> Seq<Effect>
    decreases k,
{
    if k == 0 {
        prior
    } else {
        let before = royalty_effects(prior, payouts, (k - 1) as nat);
        if payouts[k - 1] > 0 {
            before.push(Effect::Pay { to: Party::Creator((k - 1) as usize), lamports: payouts[k - 1] })
        } else {
            before
        }
    }
}

impl SolFulfillBuy {
    /// The first rule on identities, currency and time that these accounts
    /// break, if any.
    pub open spec fn spec_validate(self) -> Result<(), MMMErrorCode> {
        if self.pool.owner@ != self.owner@ {
            Err(MMMErrorCode::InvalidOwner)
        } else if self.pool.referral@ != self.referral@ {
            Err(MMMErrorCode::InvalidReferral)
        } else if self.pool.cosigner@ != self.cosigner@ {
            Err(MMMErrorCode::InvalidCosigner)
        } else if self.pool.payment_mint@ != Address::spec_native() {
            Err(MMMErrorCode::InvalidPaymentMint)
        } else if self.pool.expiry != 0 && self.pool.expiry <= self.unix_timestamp {
            Err(MMMErrorCode::Expired)
        } else {
            Ok(())
        }
    }

    /// Checks that the accounts handed in are the pool's own, that the pool
    /// trades in the native currency, and that it has not expired.
    pub fn validate(&self) -> (r: Result<(), MMMErrorCode>)
        ensures
            r == self.spec_validate(),
    {
        if !self.pool.owner.same(&self.owner) {
            Err(MMMErrorCode::InvalidOwner)
        } else if !self.pool.referral.same(&self.referral) {
            Err(MMMErrorCode::InvalidReferral)
        } else if !self.pool.cosigner.same(&self.cosigner) {
            Err(MMMErrorCode::InvalidCosigner)
        } else if !self.pool.payment_mint.is_native() {
            Err(MMMErrorCode::InvalidPaymentMint)
        } else if self.pool.expiry != 0 && self.pool.expiry <= self.unix_timestamp {
            Err(MMMErrorCode::Expired)
        } else {
            Ok(())
        }
    }

    /// The seeds that stand for `authority` when the host carries out a
    /// movement: none for the seller, who signed in person.
    pub open spec fn spec_signer_seeds(self, authority: Authority) -> Option<Seq<Seq<u8>>> {
        match authority {
            Authority::Seller => None,
            Authority::Pool => Some(
                pool_signer_seeds(self.pool.owner@, self.pool.uuid@, self.pool_bump),
            ),
            Authority::PaymentEscrow => Some(
                escrow_signer_seeds(self.pool_key@, self.buyside_sol_escrow_account_bump),
            ),
        }
    }

    /// Builds the seeds that stand for `authority`.
    pub fn signer_seeds(&self, authority: Authority) -> (r: Option<Vec<Vec<u8>>>)
        ensures
            match r {
                Some(seeds) => self.spec_signer_seeds(authority) == Some(seeds.deep_view()),
                None => self.spec_signer_seeds(authority) is None,
            },
    {
        match authority {
            Authority::Seller => None,
            Authority::Pool => Some(
                make_pool_signer_seeds(&self.pool.owner, &self.pool.uuid, self.pool_bump),
            ),
            Authority::PaymentEscrow => Some(
                make_escrow_signer_seeds(&self.pool_key, self.buyside_sol_escrow_account_bump),
            ),
        }
    }

    /// The wallet of `party`, if there is one: a creator is looked up by its
    /// position among the asset's creators.
    pub open spec fn spec_party_address(self, party: Party) -> Option<Address> {
        match party {
            Party::Seller => Some(self.payer),
            Party::Owner => Some(self.owner),
            Party::Referral => Some(self.referral),
            Party::Creator(i) => if i < self.creators@.len() {
                Some(self.creators@[i as int].address)
            } else {
                None
            },
        }
    }

    /// Looks up the wallet of `party`.
    pub fn party_address(&self, party: Party) -> (r: Option<Address>)
        ensures
            r == self.spec_party_address(party),
    {
        match party {
            Party::Seller => Some(self.payer),
            Party::Owner => Some(self.owner),
            Party::Referral => Some(self.referral),
            Party::Creator(i) => if i < self.creators.len() {
                Some(self.creators[i].address)
            } else {
                None
            },
        }
    }

    /// Where a movement sends lamports from the payment escrow, and how
    /// many: a payment goes to its party, and what is swept out of the escrow
    /// of a pool that closes goes to the owner. Other movements send none.
    pub open spec fn spec_payment(self, effect: Effect) -> Option<(Address, u64)> {
        match effect {
            Effect::Pay { to, lamports } => match self.spec_party_address(to) {
                Some(address) => Some((address, lamports)),
                None => None,
            },
            Effect::SweepEscrow { lamports } => Some((self.owner, lamports)),
            _ => None,
        }
    }

    /// Builds the system program's instruction that carries out `effect`, for
    /// a movement that sends lamports out of the payment escrow: a transfer
    /// from the escrow, which signs, to the wallet the lamports are for.
    pub fn payment_instruction(&self, effect: &Effect) -> (r: Option<TransferInstruction>)
        ensures
            match r {
                Some(instruction) => self.spec_payment(*effect) matches Some((to, lamports))
                    && is_system_transfer(
                    instruction,
                    self.buyside_sol_escrow_account.key@,
                    to@,
                    lamports,
                ),
                None => self.spec_payment(*effect) is None,
            },
    {
        let (to, lamports): (Address, u64) = match effect {
            Effect::Pay { to, lamports } => match self.party_address(*to) {
                Some(address) => (address, *lamports),
                None => {
                    return None;
                },
            },
            Effect::SweepEscrow { lamports } => (self.owner, *lamports),
            _ => {
                return None;
            },
        };
        Some(system_transfer(&self.buyside_sol_escrow_account.key, &to, lamports))
    }

    /// Where the asset goes: into the pool's inventory if the pool keeps what
    /// it buys, else straight to the owner.
    pub open spec fn asset_destination(self) -> AssetAccount {
        if self.pool.reinvest_fulfill_buy {
            AssetAccount::PoolEscrow
        } else {
            AssetAccount::OwnerHolding
        }
    }

    /// The accounts once `amount` units have left the seller's holding for
    /// their destination; `NumericOverflow` where the seller holds fewer, or
    /// the destination cannot hold as many more.
    pub open spec fn spec_move_asset(self, amount: u64) -> Result<SolFulfillBuy, MMMErrorCode> {
        let held = if self.pool.reinvest_fulfill_buy {
            self.sellside_escrow_token_account.amount
        } else {
            self.owner_token_account.amount
        };
        if self.payer_asset_account.amount < amount || held + amount > u64::MAX {
            Err(MMMErrorCode::NumericOverflow)
        } else if self.pool.reinvest_fulfill_buy {
            Ok(
                SolFulfillBuy {
                    payer_asset_account: TokenAccount {
                        amount: (self.payer_asset_account.amount - amount) as u64,
                    },
                    sellside_escrow_token_account: TokenAccount { amount: (held + amount) as u64 },
                    ..self
                },
            )
        } else {
            Ok(
                SolFulfillBuy {
                    payer_asset_account: TokenAccount {
                        amount: (self.payer_asset_account.amount - amount) as u64,
                    },
                    owner_token_account: TokenAccount { amount: (held + amount) as u64 },
                    ..self
                },
            )
        }
    }

    /// The movements on the asset's side: the asset moves; the seller's
    /// holding is closed if that emptied it; the pool's inventory account is
    /// closed if the pool keeps nothing and the account is empty.
    pub open spec fn asset_effects(self, amount: u64) -> Seq<Effect> {
        let moved = Seq::<Effect>::empty().push(
            Effect::MoveAsset { into: self.asset_destination(), amount },
        );
        let emptied = if self.payer_asset_account.amount == amount {
            moved.push(Effect::CloseAssetAccount { account: AssetAccount::SellerHolding })
        } else {
            moved
        };
        if !self.pool.reinvest_fulfill_buy && self.sellside_escrow_token_account.amount == 0 {
            emptied.push(Effect::CloseAssetAccount { account: AssetAccount::PoolEscrow })
        } else {
            emptied
        }
    }
}

/// The movements that pay the seller and the two fees, after the movements in
/// `prior`. The seller's payment is always made; a fee of zero is not.
pub open spec fn payment_effects(
    prior: Seq<Effect>,
    payment_amount: u64,
    lp_fee: u64,
    referral_fee: u64,
) -> Seq<Effect> {
    let paid = prior.push(Effect::Pay { to: Party::Seller, lamports: payment_amount });
    let with_lp = if lp_fee > 0 {
        paid.push(Effect::Pay { to: Party::Owner, lamports: lp_fee })
    } else {
        paid
    };
    if referral_fee > 0 {
        with_lp.push(Effect::Pay { to: Party::Referral, lamports: referral_fee })
    } else {
        with_lp
    }
}

/// The money side of a sale, settled before anything moves.
#[derive(Clone, Copy, Debug, PartialEq, Eq, Structural)]
pub struct Terms {
    /// What the pool pays for the units, before fees.
    pub total_price: u64,
    /// The pool's quote once the units are absorbed.
    pub next_price: u64,
    pub lp_fee: u64,
    pub referral_fee: u64,
    /// What is left of the price for the seller.
    pub payment_amount: u64,
}

/// The terms on which `pool` buys `args.asset_amount` units while its payment
/// escrow holds `escrow_balance`: the price along the pool's curve, the two
/// fees on it, and the rest of the price as the seller's proceeds.
///
/// `NumericOverflow` where the trade cannot be priced, the referral fee
/// leaves the 64-bit range, or the fees together exceed the price;
/// `InvalidRequestedPrice` where the proceeds fall short of
/// `args.min_payment_amount`.
pub open spec fn spec_terms(pool: Pool, escrow_balance: u64, args: SolFulfillBuyArgs) -> Result<
    Terms,
    MMMErrorCode,
> {
    match quote(pool, args.asset_amount, true) {
        Err(e) => Err(e),
        Ok((total_price, next_price)) => match referral_fee(pool, total_price) {
            Err(e) => Err(e),
            Ok(referral_fee) => {
                let lp_fee = lp_fee(pool, escrow_balance, total_price);
                if lp_fee + referral_fee > total_price {
                    Err(MMMErrorCode::NumericOverflow)
                } else if total_price - lp_fee - referral_fee < args.min_payment_amount {
                    Err(MMMErrorCode::InvalidRequestedPrice)
                } else {
                    Ok(
                        Terms {
                            total_price,
                            next_price,
                            lp_fee,
                            referral_fee,
                            payment_amount: (total_price - lp_fee - referral_fee) as u64,
                        },
                    )
                }
            },
        },
    }
}

/// Works out the terms of a sale: prices it, takes the two fees, and holds
/// what is left for the seller against the minimum the seller asked for.
pub fn terms(pool: &Pool, escrow_balance: u64, args: &SolFulfillBuyArgs) -> (r: Result<
    Terms,
    MMMErrorCode,
>)
    ensures
        r == spec_terms(*pool, escrow_balance, *args),
{
    let (total_price, next_price) = get_sol_total_price_and_next_price(
        pool,
        args.asset_amount,
        true,
    )?;
    let lp_fee: u64 = get_sol_lp_fee(pool, escrow_balance, total_price)?;
    let referral_fee: u64 = get_sol_referral_fee(pool, total_price)?;
    let payment_amount: u64 = match total_price.checked_sub(lp_fee) {
        Some(rest) => match rest.checked_sub(referral_fee) {
            Some(rest) => rest,
            None => {
                return Err(MMMErrorCode::NumericOverflow);
            },
        },
        None => {
            return Err(MMMErrorCode::NumericOverflow);
        },
    };
    if payment_amount < args.min_payment_amount {
        return Err(MMMErrorCode::InvalidRequestedPrice);
    }
    Ok(Terms { total_price, next_price, lp_fee, referral_fee, payment_amount })
}

impl SolFulfillBuy {
    /// What paying out `terms` comes to, on accounts from which the asset has
    /// already moved by the movements in `moved`: proceeds and fees leave the
    /// payment escrow, the pool's counters and quote are brought up to date,
    /// the creators are paid out of the same escrow, and the pool is
    /// reclaimed if that left it depleted.
    ///
    /// `NumericOverflow` where the escrow cannot cover the price, a counter
    /// of the pool would overflow, the royalty is refused, or what is left
    /// in the escrow cannot cover the royalty.
    pub open spec fn spec_disburse(
        self,
        terms: Terms,
        asset_amount: u64,
        moved: Seq<Effect>,
    ) -> Result<Fulfilled, MMMErrorCode> {
        let escrow = self.buyside_sol_escrow_account.lamports;
        if escrow < terms.total_price {
            Err(MMMErrorCode::NumericOverflow)
        } else {
            match self.pool.spec_record_fulfill_buy(asset_amount, terms.lp_fee, terms.next_price) {
                Err(e) => Err(e),
                Ok(pool) => match creator_royalty(
                    pool.buyside_creator_royalty_bp,
                    terms.total_price,
                    self.creators@,
                ) {
                    Err(e) => Err(e),
                    Ok((payouts, royalty_paid)) => if escrow - terms.total_price < royalty_paid {
                        Err(MMMErrorCode::NumericOverflow)
                    } else {
                        let remaining = (escrow - terms.total_price - royalty_paid) as u64;
                        let depleted = pool.spec_is_depleted(remaining, self.rent_exempt_minimum);
                        Ok(
                            Fulfilled {
                                accounts: SolFulfillBuy {
                                    pool,
                                    buyside_sol_escrow_account: SystemAccount {
                                        lamports: if depleted {
                                            0
                                        } else {
                                            remaining
                                        },
                                        ..self.buyside_sol_escrow_account
                                    },
                                    ..self
                                },
                                settlement: SettlementView {
                                    total_price: terms.total_price,
                                    lp_fee: terms.lp_fee,
                                    referral_fee: terms.referral_fee,
                                    payment_amount: terms.payment_amount,
                                    royalty_paid,
                                    effects: closing_effects(
                                        royalty_effects(
                                            payment_effects(
                                                moved,
                                                terms.payment_amount,
                                                terms.lp_fee,
                                                terms.referral_fee,
                                            ),
                                            payouts,
                                            payouts.len(),
                                        ),
                                        pool,
                                        remaining,
                                        self.rent_exempt_minimum,
                                    ),
                                },
                            },
                        )
                    },
                },
            }
        }
    }
}

/// What the fulfilment of `args` on `ctx` comes to.
///
/// The steps are taken in this order, and the first that fails gives the
/// error: the accounts are validated; the allowlist's verdict is read; the
/// asset moves; the terms of the sale are worked out and the seller's
/// proceeds held against the requested minimum; and the terms are paid out.
/// A sale that cannot be priced and an asset that cannot move are refused
/// with the same error, so it does not show which of the two is tried first.
pub open spec fn fulfill_buy(ctx: SolFulfillBuy, args: SolFulfillBuyArgs) -> Result<
    Fulfilled,
    MMMErrorCode,
> {
    match ctx.spec_validate() {
        Err(e) => Err(e),
        Ok(()) => if !ctx.asset_allowed {
            Err(MMMErrorCode::InvalidAllowlist)
        } else {
            match ctx.spec_move_asset(args.asset_amount) {
                Err(e) => Err(e),
                Ok(moved) => match spec_terms(
                    ctx.pool,
                    ctx.buyside_sol_escrow_account.lamports,
                    args,
                ) {
                    Err(e) => Err(e),
                    Ok(terms) => moved.spec_disburse(
                        terms,
                        args.asset_amount,
                        ctx.asset_effects(args.asset_amount),
                    ),
                },
            }
        },
    }
}

/// Fulfils one sale into the pool: prices it, splits the price into the
/// seller's proceeds and the fees, moves the asset, pays everyone out of the
/// pool's payment escrow, brings the pool up to date and reclaims it if it is
/// depleted.
///
/// On success the accounts in `ctx` are as the settlement leaves them, and the
/// settlement lists every movement for the host to carry out. On any error
/// `ctx` is left exactly as it was.
pub fn handler(ctx: &mut SolFulfillBuy, args: SolFulfillBuyArgs) -> (r: Result<
    Settlement,
    MMMErrorCode,
>)
    ensures
        match r {
            Ok(settlement) => fulfill_buy(*old(ctx), args) == Ok::<Fulfilled, MMMErrorCode>(
                (Fulfilled { accounts: *final(ctx), settlement: settlement@ }),
            ),
            Err(e) => fulfill_buy(*old(ctx), args) == Err::<Fulfilled, MMMErrorCode>(e) && *final(ctx)
                == *old(ctx),
        },
{
    ctx.validate()?;
    if !ctx.asset_allowed {
        return Err(MMMErrorCode::InvalidAllowlist);
    }
    let keeps: bool = ctx.pool.reinvest_fulfill_buy;
    let held: u64 = if keeps {
        ctx.sellside_escrow_token_account.amount
    } else {
        ctx.owner_token_account.amount
    };
    let seller_left: u64 = match ctx.payer_asset_account.amount.checked_sub(args.asset_amount) {
        Some(left) => left,
        None => {
            return Err(MMMErrorCode::NumericOverflow);
        },
    };
    let holds: u64 = match held.checked_add(args.asset_amount) {
        Some(holds) => holds,
        None => {
            return Err(MMMErrorCode::NumericOverflow);
        },
    };
    let mut effects: Vec<Effect> = Vec::new();
    effects.push(
        Effect::MoveAsset {
            into: if keeps {
                AssetAccount::PoolEscrow
            } else {
                AssetAccount::OwnerHolding
            },
            amount: args.asset_amount,
        },
    );
    if seller_left == 0 {
        effects.push(Effect::CloseAssetAccount { account: AssetAccount::SellerHolding });
    }
    if !keeps && ctx.sellside_escrow_token_account.amount == 0 {
        effects.push(Effect::CloseAssetAccount { account: AssetAccount::PoolEscrow });
    }
    assert(effects@ == old(ctx).asset_effects(args.asset_amount));

    let escrow: u64 = ctx.buyside_sol_escrow_account.lamports;
    let agreed: Terms = terms(&ctx.pool, escrow, &args)?;
    let mut remaining: u64 = match escrow.checked_sub(agreed.total_price) {
        Some(rest) => rest,
        None => {
            return Err(MMMErrorCode::NumericOverflow);
        },
    };
    effects.push(Effect::Pay { to: Party::Seller, lamports: agreed.payment_amount });
    if agreed.lp_fee > 0 {
        effects.push(Effect::Pay { to: Party::Owner, lamports: agreed.lp_fee });
    }
    if agreed.referral_fee > 0 {
        effects.push(Effect::Pay { to: Party::Referral, lamports: agreed.referral_fee });
    }
    let ghost paid_fees = payment_effects(
        old(ctx).asset_effects(args.asset_amount),
        agreed.payment_amount,
        agreed.lp_fee,
        agreed.referral_fee,
    );
    assert(effects@ == paid_fees);

    let mut pool: Pool = ctx.pool;
    pool.record_fulfill_buy(args.asset_amount, agreed.lp_fee, agreed.next_price)?;
    let (payouts, royalty_paid) = pay_creator_fees_in_sol(
        pool.buyside_creator_royalty_bp,
        agreed.total_price,
        &ctx.creators,
    )?;
    remaining = match remaining.checked_sub(royalty_paid) {
        Some(rest) => rest,
        None => {
            return Err(MMMErrorCode::NumericOverflow);
        },
    };
    let mut i: usize = 0;
    while i < payouts.len()
        invariant
            i <= payouts.len(),
            effects@ == royalty_effects(paid_fees, payouts@, i as nat),
        decreases payouts.len() - i,
    {
        if payouts[i] > 0 {
            effects.push(Effect::Pay { to: Party::Creator(i), lamports: payouts[i] });
        }
        i += 1;
    }
    let closed: bool = try_close_pool(&pool, remaining, ctx.rent_exempt_minimum, &mut effects);

    ctx.pool = pool;
    ctx.buyside_sol_escrow_account.lamports = if closed {
        0
    } else {
        remaining
    };
    ctx.payer_asset_account.amount = seller_left;
    if keeps {
        ctx.sellside_escrow_token_account.amount = holds;
    } else {
        ctx.owner_token_account.amount = holds;
    }
    Ok(
        Settlement {
            total_price: agreed.total_price,
            lp_fee: agreed.lp_fee,
            referral_fee: agreed.referral_fee,
            payment_amount: agreed.payment_amount,
            royalty_paid,
            effects,
        },
    )
}

} // verus!
