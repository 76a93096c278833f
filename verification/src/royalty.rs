use crate::errors::MMMErrorCode;
use crate::fees::{basis_points_of, lemma_basis_points_of_bounds};
use crate::state::Address;
use vstd::prelude::*;

verus! {

/// A creator of the traded asset, with the part of the royalty that is theirs.
#[derive(Clone, Copy, Debug, PartialEq, Eq)]
pub struct Creator {
    pub address: Address,
    /// This creator's part of the royalty, in basis points of the royalty.
    pub share_bp: u16,
}

/// The whole royalty on a trade: the royalty rate applied to the trade price.
pub open spec fn royalty_budget(royalty_bp: u16, total_price: u64) -> int {
    basis_points_of(total_price as int, royalty_bp as int)
}

/// What one creator is owed out of a royalty of `budget`.
pub open spec fn creator_fee(budget: int, creator: Creator) -> int {
    basis_points_of(budget, creator.share_bp as int)
}

/// What the first `k` creators are owed together.
pub open spec fn fees_of_first(budget: int, creators: Seq<Creator>, k: nat) -> int
    decreases k,
{
    if k == 0 {
        0
    } else {
        fees_of_first(budget, creators, (k - 1) as nat) + creator_fee(budget, creators[k - 1])
    }
}

/// The shares of the first `k` creators together, in basis points.
pub open spec fn shares_of_first(creators: Seq<Creator>, k: nat) -> int
    decreases k,
{
    if k == 0 {
        0
    } else {
        shares_of_first(creators, (k - 1) as nat) + creators[k - 1].share_bp
    }
}

/// The royalty on a trade, creator by creator, and what is paid in all.
///
/// The royalty is refused with `NumericOverflow` where the whole royalty
/// leaves the 64-bit range, or where the creators together are owed more than
/// the whole royalty.
pub open spec fn creator_royalty(royalty_bp: u16, total_price: u64, creators: Seq<Creator>) -> Result<
    (Seq<u64>, u64),
    MMMErrorCode,
> {
    let budget = royalty_budget(royalty_bp, total_price);
    let paid = fees_of_first(budget, creators, creators.len());
    if budget <= u64::MAX && paid <= budget {
        Ok((Seq::new(creators.len(), |i: int| creator_fee(budget, creators[i]) as u64), paid as u64))
    } else {
        Err(MMMErrorCode::NumericOverflow)
    }
}

/// What the creators are owed together never shrinks as creators are added.
pub proof fn lemma_fees_of_first_monotone(budget: int, creators: Seq<Creator>, k: nat, m: nat)
    requires
        0 <= budget,
        k <= m,
    ensures
        0 <= fees_of_first(budget, creators, k) <= fees_of_first(budget, creators, m),
    decreases m,
{
    if m > 0 {
        lemma_basis_points_of_bounds(budget, creators[m - 1].share_bp as int);
        if k == m {
            lemma_fees_of_first_monotone(budget, creators, (m - 1) as nat, (m - 1) as nat);
        } else {
            lemma_fees_of_first_monotone(budget, creators, k, (m - 1) as nat);
        }
    }
}

/// Creators whose shares together are at most one whole are never owed more
/// than the whole royalty.
pub proof fn lemma_royalty_within_budget(budget: int, creators: Seq<Creator>, k: nat)
    requires
        0 <= budget,
        shares_of_first(creators, k) <= 10_000,
    ensures
        fees_of_first(budget, creators, k) * 10_000 <= budget * shares_of_first(creators, k),
        fees_of_first(budget, creators, k) <= budget,
    decreases k,
{
    if k == 0 {
        assert(budget * 0 == 0) by (nonlinear_arith);
    } else {
        let j = (k - 1) as nat;
        lemma_royalty_within_budget(budget, creators, j);
        let f = fees_of_first(budget, creators, j);
        let s = shares_of_first(creators, j);
        let share = creators[k - 1].share_bp as int;
        let fee = creator_fee(budget, creators[k - 1]);
        assert(fee * 10_000 <= budget * share) by (nonlinear_arith)
            requires
                fee == budget * share / 10_000,
        ;
        assert(budget * (s + share) == budget * s + budget * share) by (nonlinear_arith);
    }
    let f = fees_of_first(budget, creators, k);
    let s = shares_of_first(creators, k);
    assert(f <= budget) by (nonlinear_arith)
        requires
            f * 10_000 <= budget * s,
            s <= 10_000,
            0 <= budget,
    ;
}

/// Works out the creator royalty on a trade of `total_price`: what each
/// creator is paid, in the creators' order, and the sum of it. A creator whose
/// part rounds down to nothing is paid nothing.
///
/// What is paid in all never exceeds `buyside_creator_royalty_bp` basis points
/// of `total_price`, rounded down.
pub fn pay_creator_fees_in_sol(
    buyside_creator_royalty_bp: u16,
    total_price: u64,
    creators: &Vec<Creator>,
) -> (r: Result<(Vec<u64>, u64), MMMErrorCode>)
    ensures
        match r {
            Ok((payouts, paid)) => creator_royalty(buyside_creator_royalty_bp, total_price, creators@)
                == Ok::<(Seq<u64>, u64), MMMErrorCode>((payouts@, paid)) && paid <= royalty_budget(
                buyside_creator_royalty_bp,
                total_price,
            ),
            Err(e) => creator_royalty(buyside_creator_royalty_bp, total_price, creators@) == Err::<
                (Seq<u64>, u64),
                MMMErrorCode,
            >(e),
        },
{
    assert(0 <= total_price * buyside_creator_royalty_bp <= 0xFFFF_FFFF_FFFF_FFFF * 0xFFFF)
        by (nonlinear_arith)
        requires
            0 <= total_price <= 0xFFFF_FFFF_FFFF_FFFF,
            0 <= buyside_creator_royalty_bp <= 0xFFFF,
    ;
    let wide: u128 = (total_price as u128) * (buyside_creator_royalty_bp as u128) / 10_000;
    if wide > u64::MAX as u128 {
        return Err(MMMErrorCode::NumericOverflow);
    }
    let budget: u64 = wide as u64;
    let mut payouts: Vec<u64> = Vec::new();
    let mut paid: u64 = 0;
    let mut i: usize = 0;
    while i < creators.len()
        invariant
            i <= creators.len(),
            budget == royalty_budget(buyside_creator_royalty_bp, total_price),
            paid == fees_of_first(budget as int, creators@, i as nat),
            paid <= budget,
            payouts@.len() == i,
            forall|j: int| 0 <= j < i ==> payouts@[j] == creator_fee(budget as int, creators@[j]),
        decreases creators.len() - i,
    {
        let share: u16 = creators[i].share_bp;
        assert(0 <= budget * share <= 0xFFFF_FFFF_FFFF_FFFF * 0xFFFF) by (nonlinear_arith)
            requires
                0 <= budget <= 0xFFFF_FFFF_FFFF_FFFF,
                0 <= share <= 0xFFFF,
        ;
        let fee: u128 = (budget as u128) * (share as u128) / 10_000;
        assert(fee == creator_fee(budget as int, creators@[i as int]));
        if fee > (budget - paid) as u128 {
            proof {
                lemma_fees_of_first_monotone(
                    budget as int,
                    creators@,
                    (i + 1) as nat,
                    creators@.len(),
                );
            }
            return Err(MMMErrorCode::NumericOverflow);
        }
        payouts.push(fee as u64);
        paid = paid + fee as u64;
        i += 1;
    }
    assert(payouts@ =~= Seq::new(
        creators@.len(),
        |i: int| creator_fee(budget as int, creators@[i]) as u64,
    ));
    Ok((payouts, paid))
}

/// The first `k` payouts together.
pub open spec fn payouts_of_first(payouts: Seq<u64>, k: nat) -> int
    decreases k,
{
    if k == 0 {
        0
    } else {
        payouts_of_first(payouts, (k - 1) as nat) + payouts[k - 1]
    }
}

/// Where a royalty is paid, what is paid in all is the sum of the payouts, and
/// each payout is the creator's part of the whole royalty.
pub proof fn lemma_royalty_paid_is_sum(royalty_bp: u16, total_price: u64, creators: Seq<Creator>)
    requires
        creator_royalty(royalty_bp, total_price, creators) is Ok,
    ensures
        ({
            let (payouts, paid) = creator_royalty(royalty_bp, total_price, creators).unwrap();
            &&& payouts.len() == creators.len()
            &&& paid == payouts_of_first(payouts, payouts.len())
            &&& paid <= royalty_budget(royalty_bp, total_price)
            &&& forall|i: int|
                0 <= i < payouts.len() ==> payouts[i] == creator_fee(
                    royalty_budget(royalty_bp, total_price),
                    creators[i],
                )
        }),
{
    let budget = royalty_budget(royalty_bp, total_price);
    let (payouts, paid) = creator_royalty(royalty_bp, total_price, creators).unwrap();
    lemma_basis_points_of_bounds(total_price as int, royalty_bp as int);
    lemma_fees_of_first_monotone(budget, creators, 0, creators.len());
    lemma_payouts_follow_fees(budget, creators, payouts, creators.len());
}

proof fn lemma_payouts_follow_fees(budget: int, creators: Seq<Creator>, payouts: Seq<u64>, k: nat)
    requires
        0 <= budget <= u64::MAX,
        k <= creators.len(),
        payouts.len() == creators.len(),
        fees_of_first(budget, creators, creators.len()) <= budget,
        forall|i: int| 0 <= i < payouts.len() ==> payouts[i] == creator_fee(budget, creators[i]) as u64,
    ensures
        payouts_of_first(payouts, k) == fees_of_first(budget, creators, k),
        forall|i: int| 0 <= i < k ==> payouts[i] == creator_fee(budget, creators[i]),
    decreases k,
{
    if k > 0 {
        lemma_payouts_follow_fees(budget, creators, payouts, (k - 1) as nat);
        lemma_fees_of_first_monotone(budget, creators, (k - 1) as nat, (k - 1) as nat);
        lemma_fees_of_first_monotone(budget, creators, k, creators.len());
        lemma_basis_points_of_bounds(budget, creators[k - 1].share_bp as int);
    }
}

/// A royalty rate of zero pays no creator anything and never fails, whatever
/// the price and the shares.
pub proof fn lemma_no_royalty_rate_pays_nothing(total_price: u64, creators: Seq<Creator>)
    ensures
        creator_royalty(0, total_price, creators) is Ok,
        creator_royalty(0, total_price, creators).unwrap().1 == 0,
        forall|i: int|
            0 <= i < creators.len() ==> creator_royalty(0, total_price, creators).unwrap().0[i] == 0,
{
    lemma_basis_points_of_bounds(total_price as int, 0);
    lemma_nothing_to_share(creators, creators.len());
    assert forall|i: int| 0 <= i < creators.len() implies creator_fee(0, creators[i]) == 0 by {
        let share = creators[i].share_bp as int;
        assert(0 * share / 10_000 == 0) by (nonlinear_arith);
    }
}

proof fn lemma_nothing_to_share(creators: Seq<Creator>, k: nat)
    ensures
        fees_of_first(0, creators, k) == 0,
    decreases k,
{
    if k > 0 {
        lemma_nothing_to_share(creators, (k - 1) as nat);
        let share = creators[k - 1].share_bp as int;
        assert(0 * share / 10_000 == 0) by (nonlinear_arith);
    }
}

} // verus!
