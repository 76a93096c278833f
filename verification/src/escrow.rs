use crate::constants::{BUYSIDE_SOL_ESCROW_ACCOUNT_PREFIX, POOL_PREFIX};
use crate::state::Address;
use vstd::prelude::*;
use vstd::string::StringSliceAdditionalSpecFns;

verus! {

/// Who signs for a movement of assets or funds.
#[derive(Clone, Copy, Debug, PartialEq, Eq, Structural)]
pub enum Authority {
    /// The seller, who signed the fulfilment.
    Seller,
    /// The pool itself, by the authority derived from its identity. It stands
    /// over the pool record and over the pool's asset escrow.
    Pool,
    /// The pool's payment escrow, by the authority derived from the pool's
    /// address. It stands over the funds the pool holds for buying.
    PaymentEscrow,
}

/// A wallet that a settlement pays into.
#[derive(Clone, Copy, Debug, PartialEq, Eq, Structural)]
pub enum Party {
    Seller,
    Owner,
    Referral,
    /// The creator at this position among the asset's creators.
    Creator(usize),
}

/// A holding account for the traded asset.
#[derive(Clone, Copy, Debug, PartialEq, Eq, Structural)]
pub enum AssetAccount {
    /// The seller's own holding, which the asset leaves.
    SellerHolding,
    /// The pool's inventory, for a pool that keeps what it buys.
    PoolEscrow,
    /// The pool owner's holding, for a pool that passes on what it buys.
    OwnerHolding,
}

/// One movement of a settlement. The host carries the movements out in their
/// order, each under the authority that `authority` names, and commits all of
/// them or none.
#[derive(Clone, Copy, Debug, PartialEq, Eq, Structural)]
pub enum Effect {
    /// `amount` units of the asset leave the seller's holding for `into`.
    MoveAsset { into: AssetAccount, amount: u64 },
    /// An emptied asset account is closed, and its deposit goes to the seller.
    CloseAssetAccount { account: AssetAccount },
    /// `lamports` leave the payment escrow for `to`.
    Pay { to: Party, lamports: u64 },
    /// What is left in the payment escrow, `lamports`, goes to the owner of a
    /// pool that is about to be closed.
    SweepEscrow { lamports: u64 },
    /// The pool is closed, and its deposit goes to the owner.
    ClosePool,
}

impl Effect {
    /// Who signs for this movement. Whatever leaves an escrow of the pool
    /// does so under a derived authority, never under a person's signature.
    pub open spec fn spec_authority(self) -> Authority {
        match self {
            Effect::MoveAsset { .. } => Authority::Seller,
            Effect::CloseAssetAccount { account } => match account {
                AssetAccount::PoolEscrow => Authority::Pool,
                _ => Authority::Seller,
            },
            Effect::Pay { .. } => Authority::PaymentEscrow,
            Effect::SweepEscrow { .. } => Authority::PaymentEscrow,
            Effect::ClosePool => Authority::Pool,
        }
    }

    /// Says who signs for this movement.
    #[verifier::when_used_as_spec(spec_authority)]
    pub fn authority(self) -> (a: Authority)
        ensures
            a == self.spec_authority(),
    {
        match self {
            Effect::MoveAsset { .. } => Authority::Seller,
            Effect::CloseAssetAccount { account } => match account {
                AssetAccount::PoolEscrow => Authority::Pool,
                _ => Authority::Seller,
            },
            Effect::Pay { .. } => Authority::PaymentEscrow,
            Effect::SweepEscrow { .. } => Authority::PaymentEscrow,
            Effect::ClosePool => Authority::Pool,
        }
    }

    /// What this movement takes out of the payment escrow, leaving aside what
    /// is swept out when the pool is closed.
    pub open spec fn lamports_paid(self) -> int {
        match self {
            Effect::Pay { lamports, .. } => lamports as int,
            _ => 0,
        }
    }

    /// What this movement pays to `party` out of the payment escrow.
    pub open spec fn lamports_to(self, party: Party) -> int {
        match self {
            Effect::Pay { to, lamports } => if to == party {
                lamports as int
            } else {
                0
            },
            _ => 0,
        }
    }
}

/// What a list of movements takes out of the payment escrow in all, leaving
/// aside what is swept out when the pool is closed.
pub open spec fn paid_out(effects: Seq<Effect>) -> int
    decreases effects.len(),
{
    if effects.len() == 0 {
        0
    } else {
        paid_out(effects.drop_last()) + effects.last().lamports_paid()
    }
}

/// What a list of movements pays to `party` out of the payment escrow.
pub open spec fn received_by(effects: Seq<Effect>, party: Party) -> int
    decreases effects.len(),
{
    if effects.len() == 0 {
        0
    } else {
        received_by(effects.drop_last(), party) + effects.last().lamports_to(party)
    }
}

/// One more movement adds what it pays, in all and to each party.
pub proof fn lemma_effect_pushed(effects: Seq<Effect>, effect: Effect)
    ensures
        paid_out(effects.push(effect)) == paid_out(effects) + effect.lamports_paid(),
        forall|party: Party| #[trigger]
            received_by(effects.push(effect), party) == received_by(effects, party)
                + effect.lamports_to(party),
{
    assert(effects.push(effect).drop_last() =~= effects);
}

/// The seeds by which a pool signs: its prefix, its owner, its uuid and the
/// bump of its derived address.
pub open spec fn pool_signer_seeds(owner: Seq<u8>, uuid: Seq<u8>, bump: u8) -> Seq<Seq<u8>> {
    seq![POOL_PREFIX.spec_bytes(), owner, uuid, seq![bump]]
}

/// The seeds by which a pool's payment escrow signs: its prefix, the pool's
/// address and the bump of its derived address.
pub open spec fn escrow_signer_seeds(pool_key: Seq<u8>, bump: u8) -> Seq<Seq<u8>> {
    seq![BUYSIDE_SOL_ESCROW_ACCOUNT_PREFIX.spec_bytes(), pool_key, seq![bump]]
}

/// The bytes of a seed prefix.
fn prefix_bytes(prefix: &str) -> (v: Vec<u8>)
    ensures
        v@ == prefix.spec_bytes(),
{
    let bytes: &[u8] = prefix.as_bytes();
    let mut v: Vec<u8> = Vec::new();
    let mut i: usize = 0;
    while i < bytes.len()
        invariant
            i <= bytes@.len(),
            v@.len() == i,
            forall|j: int| 0 <= j < i ==> v@[j] == bytes@[j],
        decreases bytes@.len() - i,
    {
        v.push(bytes[i]);
        i += 1;
    }
    assert(v@ =~= bytes@);
    v
}

/// Builds the seeds by which the pool of `owner` and `uuid` signs.
pub fn make_pool_signer_seeds(owner: &Address, uuid: &Address, bump: u8) -> (seeds: Vec<Vec<u8>>)
    ensures
        seeds.deep_view() == pool_signer_seeds(owner@, uuid@, bump),
{
    let mut last: Vec<u8> = Vec::new();
    last.push(bump);
    let mut seeds: Vec<Vec<u8>> = Vec::new();
    seeds.push(prefix_bytes(POOL_PREFIX));
    seeds.push(owner.to_vec());
    seeds.push(uuid.to_vec());
    seeds.push(last);
    assert(seeds.deep_view() =~~= pool_signer_seeds(owner@, uuid@, bump));
    seeds
}

/// Builds the seeds by which the payment escrow of the pool at `pool_key`
/// signs.
pub fn make_escrow_signer_seeds(pool_key: &Address, bump: u8) -> (seeds: Vec<Vec<u8>>)
    ensures
        seeds.deep_view() == escrow_signer_seeds(pool_key@, bump),
{
    let mut last: Vec<u8> = Vec::new();
    last.push(bump);
    let mut seeds: Vec<Vec<u8>> = Vec::new();
    seeds.push(prefix_bytes(BUYSIDE_SOL_ESCROW_ACCOUNT_PREFIX));
    seeds.push(pool_key.to_vec());
    seeds.push(last);
    assert(seeds.deep_view() =~~= escrow_signer_seeds(pool_key@, bump));
    seeds
}

} // verus!
