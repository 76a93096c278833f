use vstd::prelude::*;

verus! {

/// A 32-byte account address. The library only ever compares addresses.
#[derive(Clone, Copy, Debug, PartialEq, Eq)]
pub struct Address {
    pub bytes: [u8; 32],
}

impl View for Address {
    type V = Seq<u8>;

    open spec fn view(&self) -> Seq<u8> {
        self.bytes@
    }
}

impl Address {
    /// The address whose bytes are all zero. A pool whose payment mint is this
    /// address trades in the native currency.
    pub open spec fn spec_native() -> Seq<u8> {
        Seq::new(32, |i: int| 0u8)
    }

    pub fn new(bytes: [u8; 32]) -> (a: Address)
        ensures
            a@ == bytes@,
    {
        Address { bytes }
    }

    /// Byte-wise equality of two addresses.
    pub fn same(&self, other: &Address) -> (r: bool)
        ensures
            r == (self@ == other@),
    {
        let mut i: usize = 0;
        while i < 32
            invariant
                i <= 32,
                forall|j: int| 0 <= j < i ==> self.bytes@[j] == other.bytes@[j],
            decreases 32 - i,
        {
            if self.bytes[i] != other.bytes[i] {
                return false;
            }
            i += 1;
        }
        assert(self@ =~= other@);
        true
    }

    /// The 32 bytes of the address, as a seed for a derived authority.
    pub fn to_vec(&self) -> (v: Vec<u8>)
        ensures
            v@ == self@,
    {
        let mut v: Vec<u8> = Vec::new();
        let mut i: usize = 0;
        while i < 32
            invariant
                i <= 32,
                v@.len() == i,
                forall|j: int| 0 <= j < i ==> v@[j] == self.bytes@[j],
            decreases 32 - i,
        {
            v.push(self.bytes[i]);
            i += 1;
        }
        assert(v@ =~= self@);
        v
    }

    /// Whether this is the all-zero address.
    pub fn is_native(&self) -> (r: bool)
        ensures
            r == (self@ == Address::spec_native()),
    {
        let mut i: usize = 0;
        while i < 32
            invariant
                i <= 32,
                forall|j: int| 0 <= j < i ==> self.bytes@[j] == 0u8,
            decreases 32 - i,
        {
            if self.bytes[i] != 0 {
                assert(Address::spec_native()[i as int] == 0u8);
                return false;
            }
            i += 1;
        }
        assert(self@ =~= Address::spec_native());
        true
    }
}

/// The shape of a pool's pricing curve.
#[derive(Clone, Copy, Debug, PartialEq, Eq, Structural)]
pub enum CurveKind {
    /// Each unit moves the quote by `curve_delta` currency units.
    Linear,
    /// Each unit moves the quote by `curve_delta` basis points of itself.
    Exponential,
}

/// A liquidity pool: who it belongs to, how it prices, what it charges and
/// what it has done so far.
///
/// The allowlist criteria and the address-derivation material stay with the
/// hosting program; this record holds what pricing, fees and settlement read.
#[derive(Clone, Copy, Debug, PartialEq, Eq)]
pub struct Pool {
    pub owner: Address,
    pub cosigner: Address,
    pub referral: Address,
    /// Tells apart the pools of one owner.
    pub uuid: Address,
    /// The all-zero address for a pool that trades in the native currency.
    pub payment_mint: Address,
    /// The current quote for one unit, in the smallest currency unit.
    pub spot_price: u64,
    pub curve_type: CurveKind,
    pub curve_delta: u64,
    /// Liquidity-provider fee, in basis points of the trade price.
    pub lp_fee_bp: u16,
    /// Referral fee, in basis points of the trade price.
    pub referral_bp: u16,
    /// Creator royalty paid when the pool buys, in basis points of the trade price.
    pub buyside_creator_royalty_bp: u16,
    /// Whether assets the pool buys stay in its inventory for resale.
    pub reinvest_fulfill_buy: bool,
    /// 0 for a pool that never expires, else the time after which it no longer trades.
    pub expiry: i64,
    /// Units the pool has absorbed so far.
    pub sellside_orders_count: u64,
    /// Liquidity-provider fees accrued to the owner so far.
    pub lp_fee_earned: u64,
}

/// An account that holds native currency, in lamports.
#[derive(Clone, Copy, Debug, PartialEq, Eq)]
pub struct SystemAccount {
    pub key: Address,
    pub lamports: u64,
}

/// An account that holds units of one asset.
#[derive(Clone, Copy, Debug, PartialEq, Eq, Structural)]
pub struct TokenAccount {
    pub amount: u64,
}

} // verus!
