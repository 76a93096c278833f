use vstd::prelude::*;

verus! {

/// Every way a fulfilment can be refused. Each refusal aborts the whole
/// fulfilment: no pool field, balance or asset moves.
#[derive(Clone, Copy, Debug, PartialEq, Eq, Structural)]
pub enum MMMErrorCode {
    /// The owner account handed in is not the pool's owner.
    InvalidOwner,
    /// The referral account handed in is not the pool's referral.
    InvalidReferral,
    /// The cosigner handed in is not the pool's cosigner.
    InvalidCosigner,
    /// The pool is not denominated in the native currency.
    InvalidPaymentMint,
    /// The pool's expiry lies in the past.
    Expired,
    /// The asset does not qualify for the pool.
    InvalidAllowlist,
    /// Some checked arithmetic step left the range of its type.
    NumericOverflow,
    /// The seller's proceeds after fees fall below the requested minimum.
    InvalidRequestedPrice,
}

} // verus!
