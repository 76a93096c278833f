use crate::constants::BASIS_POINTS;
use crate::errors::MMMErrorCode;
use crate::state::{CurveKind, Pool};
use vstd::prelude::*;

verus! {

/// The quote of a curve that started at `spot` once `k` units have traded.
///
/// A pool that absorbs units lowers its quote with each one, a pool that
/// releases units raises it. A linear curve moves by `delta` per unit; an
/// exponential curve scales by `delta` basis points per unit, rounding down.
pub open spec fn spot_after(kind: CurveKind, spot: int, delta: int, absorbing: bool, k: nat) -> int
    decreases k,
{
    match kind {
        CurveKind::Linear => if absorbing {
            spot - k * delta
        } else {
            spot + k * delta
        },
        CurveKind::Exponential => if k == 0 {
            spot
        } else {
            let prev = spot_after(kind, spot, delta, absorbing, (k - 1) as nat);
            if absorbing {
                prev * BASIS_POINTS as int / (BASIS_POINTS as int + delta)
            } else {
                prev * (BASIS_POINTS as int + delta) / BASIS_POINTS as int
            }
        },
    }
}

/// What unit number `i` (counted from 0) of a trade costs. A unit the pool
/// absorbs is paid at the quote before it moves; a unit the pool releases at
/// the quote after it has moved.
pub open spec fn unit_price(kind: CurveKind, spot: int, delta: int, absorbing: bool, i: nat) -> int {
    if absorbing {
        spot_after(kind, spot, delta, absorbing, i)
    } else {
        spot_after(kind, spot, delta, absorbing, i + 1)
    }
}

/// The sum of the first `n` unit prices.
pub open spec fn total_price(kind: CurveKind, spot: int, delta: int, absorbing: bool, n: nat) -> int
    decreases n,
{
    if n == 0 {
        0
    } else {
        total_price(kind, spot, delta, absorbing, (n - 1) as nat) + unit_price(
            kind,
            spot,
            delta,
            absorbing,
            (n - 1) as nat,
        )
    }
}

/// What a trade of `n` units against `pool` costs, and the pool's quote after
/// it: `Ok((total, next))` for a trade of at least one unit whose total and
/// next quote both fit in 64 bits and whose next quote is not negative, and
/// `NumericOverflow` for every other trade.
pub open spec fn quote(pool: Pool, n: u64, absorbing: bool) -> Result<(u64, u64), MMMErrorCode> {
    let total = total_price(
        pool.curve_type,
        pool.spot_price as int,
        pool.curve_delta as int,
        absorbing,
        n as nat,
    );
    let next = spot_after(
        pool.curve_type,
        pool.spot_price as int,
        pool.curve_delta as int,
        absorbing,
        n as nat,
    );
    if n > 0 && 0 <= next <= u64::MAX && total <= u64::MAX {
        Ok((total as u64, next as u64))
    } else {
        Err(MMMErrorCode::NumericOverflow)
    }
}

/// Twice the total of a linear trade, in closed form.
pub proof fn lemma_linear_total(spot: int, delta: int, absorbing: bool, n: nat)
    ensures
        absorbing ==> 2 * total_price(CurveKind::Linear, spot, delta, absorbing, n) == 2 * (n * spot)
            - (n * delta) * (n - 1),
        !absorbing ==> 2 * total_price(CurveKind::Linear, spot, delta, absorbing, n) == 2 * (n * spot)
            + (n * delta) * (n + 1),
    decreases n,
{
    if n == 0 {
        assert(n * spot == 0 && (n * delta) * (n - 1) == 0 && (n * delta) * (n + 1) == 0)
            by (nonlinear_arith)
            requires
                n == 0,
        ;
    } else {
        let m = (n - 1) as nat;
        lemma_linear_total(spot, delta, absorbing, m);
        if absorbing {
            assert(2 * (m * spot) - (m * delta) * (m - 1) + 2 * (spot - m * delta) == 2 * (n * spot)
                - (n * delta) * (n - 1)) by (nonlinear_arith)
                requires
                    m == n - 1,
            ;
        } else {
            assert(2 * (m * spot) + (m * delta) * (m + 1) + 2 * (spot + (m + 1) * delta) == 2 * (n
                * spot) + (n * delta) * (n + 1)) by (nonlinear_arith)
                requires
                    m == n - 1,
            ;
        }
    }
}

/// With a quote and a step that are not negative, no quote along an
/// exponential curve is negative, and each step moves the quote in the trade's
/// direction or leaves it.
pub proof fn lemma_exponential_step(spot: int, delta: int, absorbing: bool, k: nat)
    requires
        0 <= spot,
        0 <= delta,
    ensures
        0 <= spot_after(CurveKind::Exponential, spot, delta, absorbing, k),
        absorbing ==> spot_after(CurveKind::Exponential, spot, delta, absorbing, k + 1) <= spot_after(
            CurveKind::Exponential,
            spot,
            delta,
            absorbing,
            k,
        ),
        !absorbing ==> spot_after(CurveKind::Exponential, spot, delta, absorbing, k + 1) >= spot_after(
            CurveKind::Exponential,
            spot,
            delta,
            absorbing,
            k,
        ),
    decreases k,
{
    if k > 0 {
        lemma_exponential_step(spot, delta, absorbing, (k - 1) as nat);
    }
    let c = spot_after(CurveKind::Exponential, spot, delta, absorbing, k);
    assert(0 <= c) by {
        if k > 0 {
            let prev = spot_after(CurveKind::Exponential, spot, delta, absorbing, (k - 1) as nat);
            assert(0 <= prev * 10_000 / (10_000 + delta)) by (nonlinear_arith)
                requires
                    0 <= prev,
                    0 <= delta,
            ;
            assert(0 <= prev * (10_000 + delta) / 10_000) by (nonlinear_arith)
                requires
                    0 <= prev,
                    0 <= delta,
            ;
        }
    }
    assert(c * 10_000 / (10_000 + delta) <= c) by (nonlinear_arith)
        requires
            0 <= c,
            0 <= delta,
    ;
    assert(c * (10_000 + delta) / 10_000 >= c) by (nonlinear_arith)
        requires
            0 <= c,
            0 <= delta,
    ;
}

/// Along an exponential curve a later quote lies in the trade's direction from
/// an earlier one, or equals it.
pub proof fn lemma_exponential_monotone(spot: int, delta: int, absorbing: bool, k: nat, m: nat)
    requires
        0 <= spot,
        0 <= delta,
        k <= m,
    ensures
        absorbing ==> spot_after(CurveKind::Exponential, spot, delta, absorbing, m) <= spot_after(
            CurveKind::Exponential,
            spot,
            delta,
            absorbing,
            k,
        ),
        !absorbing ==> spot_after(CurveKind::Exponential, spot, delta, absorbing, m) >= spot_after(
            CurveKind::Exponential,
            spot,
            delta,
            absorbing,
            k,
        ),
    decreases m - k,
{
    if k < m {
        lemma_exponential_monotone(spot, delta, absorbing, k, (m - 1) as nat);
        lemma_exponential_step(spot, delta, absorbing, (m - 1) as nat);
    }
}

/// The running total of an exponential trade never shrinks as units are added.
pub proof fn lemma_exponential_total_monotone(
    spot: int,
    delta: int,
    absorbing: bool,
    k: nat,
    m: nat,
)
    requires
        0 <= spot,
        0 <= delta,
        k <= m,
    ensures
        0 <= total_price(CurveKind::Exponential, spot, delta, absorbing, k) <= total_price(
            CurveKind::Exponential,
            spot,
            delta,
            absorbing,
            m,
        ),
    decreases m,
{
    if m == 0 {
    } else if k == m {
        lemma_exponential_total_monotone(spot, delta, absorbing, (m - 1) as nat, (m - 1) as nat);
        lemma_exponential_step(spot, delta, absorbing, (m - 1) as nat);
        lemma_exponential_step(spot, delta, absorbing, m);
    } else {
        lemma_exponential_total_monotone(spot, delta, absorbing, k, (m - 1) as nat);
        lemma_exponential_step(spot, delta, absorbing, (m - 1) as nat);
        lemma_exponential_step(spot, delta, absorbing, m);
    }
}

/// Once one step leaves the quote of an exponential curve where it was, every
/// later step does: the quote stays, and each further unit costs that quote.
pub proof fn lemma_exponential_settled(spot: int, delta: int, absorbing: bool, k: nat, m: nat)
    requires
        spot_after(CurveKind::Exponential, spot, delta, absorbing, k + 1) == spot_after(
            CurveKind::Exponential,
            spot,
            delta,
            absorbing,
            k,
        ),
    ensures
        spot_after(CurveKind::Exponential, spot, delta, absorbing, k + m) == spot_after(
            CurveKind::Exponential,
            spot,
            delta,
            absorbing,
            k,
        ),
        total_price(CurveKind::Exponential, spot, delta, absorbing, k + m) == total_price(
            CurveKind::Exponential,
            spot,
            delta,
            absorbing,
            k,
        ) + m * spot_after(CurveKind::Exponential, spot, delta, absorbing, k),
    decreases m,
{
    let settled = spot_after(CurveKind::Exponential, spot, delta, absorbing, k);
    if m == 0 {
        assert(m * settled == 0) by (nonlinear_arith)
            requires
                m == 0,
        ;
    } else {
        let j = (m - 1) as nat;
        lemma_exponential_settled(spot, delta, absorbing, k, j);
        assert(spot_after(CurveKind::Exponential, spot, delta, absorbing, k + j) == settled);
        assert(k + m - 1 == k + j);
        assert(spot_after(CurveKind::Exponential, spot, delta, absorbing, k + m) == spot_after(
            CurveKind::Exponential,
            spot,
            delta,
            absorbing,
            k + 1,
        ));
        assert(unit_price(CurveKind::Exponential, spot, delta, absorbing, k + j) == settled);
        assert(m * settled == j * settled + settled) by (nonlinear_arith)
            requires
                m == j + 1,
        ;
    }
}

/// Prices a trade of `n` units along a linear curve.
fn quote_linear(spot: u64, delta: u64, n: u64, absorbing: bool) -> (r: Result<(u64, u64), MMMErrorCode>)
    requires
        n > 0,
    ensures
        ({
            let total = total_price(CurveKind::Linear, spot as int, delta as int, absorbing, n as nat);
            let next = spot_after(CurveKind::Linear, spot as int, delta as int, absorbing, n as nat);
            r == if 0 <= next <= u64::MAX && total <= u64::MAX {
                Ok::<(u64, u64), MMMErrorCode>((total as u64, next as u64))
            } else {
                Err(MMMErrorCode::NumericOverflow)
            }
        }),
{
    proof {
        lemma_linear_total(spot as int, delta as int, absorbing, n as nat);
    }
    assert(0 <= n * delta <= 0xFFFF_FFFF_FFFF_FFFF * 0xFFFF_FFFF_FFFF_FFFF) by (nonlinear_arith)
        requires
            0 <= n <= 0xFFFF_FFFF_FFFF_FFFF,
            0 <= delta <= 0xFFFF_FFFF_FFFF_FFFF,
    ;
    assert(0 <= n * spot <= 0xFFFF_FFFF_FFFF_FFFF * 0xFFFF_FFFF_FFFF_FFFF) by (nonlinear_arith)
        requires
            0 <= n <= 0xFFFF_FFFF_FFFF_FFFF,
            0 <= spot <= 0xFFFF_FFFF_FFFF_FFFF,
    ;
    let movement: u128 = (n as u128) * (delta as u128);
    let gross: u128 = (n as u128) * (spot as u128);
    if absorbing {
        if movement > spot as u128 {
            return Err(MMMErrorCode::NumericOverflow);
        }
        let next: u64 = spot - (movement as u64);
        assert(0 <= movement * (n - 1) <= gross) by (nonlinear_arith)
            requires
                0 <= movement <= spot,
                1 <= n,
                gross == n * spot,
        ;
        let rebate: u128 = movement * ((n - 1) as u128) / 2;
        let total: u128 = gross - rebate;
        if total > u64::MAX as u128 {
            return Err(MMMErrorCode::NumericOverflow);
        }
        Ok((total as u64, next))
    } else {
        let next: u128 = spot as u128 + movement;
        if next > u64::MAX as u128 {
            return Err(MMMErrorCode::NumericOverflow);
        }
        assert(0 <= movement * (n + 1) <= 0xFFFF_FFFF_FFFF_FFFF * 0x1_0000_0000_0000_0000)
            by (nonlinear_arith)
            requires
                0 <= movement <= 0xFFFF_FFFF_FFFF_FFFF,
                0 <= n <= 0xFFFF_FFFF_FFFF_FFFF,
        ;
        if gross > u64::MAX as u128 {
            return Err(MMMErrorCode::NumericOverflow);
        }
        let premium: u128 = movement * (n as u128 + 1) / 2;
        let total: u128 = gross + premium;
        if total > u64::MAX as u128 {
            return Err(MMMErrorCode::NumericOverflow);
        }
        Ok((total as u64, next as u64))
    }
}

/// Prices a trade of `n` units along an exponential curve: one unit at a
/// time while the quote moves, and the rest at once when it has stopped.
fn quote_exponential(spot: u64, delta: u64, n: u64, absorbing: bool) -> (r: Result<
    (u64, u64),
    MMMErrorCode,
>)
    requires
        n > 0,
    ensures
        ({
            let total = total_price(
                CurveKind::Exponential,
                spot as int,
                delta as int,
                absorbing,
                n as nat,
            );
            let next = spot_after(
                CurveKind::Exponential,
                spot as int,
                delta as int,
                absorbing,
                n as nat,
            );
            r == if 0 <= next <= u64::MAX && total <= u64::MAX {
                Ok::<(u64, u64), MMMErrorCode>((total as u64, next as u64))
            } else {
                Err(MMMErrorCode::NumericOverflow)
            }
        }),
{
    let ghost kind = CurveKind::Exponential;
    let mut total: u64 = 0;
    let mut current: u64 = spot;
    let mut k: u64 = 0;
    while k < n
        invariant
            k <= n,
            kind == CurveKind::Exponential,
            current == spot_after(kind, spot as int, delta as int, absorbing, k as nat),
            total == total_price(kind, spot as int, delta as int, absorbing, k as nat),
        decreases n - k,
    {
        proof {
            lemma_exponential_step(spot as int, delta as int, absorbing, k as nat);
            lemma_exponential_step(spot as int, delta as int, absorbing, (k + 1) as nat);
            lemma_exponential_monotone(spot as int, delta as int, absorbing, (k + 1) as nat, n as nat);
            lemma_exponential_total_monotone(
                spot as int,
                delta as int,
                absorbing,
                (k + 1) as nat,
                n as nat,
            );
        }
        let scaled: u128 = if absorbing {
            assert(current * 10_000 / (10_000 + delta) == spot_after(
                kind,
                spot as int,
                delta as int,
                absorbing,
                (k + 1) as nat,
            ));
            (current as u128) * (BASIS_POINTS as u128) / (BASIS_POINTS as u128 + delta as u128)
        } else {
            match (current as u128).checked_mul(BASIS_POINTS as u128 + delta as u128) {
                Some(product) => product / (BASIS_POINTS as u128),
                None => {
                    return Err(MMMErrorCode::NumericOverflow);
                },
            }
        };
        assert(scaled == spot_after(kind, spot as int, delta as int, absorbing, (k + 1) as nat));
        if scaled > u64::MAX as u128 {
            return Err(MMMErrorCode::NumericOverflow);
        }
        if scaled == current as u128 {
            // the quote has stopped moving: every unit left costs the same
            proof {
                lemma_exponential_settled(
                    spot as int,
                    delta as int,
                    absorbing,
                    k as nat,
                    (n - k) as nat,
                );
            }
            assert(0 <= (n - k) * current <= 0xFFFF_FFFF_FFFF_FFFF * 0xFFFF_FFFF_FFFF_FFFF)
                by (nonlinear_arith)
                requires
                    0 <= n - k <= 0xFFFF_FFFF_FFFF_FFFF,
                    0 <= current <= 0xFFFF_FFFF_FFFF_FFFF,
            ;
            let sum: u128 = total as u128 + ((n - k) as u128) * (current as u128);
            if sum > u64::MAX as u128 {
                return Err(MMMErrorCode::NumericOverflow);
            }
            return Ok((sum as u64, current));
        }
        let unit: u64 = if absorbing {
            current
        } else {
            scaled as u64
        };
        assert(unit == unit_price(kind, spot as int, delta as int, absorbing, k as nat));
        total = match total.checked_add(unit) {
            Some(sum) => sum,
            None => {
                return Err(MMMErrorCode::NumericOverflow);
            },
        };
        current = scaled as u64;
        k += 1;
    }
    Ok((total, current))
}

/// Prices a trade of `n` units against `pool`: what the trade costs in all,
/// and the quote the pool moves to. `fulfill_buy` says that the pool absorbs
/// the units, so that its quote falls; otherwise the pool releases them and
/// its quote rises first.
///
/// A trade of no units is refused, and so is one whose total or next quote
/// leaves the 64-bit range or whose next quote would be negative.
pub fn get_sol_total_price_and_next_price(pool: &Pool, n: u64, fulfill_buy: bool) -> (r: Result<
    (u64, u64),
    MMMErrorCode,
>)
    ensures
        r == quote(*pool, n, fulfill_buy),
{
    if n == 0 {
        return Err(MMMErrorCode::NumericOverflow);
    }
    match pool.curve_type {
        CurveKind::Linear => quote_linear(pool.spot_price, pool.curve_delta, n, fulfill_buy),
        CurveKind::Exponential => quote_exponential(
            pool.spot_price,
            pool.curve_delta,
            n,
            fulfill_buy,
        ),
    }
}

} // verus!
