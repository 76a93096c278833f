use mmm::errors::MMMErrorCode;
use mmm::fees::{get_sol_lp_fee, get_sol_referral_fee};
use mmm::state::{Address, CurveKind, Pool};

fn fee_pool(lp_fee_bp: u16, referral_bp: u16) -> Pool {
    Pool {
        owner: Address::new([1; 32]),
        cosigner: Address::new([2; 32]),
        referral: Address::new([3; 32]),
        uuid: Address::new([4; 32]),
        payment_mint: Address::new([0; 32]),
        spot_price: 1_000_000,
        curve_type: CurveKind::Linear,
        curve_delta: 0,
        lp_fee_bp,
        referral_bp,
        buyside_creator_royalty_bp: 0,
        reinvest_fulfill_buy: true,
        expiry: 0,
        sellside_orders_count: 0,
        lp_fee_earned: 0,
    }
}

#[test]
fn lp_fee_is_the_rate_applied_to_the_price() {
    let pool = fee_pool(200, 100);
    assert_eq!(get_sol_lp_fee(&pool, 5_000_000, 1_000_000), Ok(20_000));
    assert_eq!(get_sol_lp_fee(&pool, 5_000_000, 12_345), Ok(246));
}

#[test]
fn lp_fee_is_cut_down_to_the_escrow_balance_without_error() {
    let pool = fee_pool(200, 100);
    assert_eq!(get_sol_lp_fee(&pool, 19_999, 1_000_000), Ok(19_999));
    assert_eq!(get_sol_lp_fee(&pool, 20_000, 1_000_000), Ok(20_000));
    assert_eq!(get_sol_lp_fee(&pool, 0, 1_000_000), Ok(0));
    let greedy = fee_pool(u16::MAX, 0);
    assert_eq!(get_sol_lp_fee(&greedy, u64::MAX, u64::MAX), Ok(u64::MAX));
}

#[test]
fn referral_fee_is_the_rate_applied_to_the_price() {
    let pool = fee_pool(200, 100);
    assert_eq!(get_sol_referral_fee(&pool, 1_000_000), Ok(10_000));
    assert_eq!(get_sol_referral_fee(&pool, 9_999), Ok(99));
    assert_eq!(get_sol_referral_fee(&pool, 99), Ok(0));
}

#[test]
fn zero_rates_give_zero_fees() {
    let pool = fee_pool(0, 0);
    assert_eq!(get_sol_lp_fee(&pool, 5_000_000, u64::MAX), Ok(0));
    assert_eq!(get_sol_referral_fee(&pool, u64::MAX), Ok(0));
}

#[test]
fn referral_fee_beyond_64_bits_is_refused() {
    let pool = fee_pool(0, 10_001);
    assert_eq!(get_sol_referral_fee(&pool, u64::MAX), Err(MMMErrorCode::NumericOverflow));
    let whole = fee_pool(0, 10_000);
    assert_eq!(get_sol_referral_fee(&whole, u64::MAX), Ok(u64::MAX));
}

#[test]
fn fees_within_one_whole_never_exceed_the_price() {
    for (lp_fee_bp, referral_bp) in [(0u16, 10_000u16), (10_000, 0), (2_500, 7_500), (1, 1)] {
        let pool = fee_pool(lp_fee_bp, referral_bp);
        for total in [0u64, 1, 3, 9_999, 10_000, 1_000_003, u64::MAX] {
            let lp = get_sol_lp_fee(&pool, u64::MAX, total).unwrap();
            let referral = get_sol_referral_fee(&pool, total).unwrap();
            assert!(lp as u128 + referral as u128 <= total as u128);
        }
    }
}
