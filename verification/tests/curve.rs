use mmm::curve::get_sol_total_price_and_next_price;
use mmm::errors::MMMErrorCode;
use mmm::state::{Address, CurveKind, Pool};

fn curve_pool(curve_type: CurveKind, spot_price: u64, curve_delta: u64) -> Pool {
    Pool {
        owner: Address::new([1; 32]),
        cosigner: Address::new([2; 32]),
        referral: Address::new([3; 32]),
        uuid: Address::new([4; 32]),
        payment_mint: Address::new([0; 32]),
        spot_price,
        curve_type,
        curve_delta,
        lp_fee_bp: 0,
        referral_bp: 0,
        buyside_creator_royalty_bp: 0,
        reinvest_fulfill_buy: true,
        expiry: 0,
        sellside_orders_count: 0,
        lp_fee_earned: 0,
    }
}

#[test]
fn linear_curve_falls_as_the_pool_absorbs() {
    let pool = curve_pool(CurveKind::Linear, 100, 10);
    // 100 + 90 + 80
    assert_eq!(get_sol_total_price_and_next_price(&pool, 3, true), Ok((270, 70)));
    assert_eq!(get_sol_total_price_and_next_price(&pool, 1, true), Ok((100, 90)));
}

#[test]
fn linear_curve_rises_as_the_pool_releases() {
    let pool = curve_pool(CurveKind::Linear, 100, 10);
    // 110 + 120 + 130
    assert_eq!(get_sol_total_price_and_next_price(&pool, 3, false), Ok((360, 130)));
    assert_eq!(get_sol_total_price_and_next_price(&pool, 1, false), Ok((110, 110)));
}

#[test]
fn linear_curve_can_fall_to_zero_but_not_below() {
    let pool = curve_pool(CurveKind::Linear, 30, 10);
    // 30 + 20 + 10
    assert_eq!(get_sol_total_price_and_next_price(&pool, 3, true), Ok((60, 0)));
    assert_eq!(
        get_sol_total_price_and_next_price(&pool, 4, true),
        Err(MMMErrorCode::NumericOverflow)
    );
}

#[test]
fn flat_curve_charges_the_quote_for_each_unit() {
    let pool = curve_pool(CurveKind::Linear, 1_000_000, 0);
    assert_eq!(get_sol_total_price_and_next_price(&pool, 1, true), Ok((1_000_000, 1_000_000)));
    assert_eq!(get_sol_total_price_and_next_price(&pool, 7, true), Ok((7_000_000, 1_000_000)));
    assert_eq!(get_sol_total_price_and_next_price(&pool, 7, false), Ok((7_000_000, 1_000_000)));
}

#[test]
fn exponential_curve_falls_as_the_pool_absorbs() {
    let pool = curve_pool(CurveKind::Exponential, 10_000, 100);
    // 10_000, then 10_000 * 10_000 / 10_100 = 9_900, then 9_900 * 10_000 / 10_100 = 9_801
    assert_eq!(get_sol_total_price_and_next_price(&pool, 1, true), Ok((10_000, 9_900)));
    assert_eq!(get_sol_total_price_and_next_price(&pool, 2, true), Ok((19_900, 9_801)));
}

#[test]
fn exponential_curve_rises_as_the_pool_releases() {
    let pool = curve_pool(CurveKind::Exponential, 10_000, 100);
    // 10_100, then 10_201
    assert_eq!(get_sol_total_price_and_next_price(&pool, 1, false), Ok((10_100, 10_100)));
    assert_eq!(get_sol_total_price_and_next_price(&pool, 2, false), Ok((20_301, 10_201)));
}

#[test]
fn exponential_curve_rounds_each_step_down() {
    let pool = curve_pool(CurveKind::Exponential, 3, 5_000);
    // 3, then 3 * 10_000 / 15_000 = 2, then 2 * 10_000 / 15_000 = 1, then 0
    assert_eq!(get_sol_total_price_and_next_price(&pool, 4, true), Ok((6, 0)));
    // 3 * 15_000 / 10_000 = 4, then 6, then 9
    assert_eq!(get_sol_total_price_and_next_price(&pool, 3, false), Ok((19, 9)));
}

#[test]
fn trade_of_no_units_is_refused() {
    for curve_type in [CurveKind::Linear, CurveKind::Exponential] {
        let pool = curve_pool(curve_type, 100, 10);
        assert_eq!(
            get_sol_total_price_and_next_price(&pool, 0, true),
            Err(MMMErrorCode::NumericOverflow)
        );
        assert_eq!(
            get_sol_total_price_and_next_price(&pool, 0, false),
            Err(MMMErrorCode::NumericOverflow)
        );
    }
}

#[test]
fn total_beyond_64_bits_is_refused() {
    let linear = curve_pool(CurveKind::Linear, u64::MAX, 0);
    assert_eq!(get_sol_total_price_and_next_price(&linear, 1, true), Ok((u64::MAX, u64::MAX)));
    assert_eq!(
        get_sol_total_price_and_next_price(&linear, 2, true),
        Err(MMMErrorCode::NumericOverflow)
    );
    assert_eq!(
        get_sol_total_price_and_next_price(&linear, 2, false),
        Err(MMMErrorCode::NumericOverflow)
    );
    let exponential = curve_pool(CurveKind::Exponential, u64::MAX, 0);
    assert_eq!(
        get_sol_total_price_and_next_price(&exponential, 1, true),
        Ok((u64::MAX, u64::MAX))
    );
    assert_eq!(
        get_sol_total_price_and_next_price(&exponential, 2, true),
        Err(MMMErrorCode::NumericOverflow)
    );
}

#[test]
fn next_quote_beyond_64_bits_is_refused() {
    let linear = curve_pool(CurveKind::Linear, u64::MAX - 5, 3);
    assert_eq!(
        get_sol_total_price_and_next_price(&linear, 1, false),
        Ok((u64::MAX - 2, u64::MAX - 2))
    );
    assert_eq!(
        get_sol_total_price_and_next_price(&linear, 2, false),
        Err(MMMErrorCode::NumericOverflow)
    );
    let exponential = curve_pool(CurveKind::Exponential, u64::MAX, u64::MAX);
    assert_eq!(
        get_sol_total_price_and_next_price(&exponential, 1, false),
        Err(MMMErrorCode::NumericOverflow)
    );
    let steep = curve_pool(CurveKind::Linear, 10, u64::MAX);
    assert_eq!(
        get_sol_total_price_and_next_price(&steep, u64::MAX, false),
        Err(MMMErrorCode::NumericOverflow)
    );
    assert_eq!(
        get_sol_total_price_and_next_price(&steep, u64::MAX, true),
        Err(MMMErrorCode::NumericOverflow)
    );
}

#[test]
fn large_linear_trade_is_priced_in_closed_form() {
    let pool = curve_pool(CurveKind::Linear, 4_000_000_000, 1);
    // 4_000_000_000 * 4_000_000_000 - (4_000_000_000 * 3_999_999_999) / 2
    assert_eq!(
        get_sol_total_price_and_next_price(&pool, 4_000_000_000, true),
        Ok((8_000_000_002_000_000_000, 0))
    );
}

#[test]
fn quote_is_the_same_each_time() {
    let pool = curve_pool(CurveKind::Exponential, 123_456_789, 250);
    let first = get_sol_total_price_and_next_price(&pool, 5, true);
    let second = get_sol_total_price_and_next_price(&pool, 5, true);
    assert!(first.is_ok());
    assert_eq!(first, second);
}

#[test]
fn priced_trade_costs_something_and_moves_the_quote_its_way() {
    for curve_type in [CurveKind::Linear, CurveKind::Exponential] {
        for n in 1..6u64 {
            let pool = curve_pool(curve_type, 5_000, 37);
            let (total, next) = get_sol_total_price_and_next_price(&pool, n, true).unwrap();
            assert!(total > 0);
            assert!(next <= pool.spot_price);
            let (total, next) = get_sol_total_price_and_next_price(&pool, n, false).unwrap();
            assert!(total > 0);
            assert!(next >= pool.spot_price);
        }
    }
}

#[test]
fn pool_that_quotes_nothing_absorbs_for_nothing() {
    let pool = curve_pool(CurveKind::Linear, 0, 0);
    assert_eq!(get_sol_total_price_and_next_price(&pool, 3, true), Ok((0, 0)));
}

#[test]
fn settled_exponential_quote_prices_the_rest_at_once() {
    let flat = curve_pool(CurveKind::Exponential, 3, 0);
    assert_eq!(
        get_sol_total_price_and_next_price(&flat, 1_000_000_000_000, true),
        Ok((3_000_000_000_000, 3))
    );
    assert_eq!(
        get_sol_total_price_and_next_price(&flat, u64::MAX, false),
        Err(MMMErrorCode::NumericOverflow)
    );
    // 3 + 2 + 1, and nothing for every unit after
    let fading = curve_pool(CurveKind::Exponential, 3, 5_000);
    assert_eq!(get_sol_total_price_and_next_price(&fading, u64::MAX, true), Ok((6, 0)));
    // 1 * 10_001 / 10_000 rounds down to 1 again
    let stuck = curve_pool(CurveKind::Exponential, 1, 1);
    assert_eq!(
        get_sol_total_price_and_next_price(&stuck, 1_000_000_000_000, false),
        Ok((1_000_000_000_000, 1))
    );
    let nothing = curve_pool(CurveKind::Exponential, 0, 700);
    assert_eq!(get_sol_total_price_and_next_price(&nothing, u64::MAX, false), Ok((0, 0)));
}
