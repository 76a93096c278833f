use mmm::errors::MMMErrorCode;
use mmm::escrow::{Effect, Party};
use mmm::lifecycle::try_close_pool;
use mmm::state::{Address, CurveKind, Pool};

fn lifecycle_pool(reinvest_fulfill_buy: bool) -> Pool {
    Pool {
        owner: Address::new([1; 32]),
        cosigner: Address::new([2; 32]),
        referral: Address::new([3; 32]),
        uuid: Address::new([4; 32]),
        payment_mint: Address::new([0; 32]),
        spot_price: 1_000,
        curve_type: CurveKind::Linear,
        curve_delta: 10,
        lp_fee_bp: 200,
        referral_bp: 100,
        buyside_creator_royalty_bp: 0,
        reinvest_fulfill_buy,
        expiry: 0,
        sellside_orders_count: 5,
        lp_fee_earned: 70,
    }
}

#[test]
fn booking_a_purchase_moves_counters_and_quote() {
    let mut pool = lifecycle_pool(true);
    assert_eq!(pool.record_fulfill_buy(3, 20, 970), Ok(()));
    let mut expected = lifecycle_pool(true);
    expected.sellside_orders_count = 8;
    expected.lp_fee_earned = 90;
    expected.spot_price = 970;
    assert_eq!(pool, expected);
}

#[test]
fn counter_overflow_changes_nothing() {
    let mut pool = lifecycle_pool(true);
    pool.sellside_orders_count = u64::MAX - 2;
    let before = pool;
    assert_eq!(pool.record_fulfill_buy(3, 20, 970), Err(MMMErrorCode::NumericOverflow));
    assert_eq!(pool, before);
    assert_eq!(pool.record_fulfill_buy(2, 20, 970), Ok(()));
    assert_eq!(pool.sellside_orders_count, u64::MAX);

    let mut pool = lifecycle_pool(true);
    pool.lp_fee_earned = u64::MAX;
    let before = pool;
    assert_eq!(pool.record_fulfill_buy(1, 1, 970), Err(MMMErrorCode::NumericOverflow));
    assert_eq!(pool, before);
}

#[test]
fn depleted_pool_that_keeps_nothing_is_closed() {
    let pool = lifecycle_pool(false);
    let mut effects = vec![Effect::Pay { to: Party::Seller, lamports: 1 }];
    assert!(try_close_pool(&pool, 890_880, 890_880, &mut effects));
    assert_eq!(
        effects,
        vec![
            Effect::Pay { to: Party::Seller, lamports: 1 },
            Effect::SweepEscrow { lamports: 890_880 },
            Effect::ClosePool,
        ]
    );
    let mut effects = Vec::new();
    assert!(try_close_pool(&pool, 0, 890_880, &mut effects));
    assert_eq!(effects, vec![Effect::SweepEscrow { lamports: 0 }, Effect::ClosePool]);
    let mut effects = Vec::new();
    assert!(!try_close_pool(&pool, 890_881, 890_880, &mut effects));
    assert_eq!(effects, Vec::new());
}

#[test]
fn pool_that_keeps_its_inventory_is_never_closed() {
    let pool = lifecycle_pool(true);
    let mut effects = Vec::new();
    assert!(!try_close_pool(&pool, 0, 890_880, &mut effects));
    assert!(!try_close_pool(&pool, 890_881, 890_880, &mut effects));
    assert_eq!(effects, Vec::new());
}
