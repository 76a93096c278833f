use mmm::errors::MMMErrorCode;
use mmm::royalty::{pay_creator_fees_in_sol, Creator};
use mmm::state::Address;

fn creator(tag: u8, share_bp: u16) -> Creator {
    Creator { address: Address::new([tag; 32]), share_bp }
}

#[test]
fn royalty_is_fanned_out_by_share() {
    let creators = vec![creator(1, 6_000), creator(2, 4_000)];
    // 5% of 1_000_000 is 50_000, of which 60% and 40%
    assert_eq!(
        pay_creator_fees_in_sol(500, 1_000_000, &creators),
        Ok((vec![30_000, 20_000], 50_000))
    );
}

#[test]
fn royalty_rounds_down_and_never_up() {
    let creators = vec![creator(1, 3_333), creator(2, 3_333), creator(3, 3_334)];
    // 1% of 999 is 9; 9 * 3_333 / 10_000 = 2, and 9 * 3_334 / 10_000 = 3
    assert_eq!(pay_creator_fees_in_sol(100, 999, &creators), Ok((vec![2, 2, 3], 7)));
}

#[test]
fn creator_whose_part_rounds_to_nothing_is_paid_nothing() {
    let creators = vec![creator(1, 1), creator(2, 9_999)];
    assert_eq!(pay_creator_fees_in_sol(100, 10_000, &creators), Ok((vec![0, 99], 99)));
}

#[test]
fn no_royalty_rate_pays_nothing() {
    let creators = vec![creator(1, 5_000), creator(2, 5_000)];
    assert_eq!(pay_creator_fees_in_sol(0, u64::MAX, &creators), Ok((vec![0, 0], 0)));
}

#[test]
fn no_creators_are_paid_nothing() {
    assert_eq!(pay_creator_fees_in_sol(500, 1_000_000, &Vec::new()), Ok((Vec::new(), 0)));
}

#[test]
fn creators_owed_more_than_the_royalty_are_refused() {
    let creators = vec![creator(1, 6_000), creator(2, 6_000)];
    assert_eq!(
        pay_creator_fees_in_sol(500, 1_000_000, &creators),
        Err(MMMErrorCode::NumericOverflow)
    );
    // rounding can bring shares above one whole back within the royalty
    assert_eq!(pay_creator_fees_in_sol(100, 100, &creators), Ok((vec![0, 0], 0)));
}

#[test]
fn royalty_beyond_64_bits_is_refused() {
    let creators = vec![creator(1, 10_000)];
    assert_eq!(
        pay_creator_fees_in_sol(10_001, u64::MAX, &creators),
        Err(MMMErrorCode::NumericOverflow)
    );
    assert_eq!(
        pay_creator_fees_in_sol(10_000, u64::MAX, &creators),
        Ok((vec![u64::MAX], u64::MAX))
    );
}

#[test]
fn royalty_paid_never_exceeds_the_rate_applied_to_the_price() {
    let creators = vec![creator(1, 2_500), creator(2, 2_500), creator(3, 2_500), creator(4, 2_499)];
    for total in [1u64, 7, 10_000, 123_456_789, u64::MAX] {
        for royalty_bp in [1u16, 33, 500, 10_000] {
            let (payouts, paid) = pay_creator_fees_in_sol(royalty_bp, total, &creators).unwrap();
            let cap = total as u128 * royalty_bp as u128 / 10_000;
            assert!(paid as u128 <= cap);
            assert_eq!(payouts.iter().map(|p| *p as u128).sum::<u128>(), paid as u128);
        }
    }
}
