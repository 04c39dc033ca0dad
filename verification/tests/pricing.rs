use bonkr_engine::curve::{swap, Swap};
use bonkr_engine::fees::{split_tokens, split_value, take_fee, TokenSplit, ValueSplit};
use bonkr_engine::BonkrError;

#[test]
fn a_fee_is_a_share_in_basis_points_rounded_down() {
    assert_eq!(take_fee(100_000, 100), Ok(1000));
    assert_eq!(take_fee(100_000, 50), Ok(500));
    assert_eq!(take_fee(99, 100), Ok(0));
    assert_eq!(take_fee(199, 100), Ok(1));
    assert_eq!(take_fee(200, 100), Ok(2));
    assert_eq!(take_fee(12_345, 10_000), Ok(12_345));
    assert_eq!(take_fee(10, 20_000), Ok(20));
    assert_eq!(take_fee(0, u16::MAX), Ok(0));
    assert_eq!(take_fee(u64::MAX, 0), Ok(0));
    assert_eq!(take_fee(u64::MAX, 1), Ok(1_844_674_407_370_955));
}

#[test]
fn a_fee_is_refused_where_the_scaled_amount_overflows() {
    assert_eq!(take_fee(u64::MAX, 2), Err(BonkrError::MathOverflow));
    assert_eq!(take_fee(184_467_440_737_095_516, 100), Ok(1_844_674_407_370_955));
    assert_eq!(take_fee(184_467_440_737_095_517, 100), Err(BonkrError::MathOverflow));
}

#[test]
fn a_value_is_split_three_ways() {
    assert_eq!(
        split_value(100_000, 100, 50),
        Ok(ValueSplit { platform_fee: 1000, creator_fee: 500, net: 98_500 })
    );
    assert_eq!(
        split_value(45_350, 100, 50),
        Ok(ValueSplit { platform_fee: 453, creator_fee: 226, net: 44_671 })
    );
    assert_eq!(
        split_value(10, 5000, 5000),
        Ok(ValueSplit { platform_fee: 5, creator_fee: 5, net: 0 })
    );
    assert_eq!(split_value(0, 9, 9), Ok(ValueSplit { platform_fee: 0, creator_fee: 0, net: 0 }));
    assert_eq!(split_value(10_000, 6000, 5000), Err(BonkrError::MathOverflow));
    assert_eq!(split_value(10_000, 10_001, 0), Err(BonkrError::MathOverflow));
    assert_eq!(split_value(10_000, 0, 10_001), Err(BonkrError::MathOverflow));
    assert_eq!(split_value(u64::MAX, 0, 2), Err(BonkrError::MathOverflow));
}

#[test]
fn the_burn_is_split_from_the_tokens() {
    assert_eq!(
        split_tokens(89_667_729, 200),
        Ok(TokenSplit { burn_amount: 1_793_354, net: 87_874_375 })
    );
    assert_eq!(
        split_tokens(40_000_000, 200),
        Ok(TokenSplit { burn_amount: 800_000, net: 39_200_000 })
    );
    assert_eq!(split_tokens(77, 10_000), Ok(TokenSplit { burn_amount: 77, net: 0 }));
    // Just above the whole, small amounts still round down to themselves.
    assert_eq!(split_tokens(9999, 10_001), Ok(TokenSplit { burn_amount: 9999, net: 0 }));
    assert_eq!(split_tokens(10_000, 10_001), Err(BonkrError::MathOverflow));
    assert_eq!(split_tokens(u64::MAX, 2), Err(BonkrError::MathOverflow));
}

#[test]
fn the_curve_keeps_the_product_rounded_down() {
    assert_eq!(swap(1000, 1000, 100), Ok(Swap { reserve_in: 1100, reserve_out: 909, amount_out: 91 }));
    assert_eq!(swap(909, 1100, 91), Ok(Swap { reserve_in: 1000, reserve_out: 999, amount_out: 101 }));
    assert_eq!(
        swap(1_000_000, 1_000_000_000, 98_500),
        Ok(Swap { reserve_in: 1_098_500, reserve_out: 910_332_271, amount_out: 89_667_729 })
    );
    assert_eq!(swap(1000, 1000, 0), Ok(Swap { reserve_in: 1000, reserve_out: 1000, amount_out: 0 }));
    assert_eq!(swap(0, 1000, 5), Ok(Swap { reserve_in: 5, reserve_out: 0, amount_out: 1000 }));
    assert_eq!(swap(5, 0, 5), Ok(Swap { reserve_in: 10, reserve_out: 0, amount_out: 0 }));
    assert_eq!(
        swap(4_294_967_295, 4_294_967_297, 1),
        Ok(Swap { reserve_in: 4_294_967_296, reserve_out: 4_294_967_295, amount_out: 2 })
    );
}

#[test]
fn the_curve_refuses_what_does_not_fit() {
    assert_eq!(swap(4_294_967_296, 4_294_967_296, 1), Err(BonkrError::MathOverflow));
    assert_eq!(swap(u64::MAX, 1, 1), Err(BonkrError::MathOverflow));
    assert_eq!(swap(0, 1000, 0), Err(BonkrError::MathOverflow));
    assert_eq!(swap(0, 0, 0), Err(BonkrError::MathOverflow));
    assert_eq!(
        swap(u64::MAX, 1, 0),
        Ok(Swap { reserve_in: u64::MAX, reserve_out: 1, amount_out: 0 })
    );
}

#[test]
fn paying_more_in_never_pays_less_out() {
    let mut last = 0;
    for amount_in in 0..2000u64 {
        let out = swap(1000, 1000, amount_in).unwrap().amount_out;
        assert!(out >= last);
        assert!(out <= 1000);
        last = out;
    }
    assert_eq!(last, 667);
}
