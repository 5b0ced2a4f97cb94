use anchor_lang::prelude::Pubkey;
use bonding_curve::{buy, create, initialize_global, BondingCurve, Global, PumpError, Quote};

fn key(byte: u8) -> Pubkey {
    Pubkey::new_from_array([byte; 32])
}

/// The default shape scaled down so that the product fits in 64 bits.
fn small_policy(fee_basis_points: u64) -> Global {
    Global {
        initialized: true,
        authority: key(1),
        fee_recipient: key(2),
        initial_virtual_token_reserves: 1_073_000_000,
        initial_virtual_sol_reserves: 3_000_000_000,
        initial_real_token_reserves: 793_100_000,
        token_total_supply: 1_000_000_000,
        fee_basis_points,
        migration_threshold: 8_500_000_000,
        enable_migrate: true,
    }
}

fn curve_with(
    virtual_token_reserves: u64,
    virtual_sol_reserves: u64,
    real_token_reserves: u64,
    real_sol_reserves: u64,
) -> BondingCurve {
    BondingCurve {
        virtual_token_reserves,
        virtual_sol_reserves,
        real_token_reserves,
        real_sol_reserves,
        token_total_supply: u64::MAX,
        complete: false,
        creator: key(7),
    }
}

#[test]
fn first_buy_charges_cost_plus_fee() {
    let global = small_policy(100);
    let mut curve = create(&global, key(3));
    let quote = buy(&mut curve, &global, 1_000_000, 1_000_000_000).unwrap();
    assert_eq!(
        quote,
        Quote { token_amount: 1_000_000, sol_amount: 2_798_507, fee: 27_985, sol_settled: 2_826_492 }
    );
    assert_eq!(
        curve,
        BondingCurve {
            virtual_token_reserves: 1_072_000_000,
            virtual_sol_reserves: 3_002_798_507,
            real_token_reserves: 792_100_000,
            real_sol_reserves: 2_798_507,
            token_total_supply: 1_000_000_000,
            complete: false,
            creator: key(3),
        }
    );
}

#[test]
fn buy_succeeds_exactly_when_the_total_fits_the_bound() {
    let global = small_policy(100);
    let fresh = create(&global, key(3));

    let mut at_bound = fresh;
    assert!(buy(&mut at_bound, &global, 1_000_000, 2_826_492).is_ok());

    let mut below_bound = fresh;
    assert_eq!(
        buy(&mut below_bound, &global, 1_000_000, 2_826_491),
        Err(PumpError::SlippageExceeded)
    );
    assert_eq!(below_bound, fresh);
}

#[test]
fn buy_with_a_bound_of_one_is_slippage() {
    let global = small_policy(100);
    let mut curve = create(&global, key(3));
    let before = curve;
    assert_eq!(buy(&mut curve, &global, 1_000_000, 1), Err(PumpError::SlippageExceeded));
    assert_eq!(curve, before);
}

#[test]
fn default_curve_product_leaves_the_64_bit_range() {
    let global = initialize_global(key(1), 100, key(2), true);
    let mut curve = create(&global, key(3));
    let before = curve;
    let product = 30_000_000_000u128 * 1_073_000_000_000_000u128;
    assert_eq!(
        u128::from(curve.virtual_sol_reserves) * u128::from(curve.virtual_token_reserves),
        product
    );
    assert!(product > u128::from(u64::MAX));
    assert_eq!(buy(&mut curve, &global, 1_000_000_000, 1_000_000_000), Err(PumpError::Overflow));
    assert_eq!(curve, before);
}

#[test]
fn default_curve_reports_overflow_before_slippage() {
    let global = initialize_global(key(1), 100, key(2), true);
    let mut curve = create(&global, key(3));
    let before = curve;
    assert_eq!(buy(&mut curve, &global, 1_000_000_000, 1), Err(PumpError::Overflow));
    assert_eq!(curve, before);
}

#[test]
fn buy_on_a_complete_curve_is_rejected() {
    let global = small_policy(100);
    let mut curve = create(&global, key(3));
    curve.complete = true;
    let before = curve;
    assert_eq!(buy(&mut curve, &global, 1, u64::MAX), Err(PumpError::BondingCurveComplete));
    assert_eq!(curve, before);
}

#[test]
fn complete_is_reported_before_anything_else() {
    let global = small_policy(100);
    let mut curve = curve_with(u64::MAX, u64::MAX, 0, 0);
    curve.complete = true;
    assert_eq!(buy(&mut curve, &global, u64::MAX, 0), Err(PumpError::BondingCurveComplete));
}

#[test]
fn buying_all_virtual_tokens_is_insufficient() {
    let global = small_policy(100);
    let mut curve = create(&global, key(3));
    let before = curve;
    assert_eq!(
        buy(&mut curve, &global, 1_073_000_000, u64::MAX),
        Err(PumpError::InsufficientTokens)
    );
    assert_eq!(curve, before);
}

#[test]
fn buying_more_than_the_virtual_tokens_is_insufficient() {
    let global = small_policy(100);
    let mut curve = create(&global, key(3));
    let before = curve;
    assert_eq!(
        buy(&mut curve, &global, 1_073_000_001, u64::MAX),
        Err(PumpError::InsufficientTokens)
    );
    assert_eq!(curve, before);
}

#[test]
fn buying_from_empty_virtual_reserves_is_insufficient() {
    let global = small_policy(100);
    let mut curve = curve_with(0, 5, 0, 0);
    assert_eq!(buy(&mut curve, &global, 0, u64::MAX), Err(PumpError::InsufficientTokens));
}

#[test]
fn product_overflow_is_reported_before_insufficient_tokens() {
    let global = small_policy(100);
    let mut curve = curve_with(1 << 32, 1 << 32, 1 << 32, 0);
    let before = curve;
    assert_eq!(buy(&mut curve, &global, u64::MAX, u64::MAX), Err(PumpError::Overflow));
    assert_eq!(curve, before);
}

#[test]
fn largest_product_that_fits_is_accepted() {
    let global = small_policy(0);
    let mut curve = curve_with(u64::MAX, 1, u64::MAX, 0);
    let quote = buy(&mut curve, &global, 0, 0).unwrap();
    assert_eq!(quote, Quote { token_amount: 0, sol_amount: 0, fee: 0, sol_settled: 0 });
    assert_eq!(curve, curve_with(u64::MAX, 1, u64::MAX, 0));
}

#[test]
fn fee_product_overflow_is_rejected() {
    let mut global = small_policy(100);
    global.fee_basis_points = u64::MAX;
    let mut curve = curve_with(10, 10, 8, 0);
    let before = curve;
    // The cost before the fee is 4, and 4 × u64::MAX does not fit.
    assert_eq!(buy(&mut curve, &global, 3, u64::MAX), Err(PumpError::Overflow));
    assert_eq!(curve, before);
}

#[test]
fn total_cost_overflow_is_rejected() {
    let global = small_policy(1);
    // Leaving one virtual token makes the cost u64::MAX - 1; the fee of one
    // basis point on top of it no longer fits.
    let mut curve = curve_with(u64::MAX, 1, u64::MAX, 0);
    let before = curve;
    assert_eq!(buy(&mut curve, &global, u64::MAX - 1, u64::MAX), Err(PumpError::Overflow));
    assert_eq!(curve, before);
}

#[test]
fn slippage_is_reported_before_the_real_reserves_are_checked() {
    let global = small_policy(5000);
    let mut curve = curve_with(10, 10, 2, 0);
    let before = curve;
    assert_eq!(buy(&mut curve, &global, 3, 5), Err(PumpError::SlippageExceeded));
    assert_eq!(curve, before);
}

#[test]
fn buying_more_than_the_real_tokens_is_rejected_not_clamped() {
    let global = small_policy(5000);
    let mut curve = curve_with(10, 10, 2, 0);
    let before = curve;
    assert_eq!(buy(&mut curve, &global, 3, 6), Err(PumpError::Overflow));
    assert_eq!(curve, before);
}

#[test]
fn real_sol_overflow_is_rejected() {
    let global = small_policy(5000);
    let mut curve = curve_with(10, 10, 8, u64::MAX - 3);
    let before = curve;
    assert_eq!(buy(&mut curve, &global, 3, 6), Err(PumpError::Overflow));
    assert_eq!(curve, before);

    let mut fits = curve_with(10, 10, 8, u64::MAX - 4);
    let mut unbounded = small_policy(5000);
    unbounded.migration_threshold = u64::MAX;
    assert!(buy(&mut fits, &unbounded, 3, 6).is_ok());
    assert_eq!(fits.real_sol_reserves, u64::MAX);
    assert!(fits.complete);
}

#[test]
fn fee_is_the_floor_of_the_basis_point_share() {
    let global = small_policy(5000);
    let mut curve = curve_with(10, 10, 8, 0);
    // 100 / 7 = 14, so the cost is 4 and half of it is the fee.
    let quote = buy(&mut curve, &global, 3, 6).unwrap();
    assert_eq!(quote, Quote { token_amount: 3, sol_amount: 4, fee: 2, sol_settled: 6 });
    assert_eq!(curve, {
        let mut after = curve_with(7, 14, 5, 4);
        after.complete = false;
        after
    });

    let odd = small_policy(3333);
    let mut curve = curve_with(10, 10, 8, 0);
    // 4 × 3333 / 10000 = 1.3332, rounded down to 1.
    let quote = buy(&mut curve, &odd, 3, 6).unwrap();
    assert_eq!(quote.fee, 1);
    assert_eq!(quote.sol_settled - quote.sol_amount, 4 * 3333 / 10000);
}

#[test]
fn buy_fee_identity_holds_across_amounts() {
    for fee_basis_points in [0u64, 1, 30, 100, 9_999, 10_000, 25_000] {
        let global = small_policy(fee_basis_points);
        for amount in [0u64, 1, 999, 1_000_000, 50_000_000, 700_000_000] {
            let mut curve = create(&global, key(3));
            let quote = buy(&mut curve, &global, amount, u64::MAX).unwrap();
            let expected = u128::from(quote.sol_amount) * u128::from(fee_basis_points) / 10_000;
            assert_eq!(u128::from(quote.fee), expected);
            assert_eq!(quote.sol_settled - quote.sol_amount, quote.fee);
            assert_eq!(quote.token_amount, amount);
        }
    }
}

#[test]
fn buy_moves_the_product_by_less_than_one_divisor() {
    let global = small_policy(100);
    for amount in [1u64, 7, 1_000_000, 123_456_789, 793_100_000] {
        let mut curve = create(&global, key(3));
        let before = u128::from(curve.virtual_sol_reserves) * u128::from(curve.virtual_token_reserves);
        buy(&mut curve, &global, amount, u64::MAX).unwrap();
        let after = u128::from(curve.virtual_sol_reserves) * u128::from(curve.virtual_token_reserves);
        assert!(after <= before);
        assert!(before - after < u128::from(curve.virtual_token_reserves));
    }
}

#[test]
fn first_buy_product_loss_is_exact() {
    let global = small_policy(100);
    let mut curve = create(&global, key(3));
    buy(&mut curve, &global, 1_000_000, u64::MAX).unwrap();
    let after = u128::from(curve.virtual_sol_reserves) * u128::from(curve.virtual_token_reserves);
    assert_eq!(after, 3_218_999_999_504_000_000);
    assert_eq!(3_219_000_000_000_000_000 - after, 496_000_000);
}

#[test]
fn each_buy_of_the_same_amount_costs_more() {
    let global = small_policy(100);
    let mut curve = create(&global, key(3));
    let expected = [308_324_768u64, 378_960_454, 477_009_731, 618_765_966, 834_740_125];
    let mut last_cost = 0;
    for cost in expected {
        let price_before = (curve.virtual_sol_reserves, curve.virtual_token_reserves);
        let quote = buy(&mut curve, &global, 100_000_000, u64::MAX).unwrap();
        assert_eq!(quote.sol_amount, cost);
        assert!(quote.sol_amount > last_cost);
        last_cost = quote.sol_amount;
        // sol / tokens before < sol / tokens after, compared without dividing.
        assert!(
            u128::from(price_before.0) * u128::from(curve.virtual_token_reserves)
                < u128::from(curve.virtual_sol_reserves) * u128::from(price_before.1)
        );
    }
}

#[test]
fn price_after_buying_rises_with_the_amount_on_fixed_reserves() {
    let global = small_policy(0);
    let fresh = create(&global, key(3));
    let mut last: Option<(u64, u64)> = None;
    for amount in [0u64, 1, 2, 1_000, 1_000_000, 500_000_000, 793_100_000] {
        let mut curve = fresh;
        buy(&mut curve, &global, amount, u64::MAX).unwrap();
        if let Some((sol, tokens)) = last {
            assert!(
                u128::from(sol) * u128::from(curve.virtual_token_reserves)
                    < u128::from(curve.virtual_sol_reserves) * u128::from(tokens)
            );
        }
        last = Some((curve.virtual_sol_reserves, curve.virtual_token_reserves));
    }
}

#[test]
fn buying_nothing_moves_nothing() {
    let global = small_policy(100);
    let mut curve = create(&global, key(3));
    let before = curve;
    let quote = buy(&mut curve, &global, 0, 0).unwrap();
    assert_eq!(quote, Quote { token_amount: 0, sol_amount: 0, fee: 0, sol_settled: 0 });
    assert_eq!(curve, before);
}

#[test]
fn buy_completes_the_curve_at_the_threshold() {
    let mut global = small_policy(5000);
    global.migration_threshold = 4;
    let mut curve = curve_with(10, 10, 8, 0);
    buy(&mut curve, &global, 3, 6).unwrap();
    assert_eq!(curve.real_sol_reserves, 4);
    assert!(curve.complete);

    global.migration_threshold = 5;
    let mut curve = curve_with(10, 10, 8, 0);
    buy(&mut curve, &global, 3, 6).unwrap();
    assert_eq!(curve.real_sol_reserves, 4);
    assert!(!curve.complete);
}

#[test]
fn buy_leaves_supply_and_creator_alone() {
    let global = small_policy(100);
    let mut curve = create(&global, key(3));
    buy(&mut curve, &global, 5_000_000, u64::MAX).unwrap();
    assert_eq!(curve.token_total_supply, 1_000_000_000);
    assert_eq!(curve.creator, key(3));
    assert!(curve.real_token_reserves <= curve.token_total_supply);
}
