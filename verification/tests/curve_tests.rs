use fizzcaps::curve::{
    buy_quote, sell_quote, trade_fee, BondingCurve, CurveStatus, CURVE_SUPPLY,
    GRADUATION_THRESHOLD, UNIT, VIRTUAL_SOL_OFFSET,
};
use fizzcaps::errors::ErrorCode;
use fizzcaps::launch::{
    evaluate_launch, evaluate_sponsored_launch, launch, validate_launch_metadata, LaunchPlan,
    LaunchType, LAUNCH_THRESHOLD, STANDARD_LAUNCH_FEE, VETERAN_LAUNCH_FEE, VETERAN_THRESHOLD,
};
use fizzcaps::registry::{AdminRecord, GlobalConfig};

fn fresh_global() -> GlobalConfig {
    GlobalConfig::new([7u8; 32], [8u8; 32], [9u8; 32])
}

fn fresh_curve() -> BondingCurve {
    BondingCurve::create([1u8; 32], [2u8; 32], LaunchType::StandardBurn, 1000)
}

#[test]
fn fee_is_exactly_one_percent_rounded_down() {
    assert_eq!(trade_fee(12345), 123);
    assert_eq!(trade_fee(30), 0);
    assert_eq!(trade_fee(0), 0);
    assert_eq!(trade_fee(9_999), 99);
    assert_eq!(trade_fee(10_000), 100);
    assert_eq!(trade_fee(u64::MAX), u64::MAX / 100);
}

#[test]
fn bootstrap_pricing_example() {
    // A curve holding 800 million tokens and no real reserve, priced with a
    // virtual offset of 30, quotes a buy of 30 at half the pool.
    assert_eq!(trade_fee(30), 0);
    let (new_token_reserve, tokens_out) = buy_quote(30, 800_000_000, 30);
    assert_eq!(new_token_reserve, 400_000_000);
    assert_eq!(tokens_out, 400_000_000);
}

#[test]
fn create_initializes_full_pool() {
    let c = fresh_curve();
    assert_eq!(c.sol_reserve, 0);
    assert_eq!(c.token_reserve, CURVE_SUPPLY);
    assert_eq!(c.status, CurveStatus::Active);
    assert_eq!(c.created_at, 1000);
    assert_eq!(c.launch_type, LaunchType::StandardBurn);
}

#[test]
fn buy_moves_reserves_and_volume() {
    let mut c = fresh_curve();
    let mut g = fresh_global();
    let out = c.buy(&mut g, 100 * UNIT, 0).unwrap();
    assert_eq!(out.fee, 1_000_000_000);
    assert_eq!(out.net_in, 99_000_000_000);
    assert_eq!(out.tokens_out, 613_953_488_372_093_024);
    assert!(out.ready_to_graduate);
    assert_eq!(c.sol_reserve, 99_000_000_000);
    assert_eq!(c.token_reserve, 186_046_511_627_906_976);
    assert_eq!(g.volume_total, 100 * UNIT);
}

#[test]
fn small_buy_does_not_signal_graduation() {
    let mut c = fresh_curve();
    let mut g = fresh_global();
    let out = c.buy(&mut g, 10 * UNIT, 0).unwrap();
    assert_eq!(out.fee, 100_000_000);
    assert_eq!(out.net_in, 9_900_000_000);
    assert_eq!(out.tokens_out, 198_496_240_601_503_760);
    assert!(!out.ready_to_graduate);
    assert!(c.sol_reserve < GRADUATION_THRESHOLD);
}

#[test]
fn buy_zero_rejected() {
    let mut c = fresh_curve();
    let mut g = fresh_global();
    assert_eq!(c.buy(&mut g, 0, 0), Err(ErrorCode::ZeroAmount));
    assert_eq!(c.sol_reserve, 0);
    assert_eq!(c.token_reserve, CURVE_SUPPLY);
    assert_eq!(g.volume_total, 0);
}

#[test]
fn buy_slippage_rejected() {
    let mut c = fresh_curve();
    let mut g = fresh_global();
    let r = c.buy(&mut g, 10 * UNIT, 198_496_240_601_503_761);
    assert_eq!(r, Err(ErrorCode::SlippageExceeded));
    assert_eq!(c.sol_reserve, 0);
    assert_eq!(c.token_reserve, CURVE_SUPPLY);
    assert_eq!(g.volume_total, 0);
}

#[test]
fn sell_zero_rejected() {
    let mut c = fresh_curve();
    assert_eq!(c.sell(0, 0), Err(ErrorCode::ZeroAmount));
}

#[test]
fn sell_beyond_circulation_rejected() {
    // A fresh curve still holds the whole pool: no token can be in
    // circulation, so any sell must be refused.
    let mut c = fresh_curve();
    assert_eq!(c.sell(1, 0), Err(ErrorCode::InsufficientLiquidity));
    assert_eq!(c.token_reserve, CURVE_SUPPLY);
}

#[test]
fn sell_clamps_payout_to_real_reserve() {
    // A nearly drained real reserve with a tiny token reserve: the virtual
    // price of the returned tokens far exceeds the five base units actually
    // held, so the gross payout is clamped to exactly those five.
    let mut c = fresh_curve();
    c.sol_reserve = 5;
    c.token_reserve = 100;
    let out = c.sell(1_000_000, 0).unwrap();
    assert_eq!(out.gross_out, 5);
    assert_eq!(out.fee, 0);
    assert_eq!(out.sol_out, 5);
    assert_eq!(c.sol_reserve, 0);
    assert_eq!(c.token_reserve, 100 + 1_000_000);
}

#[test]
fn buy_then_sell_back_returns_pool() {
    let mut c = fresh_curve();
    let mut g = fresh_global();
    let bought = c.buy(&mut g, 10 * UNIT, 0).unwrap();
    let out = c.sell(bought.tokens_out, 0).unwrap();
    // Floor rounding quotes one unit above the real reserve, so the clamp
    // fires and the curve pays out everything it actually holds.
    assert_eq!(out.gross_out, 9_900_000_000);
    assert_eq!(out.fee, 99_000_000);
    assert_eq!(out.sol_out, 9_801_000_000);
    assert_eq!(c.sol_reserve, 0);
    assert_eq!(c.token_reserve, CURVE_SUPPLY);
}

#[test]
fn sell_slippage_rejected() {
    let mut c = fresh_curve();
    let mut g = fresh_global();
    let bought = c.buy(&mut g, 10 * UNIT, 0).unwrap();
    let sol_before = c.sol_reserve;
    let r = c.sell(bought.tokens_out, 9_801_000_001);
    assert_eq!(r, Err(ErrorCode::SlippageExceeded));
    assert_eq!(c.sol_reserve, sol_before);
}

#[test]
fn sell_quote_clamp_direct() {
    let virtual_sol = 5 + VIRTUAL_SOL_OFFSET;
    let (new_virtual_sol, gross) = sell_quote(virtual_sol, 100, 1_000_000, 5);
    assert_eq!(new_virtual_sol, 2_999_700);
    assert_eq!(gross, 5);
}

#[test]
fn graduation_lifecycle() {
    let mut c = fresh_curve();
    let mut g = fresh_global();
    assert_eq!(c.graduate(2000), Err(ErrorCode::NotReadyToGraduate));
    let out = c.buy(&mut g, 100 * UNIT, 0).unwrap();
    assert!(out.ready_to_graduate);
    assert!(c.sol_reserve >= GRADUATION_THRESHOLD);
    let bonus = c.graduate(2000).unwrap();
    assert_eq!(bonus, 6_930_000_000);
    assert_eq!(c.sol_reserve, 92_070_000_000);
    assert_eq!(
        c.status,
        CurveStatus::Graduated { bonus_paid: 6_930_000_000, graduated_at: 2000 }
    );
}

#[test]
fn graduated_curve_is_frozen() {
    let mut c = fresh_curve();
    let mut g = fresh_global();
    c.buy(&mut g, 100 * UNIT, 0).unwrap();
    c.graduate(2000).unwrap();
    let sol = c.sol_reserve;
    let tokens = c.token_reserve;
    assert_eq!(c.buy(&mut g, UNIT, 0), Err(ErrorCode::TokenGraduated));
    assert_eq!(c.sell(1, 0), Err(ErrorCode::TokenGraduated));
    assert_eq!(c.graduate(3000), Err(ErrorCode::AlreadyGraduated));
    assert_eq!(c.sol_reserve, sol);
    assert_eq!(c.token_reserve, tokens);
}

#[test]
fn buy_keeps_constant_product_modulo_floor() {
    let mut c = fresh_curve();
    let mut g = fresh_global();
    let vs_before = (c.sol_reserve + VIRTUAL_SOL_OFFSET) as u128;
    let tr_before = c.token_reserve as u128;
    let out = c.buy(&mut g, 10 * UNIT, 0).unwrap();
    let vs_after = (c.sol_reserve + VIRTUAL_SOL_OFFSET) as u128;
    let tr_after = c.token_reserve as u128;
    assert_eq!(tr_after + out.tokens_out as u128, tr_before);
    let k = vs_before * tr_before;
    assert!(vs_after * tr_after <= k);
    assert!(k < vs_after * (tr_after + 1));
}

#[test]
fn reserve_stays_bounded_over_trade_sequence() {
    let mut c = fresh_curve();
    let mut g = fresh_global();
    let mut held: u64 = 0;
    for round in 1..20u64 {
        let bought = c.buy(&mut g, round * UNIT / 3 + 1, 0).unwrap();
        held += bought.tokens_out;
        assert!(c.token_reserve <= CURVE_SUPPLY);
        let back = held / 2;
        if back > 0 {
            c.sell(back, 0).unwrap();
            held -= back;
            assert!(c.token_reserve <= CURVE_SUPPLY);
        }
    }
}

#[test]
fn buy_counter_overflow_aborts_cleanly() {
    let mut c = fresh_curve();
    let mut g = fresh_global();
    g.volume_total = u64::MAX;
    assert_eq!(c.buy(&mut g, UNIT, 0), Err(ErrorCode::ArithmeticOverflow));
    assert_eq!(c.sol_reserve, 0);
    assert_eq!(c.token_reserve, CURVE_SUPPLY);
    assert_eq!(g.volume_total, u64::MAX);
}

#[test]
fn launch_counter_overflow_aborts_cleanly() {
    let mut g = fresh_global();
    g.tokens_launched = u64::MAX;
    let r = launch(
        &mut g,
        "Overflowing",
        "OVER",
        "https://example.invalid/over.json",
        [1u8; 32],
        [2u8; 32],
        LAUNCH_THRESHOLD,
        None,
        42,
    );
    assert!(matches!(r, Err(ErrorCode::ArithmeticOverflow)));
    assert_eq!(g.tokens_launched, u64::MAX);
    assert_eq!(g.fees_burned, 0);
}

#[test]
fn launch_fee_tiers() {
    assert_eq!(
        evaluate_launch(LAUNCH_THRESHOLD - 1),
        Err(ErrorCode::InsufficientBalance)
    );
    assert_eq!(
        evaluate_launch(LAUNCH_THRESHOLD),
        Ok(LaunchPlan { fee_to_burn: STANDARD_LAUNCH_FEE, tier: LaunchType::StandardBurn })
    );
    assert_eq!(
        evaluate_launch(VETERAN_THRESHOLD - 1),
        Ok(LaunchPlan { fee_to_burn: STANDARD_LAUNCH_FEE, tier: LaunchType::StandardBurn })
    );
    assert_eq!(
        evaluate_launch(VETERAN_THRESHOLD),
        Ok(LaunchPlan { fee_to_burn: VETERAN_LAUNCH_FEE, tier: LaunchType::VeteranBurn })
    );
}

#[test]
fn sponsored_launch_needs_active_admin() {
    let g = fresh_global();
    let admin = AdminRecord::add_admin(&g, &[7u8; 32], [3u8; 32], 500).unwrap();
    assert!(admin.is_active);
    assert_eq!(
        evaluate_sponsored_launch(&admin),
        Ok(LaunchPlan { fee_to_burn: 0, tier: LaunchType::SponsoredBootstrap })
    );
    let mut admin = admin;
    admin.deactivate(&g, &[7u8; 32]).unwrap();
    assert!(!admin.is_active);
    assert_eq!(evaluate_sponsored_launch(&admin), Err(ErrorCode::InactiveAdmin));
}

#[test]
fn admin_management_requires_authority() {
    let g = fresh_global();
    assert!(matches!(
        AdminRecord::add_admin(&g, &[6u8; 32], [3u8; 32], 500),
        Err(ErrorCode::NotAuthority)
    ));
    let mut admin = AdminRecord::add_admin(&g, &[7u8; 32], [3u8; 32], 500).unwrap();
    assert_eq!(admin.deactivate(&g, &[6u8; 32]), Err(ErrorCode::NotAuthority));
    assert!(admin.is_active);
}

#[test]
fn metadata_limits_enforced() {
    let long_name: String = "n".repeat(33);
    let long_symbol: String = "s".repeat(11);
    let long_uri: String = "u".repeat(201);
    assert_eq!(
        validate_launch_metadata(&long_name, "SYM", "uri"),
        Err(ErrorCode::NameTooLong)
    );
    assert_eq!(
        validate_launch_metadata("name", &long_symbol, "uri"),
        Err(ErrorCode::SymbolTooLong)
    );
    assert_eq!(
        validate_launch_metadata("name", "SYM", &long_uri),
        Err(ErrorCode::UriTooLong)
    );
    assert_eq!(validate_launch_metadata("name", "SYM", "uri"), Ok(()));
}

#[test]
fn metadata_limits_count_characters_not_bytes() {
    // 32 two-byte characters are within the name limit; 33 are not.
    let wide_ok: String = "é".repeat(32);
    let wide_long: String = "é".repeat(33);
    assert_eq!(validate_launch_metadata(&wide_ok, "SYM", "uri"), Ok(()));
    assert_eq!(
        validate_launch_metadata(&wide_long, "SYM", "uri"),
        Err(ErrorCode::NameTooLong)
    );
}

#[test]
fn standard_launch_counts_and_creates() {
    let mut g = fresh_global();
    let (curve, plan) = launch(
        &mut g,
        "Atomic Fizz",
        "FIZZ",
        "https://example.invalid/fizz.json",
        [1u8; 32],
        [2u8; 32],
        LAUNCH_THRESHOLD,
        None,
        42,
    )
    .unwrap();
    assert_eq!(plan.fee_to_burn, STANDARD_LAUNCH_FEE);
    assert_eq!(plan.tier, LaunchType::StandardBurn);
    assert_eq!(curve.token_reserve, CURVE_SUPPLY);
    assert_eq!(curve.sol_reserve, 0);
    assert_eq!(curve.launch_type, LaunchType::StandardBurn);
    assert_eq!(curve.created_at, 42);
    assert_eq!(g.tokens_launched, 1);
    assert_eq!(g.fees_burned, STANDARD_LAUNCH_FEE);
    assert_eq!(g.admin_bootstrap_launches, 0);
}

#[test]
fn sponsored_launch_burns_nothing() {
    let mut g = fresh_global();
    let admin = AdminRecord::add_admin(&g, &[7u8; 32], [3u8; 32], 500).unwrap();
    let (curve, plan) = launch(
        &mut g,
        "Bootstrapped",
        "BOOT",
        "https://example.invalid/boot.json",
        [1u8; 32],
        [2u8; 32],
        0,
        Some(&admin),
        42,
    )
    .unwrap();
    assert_eq!(plan.fee_to_burn, 0);
    assert_eq!(plan.tier, LaunchType::SponsoredBootstrap);
    assert_eq!(curve.launch_type, LaunchType::SponsoredBootstrap);
    assert_eq!(g.tokens_launched, 1);
    assert_eq!(g.fees_burned, 0);
    assert_eq!(g.admin_bootstrap_launches, 1);
}

#[test]
fn launch_without_balance_rejected() {
    let mut g = fresh_global();
    let r = launch(
        &mut g,
        "Broke",
        "NOPE",
        "https://example.invalid/no.json",
        [1u8; 32],
        [2u8; 32],
        LAUNCH_THRESHOLD - 1,
        None,
        42,
    );
    assert!(matches!(r, Err(ErrorCode::InsufficientBalance)));
    assert_eq!(g.tokens_launched, 0);
    assert_eq!(g.fees_burned, 0);
}
