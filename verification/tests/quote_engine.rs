use nova_psm_amm::{
    get_swap_curve_result, AccountId, CurveCalculator, Fees, NovaPsmAmm, PoolState, SwapError,
    SwapParams, TradeDirection, TradeRequest,
};

fn id(tag: u8) -> AccountId {
    AccountId { bytes: [tag; 32] }
}

fn fees(tn: u64, td: u64, on: u64, od: u64) -> Fees {
    Fees {
        trade_fee_numerator: tn,
        trade_fee_denominator: td,
        owner_trade_fee_numerator: on,
        owner_trade_fee_denominator: od,
    }
}

fn no_fees() -> Fees {
    fees(0, 1, 0, 1)
}

fn pool(curve: CurveCalculator, f: Fees) -> PoolState {
    PoolState {
        token_a: id(1),
        token_b: id(2),
        pool_mint: id(3),
        token_a_mint: id(4),
        token_b_mint: id(5),
        pool_fee_account: id(6),
        fees: f,
        swap_curve: curve,
    }
}

fn amm_with_reserves(
    curve: CurveCalculator,
    f: Fees,
    reserve_a: u64,
    reserve_b: u64,
) -> NovaPsmAmm {
    let mut amm = NovaPsmAmm::new(id(7), id(8), pool(curve, f)).unwrap();
    amm.update(reserve_a, reserve_b);
    amm
}

#[test]
fn constant_product_scenario() {
    // 0.30% trade fee, no owner fee, reserves (1_000_000, 2_000_000), input 1_000.
    let amm = amm_with_reserves(
        CurveCalculator::ConstantProduct,
        fees(30, 10_000, 0, 10_000),
        1_000_000,
        2_000_000,
    );
    let q = amm
        .quote(&TradeRequest { input_mint: id(4), amount: 1_000, timestamp: None })
        .unwrap();
    assert_eq!(q.in_amount, 1_000);
    assert_eq!(q.out_amount, 1_992);
    assert!(q.out_amount < 1_997);
    assert!(q.out_amount > 1_990);
    assert_eq!(q.fee_amount, 3);
    assert_eq!(q.fee_pct.numerator, 30);
    assert_eq!(q.fee_pct.denominator, 10_000);
    assert_eq!(q.fee_mint.bytes, [4u8; 32]);
}

#[test]
fn constant_product_preserves_invariant() {
    let amm = amm_with_reserves(CurveCalculator::ConstantProduct, no_fees(), 1_000_000, 2_000_000);
    let q = amm
        .quote(&TradeRequest { input_mint: id(4), amount: 1_000, timestamp: None })
        .unwrap();
    let x = 1_000_000u128;
    let y = 2_000_000u128;
    let a = q.in_amount as u128;
    let b = q.out_amount as u128;
    assert!(x * y <= (x + a) * (y - b));
    assert!(b < y);
}

#[test]
fn quote_direction_b_to_a() {
    let amm = amm_with_reserves(CurveCalculator::ConstantProduct, no_fees(), 1_000_000, 2_000_000);
    // Selling asset B: source reserve 2_000_000, destination 1_000_000.
    let q = amm
        .quote(&TradeRequest { input_mint: id(5), amount: 2_000, timestamp: None })
        .unwrap();
    // ceil(2e12 / 2_002_000) = 999_001, output = 1_000_000 - 999_001.
    assert_eq!(q.out_amount, 999);
}

#[test]
fn zero_input_yields_zero_output_constant_product() {
    let amm = amm_with_reserves(CurveCalculator::ConstantProduct, fees(30, 10_000, 5, 10_000), 10, 10);
    let q = amm
        .quote(&TradeRequest { input_mint: id(4), amount: 0, timestamp: None })
        .unwrap();
    assert_eq!(q.in_amount, 0);
    assert_eq!(q.out_amount, 0);
    assert_eq!(q.fee_amount, 0);
}

#[test]
fn zero_input_yields_zero_output_stable() {
    let amm = amm_with_reserves(
        CurveCalculator::Stable { amp: 100 },
        fees(30, 10_000, 5, 10_000),
        10,
        10,
    );
    let q = amm
        .quote(&TradeRequest { input_mint: id(4), amount: 0, timestamp: None })
        .unwrap();
    assert_eq!(q.out_amount, 0);
    assert_eq!(q.fee_amount, 0);
}

#[test]
fn zero_input_yields_zero_output_redemption_rate() {
    let curve = CurveCalculator::RedemptionRate {
        rate_numerator: 2,
        rate_denominator: 1,
        rate_accrual_per_second: 0,
        reference_timestamp: 0,
    };
    let amm = amm_with_reserves(curve, fees(30, 10_000, 5, 10_000), 10, 10);
    let q = amm
        .quote(&TradeRequest { input_mint: id(4), amount: 0, timestamp: Some(1_000) })
        .unwrap();
    assert_eq!(q.out_amount, 0);
    assert_eq!(q.fee_amount, 0);
}

#[test]
fn empty_source_reserve_fails() {
    let amm = amm_with_reserves(CurveCalculator::ConstantProduct, no_fees(), 0, 2_000_000);
    for amount in [0u64, 1, 1_000_000] {
        let r = amm.quote(&TradeRequest { input_mint: id(4), amount, timestamp: None });
        assert_eq!(r.unwrap_err(), SwapError::InsufficientLiquidity);
    }
}

#[test]
fn empty_destination_reserve_fails() {
    let amm = amm_with_reserves(CurveCalculator::ConstantProduct, no_fees(), 1_000_000, 0);
    let r = amm.quote(&TradeRequest { input_mint: id(4), amount: 5, timestamp: None });
    assert_eq!(r.unwrap_err(), SwapError::InsufficientLiquidity);
}

#[test]
fn redemption_rate_without_timestamp_fails() {
    let curve = CurveCalculator::RedemptionRate {
        rate_numerator: 1,
        rate_denominator: 1,
        rate_accrual_per_second: 0,
        reference_timestamp: 0,
    };
    let amm = amm_with_reserves(curve, no_fees(), 1_000, 1_000);
    let r = amm.quote(&TradeRequest { input_mint: id(4), amount: 10, timestamp: None });
    assert_eq!(r.unwrap_err(), SwapError::MissingTimestamp);
}

#[test]
fn redemption_rate_accrues_linearly() {
    // Rate 2/1 at the reference, one numerator unit per second, 10 s later.
    let curve = CurveCalculator::RedemptionRate {
        rate_numerator: 2,
        rate_denominator: 1,
        rate_accrual_per_second: 1,
        reference_timestamp: 100,
    };
    let amm = amm_with_reserves(curve, no_fees(), 1_000, 10_000);
    let q = amm
        .quote(&TradeRequest { input_mint: id(4), amount: 10, timestamp: Some(110) })
        .unwrap();
    assert_eq!(q.out_amount, 120); // 10 * (2 + 10) / 1
}

#[test]
fn redemption_rate_before_reference_uses_base_rate() {
    let curve = CurveCalculator::RedemptionRate {
        rate_numerator: 3,
        rate_denominator: 2,
        rate_accrual_per_second: 7,
        reference_timestamp: 1_000,
    };
    let amm = amm_with_reserves(curve, no_fees(), 1_000, 10_000);
    let q = amm
        .quote(&TradeRequest { input_mint: id(4), amount: 10, timestamp: Some(5) })
        .unwrap();
    assert_eq!(q.out_amount, 15); // 10 * 3 / 2, no accrual before the reference
}

#[test]
fn redemption_rate_draining_destination_fails() {
    let curve = CurveCalculator::RedemptionRate {
        rate_numerator: 2,
        rate_denominator: 1,
        rate_accrual_per_second: 1,
        reference_timestamp: 100,
    };
    let amm = amm_with_reserves(curve, no_fees(), 1_000, 100);
    let r = amm.quote(&TradeRequest { input_mint: id(4), amount: 10, timestamp: Some(110) });
    assert_eq!(r.unwrap_err(), SwapError::InsufficientLiquidity);
}

#[test]
fn stable_curve_blends_components() {
    // amp 100, equal reserves of 1_000_000, input 1_000, no fee:
    // constant-sum part 1_000, constant-product part 999,
    // output floor((100 * 1_000 + 999) / 101) = 999.
    let amm = amm_with_reserves(CurveCalculator::Stable { amp: 100 }, no_fees(), 1_000_000, 1_000_000);
    let q = amm
        .quote(&TradeRequest { input_mint: id(4), amount: 1_000, timestamp: None })
        .unwrap();
    assert_eq!(q.out_amount, 999);
}

#[test]
fn unknown_asset_fails() {
    let amm = amm_with_reserves(CurveCalculator::ConstantProduct, no_fees(), 1_000, 1_000);
    let r = amm.quote(&TradeRequest { input_mint: id(99), amount: 10, timestamp: None });
    assert_eq!(r.unwrap_err(), SwapError::UnknownAsset);
}

#[test]
fn output_monotone_in_input() {
    let amm = amm_with_reserves(
        CurveCalculator::ConstantProduct,
        fees(30, 10_000, 0, 10_000),
        1_000_000,
        2_000_000,
    );
    let mut last = 0u64;
    for amount in [0u64, 1, 10, 100, 1_000, 10_000, 100_000] {
        let q = amm
            .quote(&TradeRequest { input_mint: id(4), amount, timestamp: None })
            .unwrap();
        assert!(q.out_amount >= last);
        last = q.out_amount;
    }
}

#[test]
fn round_trip_never_profits() {
    let x = 1_000_000u64;
    let y = 2_000_000u64;
    let a = 1_000u64;
    let amm = amm_with_reserves(CurveCalculator::ConstantProduct, no_fees(), x, y);
    let b = amm
        .quote(&TradeRequest { input_mint: id(4), amount: a, timestamp: None })
        .unwrap()
        .out_amount;
    // Send the output straight back against the updated reserves.
    let mut back = amm;
    back.update(x + a, y - b);
    let c = back
        .quote(&TradeRequest { input_mint: id(5), amount: b, timestamp: None })
        .unwrap()
        .out_amount;
    assert!(c <= a);
}

#[test]
fn fee_identity_is_exact() {
    let f = fees(37, 991, 11, 991);
    for gross in [0u128, 1, 2, 990, 991, 992, 1_000_000_007] {
        let (net, trade_fee, owner_fee) = f.apply_fees(gross).unwrap();
        assert_eq!(trade_fee + owner_fee + net, gross);
        assert_eq!(trade_fee, gross * 37 / 991);
        assert_eq!(owner_fee, gross * 11 / 991);
    }
}

#[test]
fn apply_fees_overflow_is_detected() {
    let f = fees(2, 10, 0, 10);
    assert_eq!(f.apply_fees(u128::MAX).unwrap_err(), SwapError::Overflow);
}

#[test]
fn fee_pct_requires_common_denominator() {
    let f = fees(30, 10_000, 5, 10_000);
    let pct = f.fee_pct().unwrap();
    assert_eq!(pct.numerator, 35);
    assert_eq!(pct.denominator, 10_000);
    let mismatched = fees(30, 10_000, 5, 100);
    assert_eq!(mismatched.fee_pct().unwrap_err(), SwapError::ConfigurationError);
}

#[test]
fn fees_constructor_rejects_inconsistent_schedules() {
    assert_eq!(Fees::new(1, 0, 0, 1).unwrap_err(), SwapError::ConfigurationError);
    assert_eq!(Fees::new(0, 1, 1, 0).unwrap_err(), SwapError::ConfigurationError);
    assert_eq!(Fees::new(2, 1, 0, 1).unwrap_err(), SwapError::ConfigurationError);
    assert_eq!(Fees::new(0, 1, 2, 1).unwrap_err(), SwapError::ConfigurationError);
    let f = Fees::new(30, 10_000, 5, 10_000).unwrap();
    assert_eq!(f.trade_fee_numerator, 30);
    assert_eq!(f.owner_trade_fee_denominator, 10_000);
}

#[test]
fn combined_fees_exceeding_gross_fail() {
    // Both components at 100%: together they would take more than the gross.
    let f = fees(1, 1, 1, 1);
    assert_eq!(f.apply_fees(5).unwrap_err(), SwapError::ConfigurationError);
}

#[test]
fn quote_output_above_u64_fails() {
    let mut amm = NovaPsmAmm::new(id(7), id(8), pool(CurveCalculator::ConstantProduct, no_fees()))
        .unwrap();
    // A destination reserve beyond 64 bits makes the output overflow the
    // caller's amount type.
    amm.reserves = [1u128, u128::MAX];
    let r = amm.quote(&TradeRequest { input_mint: id(4), amount: 1, timestamp: None });
    assert_eq!(r.unwrap_err(), SwapError::Overflow);
}

#[test]
fn constructor_rejects_bad_curve_or_fees() {
    let bad_curve = pool(CurveCalculator::Stable { amp: 0 }, no_fees());
    assert_eq!(
        NovaPsmAmm::new(id(7), id(8), bad_curve).unwrap_err(),
        SwapError::ConfigurationError
    );
    let bad_fees = pool(CurveCalculator::ConstantProduct, fees(2, 1, 0, 1));
    assert_eq!(
        NovaPsmAmm::new(id(7), id(8), bad_fees).unwrap_err(),
        SwapError::ConfigurationError
    );
    let bad_rate = pool(
        CurveCalculator::RedemptionRate {
            rate_numerator: 1,
            rate_denominator: 0,
            rate_accrual_per_second: 0,
            reference_timestamp: 0,
        },
        no_fees(),
    );
    assert_eq!(
        NovaPsmAmm::new(id(7), id(8), bad_rate).unwrap_err(),
        SwapError::ConfigurationError
    );
}

#[test]
fn copies_are_independent() {
    let original = amm_with_reserves(CurveCalculator::ConstantProduct, no_fees(), 10, 20);
    let mut copy = original.clone();
    copy.update(1_000, 2_000);
    assert_eq!(original.reserves, [10u128, 20u128]);
    assert_eq!(copy.reserves, [1_000u128, 2_000u128]);
}

#[test]
fn adapter_accessors() {
    let amm = amm_with_reserves(CurveCalculator::ConstantProduct, no_fees(), 10, 20);
    assert_eq!(amm.label(), "NOVA PSM");
    assert_eq!(amm.key().bytes, [7u8; 32]);
    assert_eq!(amm.program_id().bytes, [8u8; 32]);
    let mints = amm.get_reserve_mints();
    assert_eq!(mints.len(), 2);
    assert_eq!(mints[0].bytes, [4u8; 32]);
    assert_eq!(mints[1].bytes, [5u8; 32]);
    let accounts = amm.get_accounts_to_update();
    assert_eq!(accounts.len(), 2);
    assert_eq!(accounts[0].bytes, [1u8; 32]);
    assert_eq!(accounts[1].bytes, [2u8; 32]);
    assert!(!amm.has_dynamic_accounts());
    assert!(!amm.requires_update_for_reserve_mints());
    assert!(!amm.supports_exact_out());
    assert_eq!(amm.get_accounts_len(), 32);
}

#[test]
fn swap_accounts_follow_source_mint() {
    let amm = amm_with_reserves(CurveCalculator::ConstantProduct, no_fees(), 10, 20);
    let params = SwapParams {
        token_transfer_authority: id(10),
        source_token_account: id(11),
        destination_token_account: id(12),
        source_mint: id(4),
        token_program: id(13),
        authority: id(14),
    };
    let metas = amm.get_swap_and_account_metas(&params);
    assert_eq!(metas.token_swap_program.bytes, [8u8; 32]);
    assert_eq!(metas.token_program.bytes, [13u8; 32]);
    assert_eq!(metas.swap.bytes, [7u8; 32]);
    assert_eq!(metas.authority.bytes, [14u8; 32]);
    assert_eq!(metas.user_transfer_authority.bytes, [10u8; 32]);
    assert_eq!(metas.source.bytes, [11u8; 32]);
    assert_eq!(metas.destination.bytes, [12u8; 32]);
    assert_eq!(metas.pool_mint.bytes, [3u8; 32]);
    assert_eq!(metas.pool_fee.bytes, [6u8; 32]);
    assert_eq!(metas.swap_source.bytes, [1u8; 32]);
    assert_eq!(metas.swap_destination.bytes, [2u8; 32]);

    let reversed = amm.get_swap_and_account_metas(&SwapParams { source_mint: id(5), ..params });
    assert_eq!(reversed.swap_source.bytes, [2u8; 32]);
    assert_eq!(reversed.swap_destination.bytes, [1u8; 32]);
}

#[test]
fn evaluator_passes_curve_errors_through() {
    let r = get_swap_curve_result(
        &CurveCalculator::ConstantProduct,
        100,
        0,
        1_000,
        TradeDirection::AtoB,
        &no_fees(),
        None,
    );
    assert_eq!(r.unwrap_err(), SwapError::InsufficientLiquidity);
}

#[test]
fn evaluator_reports_mismatched_denominators() {
    let r = get_swap_curve_result(
        &CurveCalculator::ConstantProduct,
        100,
        1_000_000,
        1_000_000,
        TradeDirection::AtoB,
        &fees(30, 10_000, 5, 100),
        None,
    );
    assert_eq!(r.unwrap_err(), SwapError::ConfigurationError);
}

#[test]
fn evaluator_sums_fee_components() {
    let r = get_swap_curve_result(
        &CurveCalculator::ConstantProduct,
        10_000,
        1_000_000,
        1_000_000,
        TradeDirection::AtoB,
        &fees(30, 10_000, 5, 10_000),
        None,
    )
    .unwrap();
    assert_eq!(r.input_amount, 10_000);
    assert_eq!(r.fees, 30 + 5);
    assert_eq!(r.fee_pct.numerator, 35);
}

#[test]
fn account_id_comparison_is_bytewise() {
    let a = id(42);
    let b = id(42);
    let mut c = id(42);
    c.bytes[31] = 7;
    assert!(a.same_as(&b));
    assert!(!a.same_as(&c));
}

#[test]
fn error_messages_are_stable() {
    assert_eq!(SwapError::InsufficientLiquidity.message(), "insufficient liquidity");
    assert_eq!(SwapError::Overflow.message(), "arithmetic overflow");
    assert_eq!(SwapError::MissingTimestamp.message(), "missing timestamp");
    assert_eq!(SwapError::UnknownAsset.message(), "unknown asset");
    assert_eq!(SwapError::ConfigurationError.message(), "inconsistent fee configuration");
}
