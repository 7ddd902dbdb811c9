use ignition_payout::decimal::Decimal;
use ignition_payout::payout::{compute_payout, Payout, PayoutError};
use ignition_payout::price::{Price, ResourceAddress};
use ignition_payout::settlement::{
    amount_of, fee_for, settle, CloseLiquidityPositionOutput, ComponentAddress, LiquidityReceipt,
    Volatility,
};

const ONE: i128 = 1_000_000_000_000_000_000;

fn user() -> ResourceAddress {
    ResourceAddress { high: 1, low: 11 }
}

fn xrd() -> ResourceAddress {
    ResourceAddress { high: 2, low: 22 }
}

fn other() -> ResourceAddress {
    ResourceAddress { high: 3, low: 33 }
}

fn units(n: i64) -> Decimal {
    Decimal::from_units(n)
}

fn price_of_user_in_xrd(attos: i128) -> Price {
    Price { base: user(), quote: xrd(), price: Decimal::from_attos(attos) }
}

#[test]
fn no_protection_caps_user_at_contribution_plus_fees() {
    let p = compute_payout(units(1000), units(1200), units(0), units(50), user(), &price_of_user_in_xrd(2 * ONE));
    assert_eq!(
        p,
        Ok(Payout { reserve_payout: units(0), user_payout: units(1050), realized_fee: units(50) })
    );
}

#[test]
fn protection_pays_shortfall_capped_by_reserve() {
    let price = price_of_user_in_xrd(2 * ONE);
    assert_eq!(price.exchange(user(), units(400)), Some((xrd(), units(800))));
    let p = compute_payout(units(1000), units(600), units(500), units(30), user(), &price);
    assert_eq!(
        p,
        Ok(Payout { reserve_payout: units(500), user_payout: units(600), realized_fee: units(0) })
    );
}

#[test]
fn protection_pays_full_shortfall_when_reserve_suffices() {
    let price = price_of_user_in_xrd(2 * ONE);
    let p = compute_payout(units(1000), units(600), units(900), units(30), user(), &price);
    assert_eq!(
        p,
        Ok(Payout { reserve_payout: units(800), user_payout: units(600), realized_fee: units(0) })
    );
}

#[test]
fn protection_with_user_resource_as_quote_divides() {
    // One unit of XRD costs four units of the user resource.
    let price = Price { base: xrd(), quote: user(), price: units(4) };
    let p = compute_payout(units(1000), units(600), units(500), units(0), user(), &price);
    assert_eq!(
        p,
        Ok(Payout { reserve_payout: units(100), user_payout: units(600), realized_fee: units(0) })
    );
}

#[test]
fn zero_amounts_give_zero_payout() {
    let p = compute_payout(units(0), units(0), units(0), units(0), user(), &price_of_user_in_xrd(ONE));
    assert_eq!(
        p,
        Ok(Payout { reserve_payout: units(0), user_payout: units(0), realized_fee: units(0) })
    );
}

#[test]
fn equality_takes_no_protection_branch() {
    let p = compute_payout(units(1000), units(1000), units(7), units(50), user(), &price_of_user_in_xrd(ONE));
    assert_eq!(
        p,
        Ok(Payout { reserve_payout: units(0), user_payout: units(1000), realized_fee: units(50) })
    );
}

#[test]
fn user_payout_below_cap_is_what_was_returned() {
    let p = compute_payout(units(1000), units(1020), units(0), units(50), user(), &price_of_user_in_xrd(ONE));
    assert_eq!(
        p,
        Ok(Payout { reserve_payout: units(0), user_payout: units(1020), realized_fee: units(50) })
    );
}

#[test]
fn price_without_user_resource_is_a_mismatch() {
    let price = Price { base: other(), quote: xrd(), price: units(2) };
    let p = compute_payout(units(1000), units(600), units(500), units(0), user(), &price);
    assert_eq!(p, Err(PayoutError::AssetMismatch));
}

#[test]
fn zero_price_on_quote_side_is_an_arithmetic_failure() {
    let price = Price { base: xrd(), quote: user(), price: units(0) };
    let p = compute_payout(units(1000), units(600), units(500), units(0), user(), &price);
    assert_eq!(p, Err(PayoutError::ArithmeticFailure));
}

#[test]
fn overflowing_cap_is_an_arithmetic_failure() {
    let big = Decimal::from_attos(i128::MAX);
    let p = compute_payout(big, big, units(0), units(1), user(), &price_of_user_in_xrd(ONE));
    assert_eq!(p, Err(PayoutError::ArithmeticFailure));
}

#[test]
fn overflowing_conversion_is_an_arithmetic_failure() {
    let huge_price = price_of_user_in_xrd(i128::MAX);
    let p = compute_payout(units(1000), units(0), units(500), units(0), user(), &huge_price);
    assert_eq!(p, Err(PayoutError::ArithmeticFailure));
}

#[test]
fn exchange_outside_pair_is_not_applicable() {
    let price = price_of_user_in_xrd(2 * ONE);
    assert_eq!(price.exchange(other(), units(10)), None);
    assert_eq!(price.exchange(other(), units(0)), None);
}

#[test]
fn exchange_round_trip_recovers_amount() {
    let price = price_of_user_in_xrd(2 * ONE);
    let (q, converted) = price.exchange(user(), units(400)).unwrap();
    assert_eq!(q, xrd());
    assert_eq!(converted, units(800));
    assert_eq!(price.exchange(q, converted), Some((user(), units(400))));
}

#[test]
fn exchange_round_trip_loses_at_most_rounding() {
    let price = price_of_user_in_xrd(3 * ONE);
    let amount = Decimal::from_attos(ONE / 3);
    let (_, converted) = price.exchange(user(), amount).unwrap();
    assert_eq!(converted, Decimal::from_attos(999_999_999_999_999_999));
    let (_, back) = price.exchange(xrd(), converted).unwrap();
    assert_eq!(back, amount);
}

#[test]
fn decimal_division_truncates_toward_zero() {
    assert_eq!(units(1).checked_div(units(3)), Some(Decimal::from_attos(333_333_333_333_333_333)));
    assert_eq!(units(-1).checked_div(units(3)), Some(Decimal::from_attos(-333_333_333_333_333_333)));
    assert_eq!(units(1).checked_div(units(0)), None);
}

#[test]
fn decimal_multiplication_is_fixed_point() {
    assert_eq!(units(2).checked_mul(units(3)), Some(units(6)));
    let half = Decimal::from_attos(ONE / 2);
    assert_eq!(units(5).checked_mul(half), Some(Decimal::from_attos(5 * ONE / 2)));
    assert_eq!(Decimal::from_attos(1).checked_mul(Decimal::from_attos(1)), Some(units(0)));
    assert_eq!(Decimal::from_attos(i128::MAX).checked_mul(units(2)), None);
}

#[test]
fn lookup_takes_last_entry() {
    let entries = vec![(user(), units(1)), (xrd(), units(2)), (user(), units(3))];
    assert_eq!(amount_of(&entries, user()), Some(units(3)));
    assert_eq!(amount_of(&entries, xrd()), Some(units(2)));
    assert_eq!(amount_of(&entries, other()), None);
}

#[test]
fn fees_are_clamped_to_zero() {
    let fees = vec![(user(), units(-5)), (xrd(), units(4))];
    assert_eq!(fee_for(&fees, user()), units(0));
    assert_eq!(fee_for(&fees, xrd()), units(4));
    assert_eq!(fee_for(&fees, other()), units(0));
}

fn receipt(contributed: i64) -> LiquidityReceipt<()> {
    LiquidityReceipt {
        name: "Position".to_string(),
        lockup_period: "9 months".to_string(),
        pool_address: ComponentAddress { high: 9, low: 99 },
        user_resource_address: user(),
        user_contribution_amount: units(contributed),
        user_resource_volatility_classification: Volatility::Volatile,
        protocol_contribution_amount: units(2000),
        maturity_date: 1_700_000_000,
        adapter_specific_information: (),
    }
}

#[test]
fn settle_reads_returns_and_fees() {
    let returned = vec![(user(), units(1200)), (xrd(), units(10))];
    let output = CloseLiquidityPositionOutput { fees: vec![(user(), units(50)), (xrd(), units(3))] };
    let p = settle(&receipt(1000), &returned, &output, &price_of_user_in_xrd(2 * ONE), xrd());
    assert_eq!(
        p,
        Ok(Payout { reserve_payout: units(0), user_payout: units(1050), realized_fee: units(50) })
    );
}

#[test]
fn settle_without_fee_entry_counts_zero_fee() {
    let returned = vec![(user(), units(1200)), (xrd(), units(10))];
    let output = CloseLiquidityPositionOutput { fees: vec![] };
    let p = settle(&receipt(1000), &returned, &output, &price_of_user_in_xrd(2 * ONE), xrd());
    assert_eq!(
        p,
        Ok(Payout { reserve_payout: units(0), user_payout: units(1000), realized_fee: units(0) })
    );
}

#[test]
fn settle_without_reserve_return_fails() {
    let returned = vec![(user(), units(600))];
    let output = CloseLiquidityPositionOutput { fees: vec![] };
    let p = settle(&receipt(1000), &returned, &output, &price_of_user_in_xrd(2 * ONE), xrd());
    assert_eq!(p, Err(PayoutError::MissingReturnedAmount));
}

#[test]
fn exchange_round_trip_from_quote_side() {
    let price = price_of_user_in_xrd(3 * ONE);
    let (b, converted) = price.exchange(xrd(), units(10)).unwrap();
    assert_eq!(b, user());
    assert_eq!(converted, Decimal::from_attos(3_333_333_333_333_333_333));
    let (q, back) = price.exchange(b, converted).unwrap();
    assert_eq!(q, xrd());
    assert_eq!(back, Decimal::from_attos(9_999_999_999_999_999_999));
}
