use dex_arbitrage::profit::{classify, simulate_profit, Classification};

#[test]
fn spread_of_ten_less_cost_of_five() {
    assert_eq!(simulate_profit(2000, 2010, 1, 5), 5);
}

#[test]
fn no_spread_loses_the_fixed_cost() {
    let profit = simulate_profit(2000, 2000, 1, 5);
    assert_eq!(profit, -5);
    assert_eq!(classify(profit, 0), Classification::NoOpportunity);
}

#[test]
fn two_units_at_spread_of_fifty() {
    let profit = simulate_profit(2000, 2050, 2, 10);
    assert_eq!(profit, 90);
    assert_eq!(classify(profit, 50), Classification::Opportunity);
    assert_eq!(classify(profit, 90), Classification::NoOpportunity);
}

#[test]
fn scaled_prices_give_scaled_profit() {
    // 2000.00 and 2010.00 at six decimals, one unit as a million lots.
    let profit = simulate_profit(2_000_000_000, 2_010_000_000, 1_000_000, 5_000_000_000_000);
    assert_eq!(profit, 5_000_000_000_000);
}

#[test]
fn order_of_prices_does_not_matter() {
    assert_eq!(simulate_profit(1999, 2051, 3, 7), simulate_profit(2051, 1999, 3, 7));
    assert_eq!(simulate_profit(1999, 2051, 3, 7), 149);
    assert_eq!(simulate_profit(-4, 9, 2, 1), simulate_profit(9, -4, 2, 1));
    assert_eq!(simulate_profit(-4, 9, 2, 1), 25);
}

#[test]
fn equal_prices_give_minus_gas() {
    assert_eq!(simulate_profit(0, 0, 0, 0), 0);
    assert_eq!(simulate_profit(17, 17, 1_000, 42), -42);
    assert_eq!(simulate_profit(i64::MAX, i64::MAX, i64::MAX, i64::MAX), -(i64::MAX as i128));
    assert_eq!(simulate_profit(5, 5, 3, -8), 8);
}

#[test]
fn wider_spread_gives_more() {
    let narrow = simulate_profit(100, 110, 4, 3);
    let wide = simulate_profit(100, 125, 4, 3);
    assert_eq!(narrow, 37);
    assert_eq!(wide, 97);
    assert!(narrow < wide);
    assert_eq!(simulate_profit(100, 110, 0, 3), simulate_profit(100, 125, 0, 3));
}

#[test]
fn higher_gas_gives_less() {
    let cheap = simulate_profit(100, 110, 4, 3);
    let dear = simulate_profit(100, 110, 4, 30);
    assert_eq!(cheap - dear, 27);
    assert!(dear < cheap);
}

#[test]
fn extremes_do_not_overflow() {
    let spread = i64::MAX as i128 - i64::MIN as i128;
    assert_eq!(
        simulate_profit(i64::MIN, i64::MAX, i64::MAX, i64::MIN),
        spread * i64::MAX as i128 - i64::MIN as i128
    );
    assert_eq!(
        simulate_profit(i64::MAX, i64::MIN, i64::MIN, i64::MAX),
        spread * i64::MIN as i128 - i64::MAX as i128
    );
}

#[test]
fn negative_trade_size_is_not_rejected() {
    assert_eq!(simulate_profit(10, 30, -2, 1), -41);
}

#[test]
fn classification_is_strict() {
    assert_eq!(classify(1, 0), Classification::Opportunity);
    assert_eq!(classify(0, 0), Classification::NoOpportunity);
    assert_eq!(classify(-1, 0), Classification::NoOpportunity);
    assert_eq!(classify(-1, -2), Classification::Opportunity);
    assert_eq!(classify(i128::MAX, i128::MAX), Classification::NoOpportunity);
    assert_eq!(classify(i128::MIN, i128::MAX), Classification::NoOpportunity);
    assert_eq!(classify(i128::MAX, i128::MIN), Classification::Opportunity);
}
