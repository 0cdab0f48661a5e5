//! Net profit of buying at the lower of two prices and selling at the higher.

use vstd::prelude::*;

verus! {

/// The lower of two prices: where the trade buys.
pub open spec fn buy_price(price_a: int, price_b: int) -> int {
    if price_a <= price_b {
        price_a
    } else {
        price_b
    }
}

/// The higher of two prices: where the trade sells.
pub open spec fn sell_price(price_a: int, price_b: int) -> int {
    if price_a <= price_b {
        price_b
    } else {
        price_a
    }
}

/// The distance between two prices.
pub open spec fn spread(price_a: int, price_b: int) -> int {
    sell_price(price_a, price_b) - buy_price(price_a, price_b)
}

/// What selling `trade_size` units at the higher price brings in.
pub open spec fn revenue(price_a: int, price_b: int, trade_size: int) -> int {
    sell_price(price_a, price_b) * trade_size
}

/// What buying `trade_size` units at the lower price costs, the fixed cost
/// of the transaction included.
pub open spec fn cost(price_a: int, price_b: int, trade_size: int, gas_cost: int) -> int {
    buy_price(price_a, price_b) * trade_size + gas_cost
}

/// Net profit: revenue less cost.
pub open spec fn evaluate(price_a: int, price_b: int, trade_size: int, gas_cost: int) -> int {
    revenue(price_a, price_b, trade_size) - cost(price_a, price_b, trade_size, gas_cost)
}

/// What a cycle concludes from a profit and the least profit worth acting on.
#[derive(Clone, Copy, Debug, PartialEq, Eq)]
pub enum Classification {
    /// The profit exceeds the threshold.
    Opportunity,
    /// The profit is at most the threshold.
    NoOpportunity,
}

/// A profit is an opportunity only where it is strictly above the threshold.
pub open spec fn classification(profit: int, threshold: int) -> Classification {
    if profit > threshold {
        Classification::Opportunity
    } else {
        Classification::NoOpportunity
    }
}

/// Net profit is the spread times the trade size, less the fixed cost.
pub proof fn lemma_profit_from_spread(price_a: int, price_b: int, trade_size: int, gas_cost: int)
    ensures
        evaluate(price_a, price_b, trade_size, gas_cost) == spread(price_a, price_b) * trade_size
            - gas_cost,
{
    let sell = sell_price(price_a, price_b);
    let buy = buy_price(price_a, price_b);
    assert(sell * trade_size - buy * trade_size == (sell - buy) * trade_size)
        by (nonlinear_arith);
}

/// Exchanging the two prices changes nothing: the trade always buys at the
/// lower and sells at the higher.
pub proof fn lemma_evaluate_symmetric(price_a: int, price_b: int, trade_size: int, gas_cost: int)
    ensures
        evaluate(price_a, price_b, trade_size, gas_cost) == evaluate(
            price_b,
            price_a,
            trade_size,
            gas_cost,
        ),
{
}

/// With no spread between the venues the trade loses exactly its fixed cost.
pub proof fn lemma_evaluate_equal_prices(price: int, trade_size: int, gas_cost: int)
    ensures
        evaluate(price, price, trade_size, gas_cost) == -gas_cost,
{
}

/// With no spread the outcome is an opportunity only where the fixed cost is
/// negative enough to beat the threshold by itself; with a cost and a
/// threshold that are not negative it never is.
pub proof fn lemma_equal_prices_classified(
    price: int,
    trade_size: int,
    gas_cost: int,
    threshold: int,
)
    ensures
        classification(evaluate(price, price, trade_size, gas_cost), threshold)
            == Classification::Opportunity <==> -gas_cost > threshold,
        gas_cost >= 0 && threshold >= 0 ==> classification(
            evaluate(price, price, trade_size, gas_cost),
            threshold,
        ) == Classification::NoOpportunity,
{
}

/// For a trade size that is not negative, a wider spread never lowers the
/// profit, and for a positive trade size it raises it.
pub proof fn lemma_evaluate_grows_with_spread(
    narrow_a: int,
    narrow_b: int,
    wide_a: int,
    wide_b: int,
    trade_size: int,
    gas_cost: int,
)
    requires
        trade_size >= 0,
        spread(narrow_a, narrow_b) <= spread(wide_a, wide_b),
    ensures
        evaluate(narrow_a, narrow_b, trade_size, gas_cost) <= evaluate(
            wide_a,
            wide_b,
            trade_size,
            gas_cost,
        ),
        trade_size > 0 && spread(narrow_a, narrow_b) < spread(wide_a, wide_b) ==> evaluate(
            narrow_a,
            narrow_b,
            trade_size,
            gas_cost,
        ) < evaluate(wide_a, wide_b, trade_size, gas_cost),
{
    lemma_profit_from_spread(narrow_a, narrow_b, trade_size, gas_cost);
    lemma_profit_from_spread(wide_a, wide_b, trade_size, gas_cost);
    let narrow = spread(narrow_a, narrow_b);
    let wide = spread(wide_a, wide_b);
    assert(narrow * trade_size <= wide * trade_size) by (nonlinear_arith)
        requires
            narrow <= wide,
            trade_size >= 0,
    ;
    if trade_size > 0 && narrow < wide {
        assert(narrow * trade_size < wide * trade_size) by (nonlinear_arith)
            requires
                narrow < wide,
                trade_size > 0,
        ;
    }
}

/// A higher fixed cost lowers the profit by as much as it rose.
pub proof fn lemma_evaluate_falls_with_gas(
    price_a: int,
    price_b: int,
    trade_size: int,
    low_gas: int,
    high_gas: int,
)
    requires
        low_gas <= high_gas,
    ensures
        evaluate(price_a, price_b, trade_size, low_gas) >= evaluate(
            price_a,
            price_b,
            trade_size,
            high_gas,
        ),
        evaluate(price_a, price_b, trade_size, low_gas) - evaluate(
            price_a,
            price_b,
            trade_size,
            high_gas,
        ) == high_gas - low_gas,
{
}

/// The net profit of buying `trade_size` units at the lower of the two
/// prices and selling them at the higher, after the fixed cost `gas_cost`.
///
/// The four numbers are counted in units that the caller chooses: the prices
/// in one unit, the trade size in another, the cost and the profit in their
/// product. The result is exact for every input.
pub fn simulate_profit(price_a: i64, price_b: i64, trade_size: i64, gas_cost: i64) -> (profit:
    i128)
    ensures
        profit == evaluate(price_a as int, price_b as int, trade_size as int, gas_cost as int),
{
    let buy: i128 = if price_a <= price_b {
        price_a as i128
    } else {
        price_b as i128
    };
    let sell: i128 = if price_a <= price_b {
        price_b as i128
    } else {
        price_a as i128
    };
    let size: i128 = trade_size as i128;
    proof {
        lemma_profit_from_spread(price_a as int, price_b as int, trade_size as int, gas_cost as int);
        assert(-0x4000_0000_0000_0000_0000_0000_0000_0000 <= sell * size
            <= 0x4000_0000_0000_0000_0000_0000_0000_0000) by (nonlinear_arith)
            requires
                -0x8000_0000_0000_0000 <= sell <= 0x7fff_ffff_ffff_ffff,
                -0x8000_0000_0000_0000 <= size <= 0x7fff_ffff_ffff_ffff,
        ;
        assert(-0x4000_0000_0000_0000_0000_0000_0000_0000 <= buy * size
            <= 0x4000_0000_0000_0000_0000_0000_0000_0000) by (nonlinear_arith)
            requires
                -0x8000_0000_0000_0000 <= buy <= 0x7fff_ffff_ffff_ffff,
                -0x8000_0000_0000_0000 <= size <= 0x7fff_ffff_ffff_ffff,
        ;
        assert(-0x7fff_ffff_ffff_ffff_8000_0000_0000_0000 <= (sell - buy) * size
            <= 0x7fff_ffff_ffff_ffff_0000_0000_0000_0000) by (nonlinear_arith)
            requires
                0 <= sell - buy <= 0xffff_ffff_ffff_ffff,
                -0x8000_0000_0000_0000 <= size <= 0x7fff_ffff_ffff_ffff,
        ;
    }
    let revenue: i128 = sell * size;
    let cost: i128 = buy * size + gas_cost as i128;
    revenue - cost
}

/// Whether a profit is worth acting on: only where it is strictly above the
/// threshold. A profit equal to the threshold is no opportunity.
pub fn classify(profit: i128, threshold: i128) -> (outcome: Classification)
    ensures
        outcome == classification(profit as int, threshold as int),
{
    if profit > threshold {
        Classification::Opportunity
    } else {
        Classification::NoOpportunity
    }
}

} // verus!
