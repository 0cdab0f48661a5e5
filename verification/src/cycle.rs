//! One cycle: two quotes in, one verdict out.

use crate::normalize::{fraction_part, whole_part, Decimal};
use crate::profit::{classification, classify, evaluate, simulate_profit, Classification};
use crate::quote::{get_price, quote_of, unit_price_of, Quote, QuoteError, RpcError, TokenPath};
use crate::uint256::Uint256;
use vstd::prelude::*;

verus! {

/// What a cycle reports: the block it ran at, the price at each venue with
/// its decimal point in place, the profit and the verdict.
#[derive(Clone, Copy, Debug, PartialEq, Eq)]
pub struct Report {
    pub block: u64,
    pub price_a: Decimal,
    pub price_b: Decimal,
    pub profit: i128,
    pub outcome: Classification,
}

/// The profit that two quotes allow, or the error of the first of them whose
/// amount is above the largest price.
pub open spec fn profit_of(first: Quote, second: Quote, trade_size: i64, gas_cost: i64) -> Result<
    int,
    QuoteError,
> {
    match (unit_price_of(first), unit_price_of(second)) {
        (Err(error), _) => Err(QuoteError::Protocol(error)),
        (Ok(_), Err(error)) => Err(QuoteError::Protocol(error)),
        (Ok(price_a), Ok(price_b)) => Ok(
            evaluate(price_a as int, price_b as int, trade_size as int, gas_cost as int),
        ),
    }
}

/// Whether `report` is what the two quotes and the profit `profit` come to.
pub open spec fn reports(
    report: Report,
    block: u64,
    first: Quote,
    second: Quote,
    profit: int,
    min_profit: i64,
) -> bool {
    &&& report.block == block
    &&& report.price_a.whole@ == whole_part(first.output_amount@, first.decimals as nat)
    &&& report.price_a.fraction@ == fraction_part(first.output_amount@, first.decimals as nat)
    &&& report.price_a.decimals == first.decimals
    &&& report.price_b.whole@ == whole_part(second.output_amount@, second.decimals as nat)
    &&& report.price_b.fraction@ == fraction_part(second.output_amount@, second.decimals as nat)
    &&& report.price_b.decimals == second.decimals
    &&& report.profit == profit
    &&& report.outcome == classification(profit, min_profit as int)
}

/// Compares two quotes for the same swap. The profit is that of trading
/// `trade_size` lots between the two prices at the fixed cost `gas_cost`;
/// it is an opportunity where it is strictly above `min_profit`.
pub fn assess(
    block: u64,
    first: &Quote,
    second: &Quote,
    trade_size: i64,
    gas_cost: i64,
    min_profit: i64,
) -> (report: Result<Report, QuoteError>)
    ensures
        match profit_of(*first, *second, trade_size, gas_cost) {
            Err(error) => report == Err::<Report, QuoteError>(error),
            Ok(profit) => report.is_ok() && reports(
                report.unwrap(),
                block,
                *first,
                *second,
                profit,
                min_profit,
            ),
        },
{
    let price_a = match first.unit_price() {
        Ok(price) => price,
        Err(error) => {
            return Err(QuoteError::Protocol(error));
        },
    };
    let price_b = match second.unit_price() {
        Ok(price) => price,
        Err(error) => {
            return Err(QuoteError::Protocol(error));
        },
    };
    let profit = simulate_profit(price_a, price_b, trade_size, gas_cost);
    Ok(
        Report {
            block,
            price_a: first.normalized(),
            price_b: second.normalized(),
            profit,
            outcome: classify(profit, min_profit as i128),
        },
    )
}

/// What a whole cycle comes to: the first error met, taking the first venue
/// before the second and the answers before the prices, or else the profit.
pub open spec fn cycle_profit(
    input_amount: Uint256,
    path_len: nat,
    decimals: u32,
    response_a: Result<Vec<Uint256>, RpcError>,
    response_b: Result<Vec<Uint256>, RpcError>,
    trade_size: i64,
    gas_cost: i64,
) -> Result<int, QuoteError> {
    match (
        quote_of(input_amount, path_len, decimals, response_a),
        quote_of(input_amount, path_len, decimals, response_b),
    ) {
        (Err(error), _) => Err(error),
        (Ok(_), Err(error)) => Err(error),
        (Ok(first), Ok(second)) => profit_of(first, second, trade_size, gas_cost),
    }
}

/// Runs one cycle on the answers of the two venues to the same question:
/// what `input_amount` brings along `path`, in a token of `decimals`
/// decimals. Where either venue gave no usable answer the cycle ends with
/// that error and no verdict; otherwise it reports the two prices, the
/// profit and the verdict.
pub fn run_cycle(
    block: u64,
    input_amount: Uint256,
    path: &TokenPath,
    decimals: u32,
    response_a: Result<Vec<Uint256>, RpcError>,
    response_b: Result<Vec<Uint256>, RpcError>,
    trade_size: i64,
    gas_cost: i64,
    min_profit: i64,
) -> (report: Result<Report, QuoteError>)
    ensures
        match cycle_profit(
            input_amount,
            path@.len(),
            decimals,
            response_a,
            response_b,
            trade_size,
            gas_cost,
        ) {
            Err(error) => report == Err::<Report, QuoteError>(error),
            Ok(profit) => report.is_ok() && reports(
                report.unwrap(),
                block,
                quote_of(input_amount, path@.len(), decimals, response_a).unwrap(),
                quote_of(input_amount, path@.len(), decimals, response_b).unwrap(),
                profit,
                min_profit,
            ),
        },
{
    let first = match get_price(input_amount, path, decimals, response_a) {
        Ok(quote) => quote,
        Err(error) => {
            return Err(error);
        },
    };
    let second = match get_price(input_amount, path, decimals, response_b) {
        Ok(quote) => quote,
        Err(error) => {
            return Err(error);
        },
    };
    assess(block, &first, &second, trade_size, gas_cost, min_profit)
}

/// A cycle in which a venue failed gives no verdict, and the error it ends
/// with is the first venue's where that one failed.
pub proof fn lemma_failed_fetch_ends_cycle(
    input_amount: Uint256,
    path_len: nat,
    decimals: u32,
    response_a: Result<Vec<Uint256>, RpcError>,
    response_b: Result<Vec<Uint256>, RpcError>,
    trade_size: i64,
    gas_cost: i64,
)
    requires
        quote_of(input_amount, path_len, decimals, response_a).is_err() || quote_of(
            input_amount,
            path_len,
            decimals,
            response_b,
        ).is_err(),
    ensures
        cycle_profit(
            input_amount,
            path_len,
            decimals,
            response_a,
            response_b,
            trade_size,
            gas_cost,
        ).is_err(),
        quote_of(input_amount, path_len, decimals, response_a) matches Err(error) ==> cycle_profit(
            input_amount,
            path_len,
            decimals,
            response_a,
            response_b,
            trade_size,
            gas_cost,
        ) == Err::<int, QuoteError>(error),
{
}

} // verus!
