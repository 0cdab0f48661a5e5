//! What a venue answers when asked to price a swap, and what that answer is
//! worth as a quote.

use crate::address::Address;
use crate::normalize::{fraction_part, normalize, whole_part, Decimal};
use crate::uint256::Uint256;
use vstd::prelude::*;

verus! {

/// The route of a swap: token addresses from the one paid in to the one
/// paid out, at least two of them.
#[derive(Debug, PartialEq, Eq)]
pub struct TokenPath {
    tokens: Vec<Address>,
}

impl View for TokenPath {
    type V = Seq<Address>;

    closed spec fn view(&self) -> Seq<Address> {
        self.tokens@
    }
}

impl TokenPath {
    #[verifier::type_invariant]
    spec fn long_enough(&self) -> bool {
        self.tokens@.len() >= 2
    }

    /// The direct route from `input` to `output`.
    pub fn pair(input: Address, output: Address) -> (path: TokenPath)
        ensures
            path@ == seq![input, output],
    {
        let mut tokens: Vec<Address> = Vec::new();
        tokens.push(input);
        tokens.push(output);
        assert(tokens@ =~= seq![input, output]);
        TokenPath { tokens }
    }

    /// The route through `tokens`, where they are at least two.
    pub fn new(tokens: Vec<Address>) -> (path: Option<TokenPath>)
        ensures
            path.is_some() <==> tokens@.len() >= 2,
            path matches Some(p) ==> p@ == tokens@,
    {
        if tokens.len() >= 2 {
            Some(TokenPath { tokens })
        } else {
            None
        }
    }

    /// How many tokens the route names: never fewer than two.
    pub fn len(&self) -> (count: usize)
        ensures
            count == self@.len(),
            count >= 2,
    {
        proof {
            use_type_invariant(self);
        }
        self.tokens.len()
    }

    /// The tokens of the route, in order.
    pub fn tokens(&self) -> (tokens: &Vec<Address>)
        ensures
            tokens@ == self@,
            tokens@.len() >= 2,
    {
        proof {
            use_type_invariant(self);
        }
        &self.tokens
    }
}

/// Why a call to the node did not come back with an answer.
#[derive(Clone, Copy, Debug, PartialEq, Eq)]
pub enum RpcError {
    /// The node could not be reached.
    Connection,
    /// The node did not answer in time.
    Timeout,
    /// The answer could not be read.
    MalformedResponse,
    /// The contract refused the call, as it does for a route without liquidity.
    Reverted,
}

/// Why an answer that did come back is not one a venue should give.
#[derive(Clone, Copy, Debug, PartialEq, Eq)]
pub enum ProtocolError {
    /// The venue returned fewer amounts than the route has tokens.
    ShortResponse { expected: usize, received: usize },
    /// A quoted amount is too large to be compared as a price.
    AmountOutOfRange,
}

/// Why no quote could be had from a venue.
#[derive(Clone, Copy, Debug, PartialEq, Eq)]
pub enum QuoteError {
    Rpc(RpcError),
    Protocol(ProtocolError),
}

/// A venue's prediction for one swap: paying `input_amount` in brings
/// `output_amount` out, both in the smallest unit of their token; `decimals`
/// is the number of decimals of the token paid out.
#[derive(Clone, Copy, Debug, PartialEq, Eq)]
pub struct Quote {
    pub input_amount: Uint256,
    pub output_amount: Uint256,
    pub decimals: u32,
}

/// The quote that a venue's answer amounts to. A failed call passes its error
/// on; an answer with fewer amounts than `path_len` is a breach of protocol;
/// otherwise the amount at the last position of the route is what comes out.
pub open spec fn quote_of(
    input_amount: Uint256,
    path_len: nat,
    decimals: u32,
    response: Result<Vec<Uint256>, RpcError>,
) -> Result<Quote, QuoteError> {
    match response {
        Err(error) => Err(QuoteError::Rpc(error)),
        Ok(amounts) => if amounts@.len() < path_len {
            Err(
                QuoteError::Protocol(
                    ProtocolError::ShortResponse {
                        expected: path_len as usize,
                        received: amounts@.len() as usize,
                    },
                ),
            )
        } else {
            Ok(Quote { input_amount, output_amount: amounts@[path_len - 1], decimals })
        },
    }
}

/// Turns the answer to one call of a venue, for `input_amount` along `path`,
/// into a quote. The call itself is the caller's: `response` is what came
/// back from it, the amounts along the route or the reason for none.
pub fn get_price(
    input_amount: Uint256,
    path: &TokenPath,
    decimals: u32,
    response: Result<Vec<Uint256>, RpcError>,
) -> (quote: Result<Quote, QuoteError>)
    ensures
        quote == quote_of(input_amount, path@.len(), decimals, response),
{
    let expected = path.len();
    match response {
        Err(error) => Err(QuoteError::Rpc(error)),
        Ok(amounts) => {
            let received = amounts.len();
            if received < expected {
                Err(QuoteError::Protocol(ProtocolError::ShortResponse { expected, received }))
            } else {
                Ok(Quote { input_amount, output_amount: amounts[expected - 1], decimals })
            }
        },
    }
}

impl Quote {
    /// The amount paid out with its decimal point in place.
    pub fn normalized(&self) -> (value: Decimal)
        ensures
            value.whole@ == whole_part(self.output_amount@, self.decimals as nat),
            value.fraction@ == fraction_part(self.output_amount@, self.decimals as nat),
            value.decimals == self.decimals,
    {
        normalize(self.output_amount, self.decimals)
    }

    /// The amount paid out as a price: the number of smallest units of the
    /// output token per input amount, where a signed 64-bit integer holds it.
    pub fn unit_price(&self) -> (price: Result<i64, ProtocolError>)
        ensures
            price == unit_price_of(*self),
    {
        match self.output_amount.to_i64() {
            Some(price) => Ok(price),
            None => Err(ProtocolError::AmountOutOfRange),
        }
    }
}

/// The price that a quote stands for, or the error where its amount is
/// above the largest price.
pub open spec fn unit_price_of(quote: Quote) -> Result<i64, ProtocolError> {
    if quote.output_amount@ <= i64::MAX {
        Ok(quote.output_amount@ as i64)
    } else {
        Err(ProtocolError::AmountOutOfRange)
    }
}

} // verus!
