//! The settings of a run, and the addresses that they name.

use crate::address::{address_bytes, is_address_text, Address};
use crate::quote::TokenPath;
use vstd::prelude::*;

verus! {

/// The settings of a run.
///
/// The four addresses are kept as the text that was read. The three numbers
/// are whole: the trade size counted in lots of the caller's choosing, the
/// least profit and the fixed cost in the unit of a price times a lot.
#[derive(Debug, PartialEq, Eq)]
pub struct Config {
    pub rpc_url: String,
    pub quickswap_router: String,
    pub sushiswap_router: String,
    pub weth: String,
    pub usdc: String,
    pub trade_size: i64,
    pub min_profit: i64,
    pub gas_cost: i64,
}

/// The settings that hold an address.
#[derive(Clone, Copy, Debug, PartialEq, Eq)]
pub enum AddressField {
    Weth,
    Usdc,
    QuickswapRouter,
    SushiswapRouter,
}

/// Why the settings cannot be used.
#[derive(Clone, Copy, Debug, PartialEq, Eq)]
pub enum ConfigError {
    /// The settings could not be read.
    Unreadable,
    /// What was read is not a set of settings.
    Unparsable,
    /// The named setting does not spell an address.
    InvalidAddress(AddressField),
}

/// The two venues and the route to price on each.
#[derive(Debug, PartialEq, Eq)]
pub struct Market {
    pub quickswap_router: Address,
    pub sushiswap_router: Address,
    pub path: TokenPath,
}

impl Config {
    /// The first setting that does not spell an address, taking the tokens
    /// before the venues; nothing where all four do.
    pub open spec fn first_malformed(&self) -> Option<AddressField> {
        if !is_address_text(self.weth@) {
            Some(AddressField::Weth)
        } else if !is_address_text(self.usdc@) {
            Some(AddressField::Usdc)
        } else if !is_address_text(self.quickswap_router@) {
            Some(AddressField::QuickswapRouter)
        } else if !is_address_text(self.sushiswap_router@) {
            Some(AddressField::SushiswapRouter)
        } else {
            None
        }
    }

    /// Reads the four addresses. Succeeds exactly where each of them spells
    /// an address, and otherwise names the first that does not; the route
    /// runs from `weth` to `usdc`.
    pub fn resolve(&self) -> (market: Result<Market, ConfigError>)
        ensures
            match market {
                Ok(m) => {
                    &&& self.first_malformed().is_none()
                    &&& m.quickswap_router@ == address_bytes(self.quickswap_router@)
                    &&& m.sushiswap_router@ == address_bytes(self.sushiswap_router@)
                    &&& m.path@.len() == 2
                    &&& m.path@[0]@ == address_bytes(self.weth@)
                    &&& m.path@[1]@ == address_bytes(self.usdc@)
                },
                Err(error) => {
                    &&& self.first_malformed().is_some()
                    &&& error == ConfigError::InvalidAddress(self.first_malformed().unwrap())
                },
            },
    {
        let weth = match Address::parse(self.weth.as_str()) {
            Some(address) => address,
            None => {
                return Err(ConfigError::InvalidAddress(AddressField::Weth));
            },
        };
        let usdc = match Address::parse(self.usdc.as_str()) {
            Some(address) => address,
            None => {
                return Err(ConfigError::InvalidAddress(AddressField::Usdc));
            },
        };
        let quickswap_router = match Address::parse(self.quickswap_router.as_str()) {
            Some(address) => address,
            None => {
                return Err(ConfigError::InvalidAddress(AddressField::QuickswapRouter));
            },
        };
        let sushiswap_router = match Address::parse(self.sushiswap_router.as_str()) {
            Some(address) => address,
            None => {
                return Err(ConfigError::InvalidAddress(AddressField::SushiswapRouter));
            },
        };
        Ok(Market { quickswap_router, sushiswap_router, path: TokenPath::pair(weth, usdc) })
    }
}

} // verus!
