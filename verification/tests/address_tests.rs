use dex_arbitrage::address::Address;
use dex_arbitrage::config::{AddressField, Config, ConfigError};

const QUICKSWAP: &str = "0xa5E0829CaCEd8fFDD4De3c43696c57F7D7A678ff";
const SUSHISWAP: &str = "0x1b02dA8Cb0d097eB8D57A175b88c7D8b47997506";
const WETH: &str = "0x7ceB23fD6bC0adD59E62ac25578270cFf1b9f619";
const USDC: &str = "0x2791Bca1f2de4661ED88A30C99A7a9449Aa84174";

const QUICKSWAP_BYTES: [u8; 20] = [
    165, 224, 130, 156, 172, 237, 143, 253, 212, 222, 60, 67, 105, 108, 87, 247, 215, 166, 120,
    255,
];

const SUSHISWAP_BYTES: [u8; 20] =
    [27, 2, 218, 140, 176, 208, 151, 235, 141, 87, 161, 117, 184, 140, 125, 139, 71, 153, 117, 6];

fn config(quickswap: &str, sushiswap: &str, weth: &str, usdc: &str) -> Config {
    Config {
        rpc_url: String::from("https://polygon-rpc.com"),
        quickswap_router: String::from(quickswap),
        sushiswap_router: String::from(sushiswap),
        weth: String::from(weth),
        usdc: String::from(usdc),
        trade_size: 1,
        min_profit: 10,
        gas_cost: 5,
    }
}

#[test]
fn address_with_prefix() {
    assert_eq!(Address::parse(QUICKSWAP), Some(Address { bytes: QUICKSWAP_BYTES }));
    assert_eq!(Address::parse(SUSHISWAP), Some(Address { bytes: SUSHISWAP_BYTES }));
}

#[test]
fn address_without_prefix() {
    assert_eq!(
        Address::parse("a5E0829CaCEd8fFDD4De3c43696c57F7D7A678ff"),
        Some(Address { bytes: QUICKSWAP_BYTES })
    );
}

#[test]
fn address_in_either_case() {
    assert_eq!(
        Address::parse("0xA5E0829CACED8FFDD4DE3C43696C57F7D7A678FF"),
        Some(Address { bytes: QUICKSWAP_BYTES })
    );
    assert_eq!(
        Address::parse("0xa5e0829caced8ffdd4de3c43696c57f7d7a678ff"),
        Some(Address { bytes: QUICKSWAP_BYTES })
    );
}

#[test]
fn address_of_zeros_and_of_ones() {
    assert_eq!(
        Address::parse("0x0000000000000000000000000000000000000000"),
        Some(Address { bytes: [0; 20] })
    );
    assert_eq!(
        Address::parse("ffffffffffffffffffffffffffffffffffffffff"),
        Some(Address { bytes: [255; 20] })
    );
    assert_eq!(
        Address::parse("0x000102030405060708090a0b0c0d0e0f10111213"),
        Some(Address {
            bytes: [0, 1, 2, 3, 4, 5, 6, 7, 8, 9, 10, 11, 12, 13, 14, 15, 16, 17, 18, 19]
        })
    );
}

#[test]
fn white_space_among_the_digits_counts_for_nothing() {
    assert_eq!(
        Address::parse("0xa5E0829CaCEd8fFDD4De 3c43696c57F7D7A678ff\n"),
        Some(Address { bytes: QUICKSWAP_BYTES })
    );
    assert_eq!(
        Address::parse("a 5\tE0829CaCEd8fFDD4De3c43696c57F7D7A678f\r\nf"),
        Some(Address { bytes: QUICKSWAP_BYTES })
    );
}

#[test]
fn white_space_before_the_prefix_hides_it() {
    assert_eq!(Address::parse(" 0xa5E0829CaCEd8fFDD4De3c43696c57F7D7A678ff"), None);
}

#[test]
fn wrong_length_is_no_address() {
    assert_eq!(Address::parse(""), None);
    assert_eq!(Address::parse("0x"), None);
    assert_eq!(Address::parse("0xa5E0829CaCEd8fFDD4De3c43696c57F7D7A678f"), None);
    assert_eq!(Address::parse("0xa5E0829CaCEd8fFDD4De3c43696c57F7D7A678"), None);
    assert_eq!(Address::parse("0xa5E0829CaCEd8fFDD4De3c43696c57F7D7A678ff0"), None);
    assert_eq!(Address::parse("0xa5E0829CaCEd8fFDD4De3c43696c57F7D7A678ff00"), None);
}

#[test]
fn other_characters_are_no_address() {
    assert_eq!(Address::parse("0xg5E0829CaCEd8fFDD4De3c43696c57F7D7A678ff"), None);
    assert_eq!(Address::parse("0Xa5E0829CaCEd8fFDD4De3c43696c57F7D7A678ff"), None);
    assert_eq!(Address::parse("0x0xa5E0829CaCEd8fFDD4De3c43696c57F7D7A678"), None);
    assert_eq!(Address::parse("0xa5E0829CaCEd8fFDD4De3c43696c57F7D7A678ff!"), None);
    assert_eq!(Address::parse("0xa5E0829CaCEd8fFDD4De3c43696c57F7D7A678f\u{e9}"), None);
    assert_eq!(Address::parse("\u{e9}5E0829CaCEd8fFDD4De3c43696c57F7D7A678ff"), None);
    assert_eq!(Address::parse("not an address"), None);
}

#[test]
fn settings_with_four_addresses_resolve() {
    let market = config(QUICKSWAP, SUSHISWAP, WETH, USDC).resolve().unwrap();
    assert_eq!(market.quickswap_router, Address { bytes: QUICKSWAP_BYTES });
    assert_eq!(market.sushiswap_router, Address { bytes: SUSHISWAP_BYTES });
    assert_eq!(market.path.len(), 2);
    assert_eq!(market.path.tokens()[0], Address::parse(WETH).unwrap());
    assert_eq!(market.path.tokens()[1], Address::parse(USDC).unwrap());
    assert_ne!(market.path.tokens()[0], market.path.tokens()[1]);
}

#[test]
fn each_malformed_address_is_named() {
    assert_eq!(
        config("router", SUSHISWAP, WETH, USDC).resolve(),
        Err(ConfigError::InvalidAddress(AddressField::QuickswapRouter))
    );
    assert_eq!(
        config(QUICKSWAP, "0x1234", WETH, USDC).resolve(),
        Err(ConfigError::InvalidAddress(AddressField::SushiswapRouter))
    );
    assert_eq!(
        config(QUICKSWAP, SUSHISWAP, "", USDC).resolve(),
        Err(ConfigError::InvalidAddress(AddressField::Weth))
    );
    assert_eq!(
        config(QUICKSWAP, SUSHISWAP, WETH, "0xzz91Bca1f2de4661ED88A30C99A7a9449Aa84174").resolve(),
        Err(ConfigError::InvalidAddress(AddressField::Usdc))
    );
}

#[test]
fn the_first_malformed_address_is_named() {
    assert_eq!(
        config("bad", "bad", "bad", "bad").resolve(),
        Err(ConfigError::InvalidAddress(AddressField::Weth))
    );
    assert_eq!(
        config("bad", "bad", WETH, "bad").resolve(),
        Err(ConfigError::InvalidAddress(AddressField::Usdc))
    );
    assert_eq!(
        config("bad", "bad", WETH, USDC).resolve(),
        Err(ConfigError::InvalidAddress(AddressField::QuickswapRouter))
    );
}
