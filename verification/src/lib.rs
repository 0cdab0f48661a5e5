//! Price comparison between two swap venues and the decision whether the
//! spread between them pays for a trade.

pub mod address;
pub mod config;
pub mod cycle;
pub mod normalize;
pub mod profit;
pub mod quote;
pub mod uint256;
