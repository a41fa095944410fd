//! The wallet session and the requests made of the wallet.

pub mod rpc;
pub mod use_ethereum;
