//! Wallet session state for an injected EIP-1193 provider.
//!
//! The crate keeps what a user interface shows of a browser wallet: whether
//! the wallet is connected, which accounts it exposes and which chain it is
//! on. Provider events are applied to that state by verified transitions, and
//! the requests sent to the wallet are framed here as plain values.

pub mod text;
pub mod types;
pub mod hooks;
pub mod components;
