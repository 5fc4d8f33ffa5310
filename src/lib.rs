//! Moebius: relays source-chain state changes into authorized writes on a destination
//! ledger, guarded by derived-address capabilities.

pub mod account;
pub mod another_program;
pub mod api;
pub mod bridge;
pub mod codec;
pub mod hex;
pub mod pubkey;
pub mod relay;
pub mod reporter;
pub mod simple_program;
pub mod uniswap_oracle;
