//! Custodian configuration core for a cross-chain token gateway.
//!
//! The library derives every account address the gateway will ever use from
//! fixed seed tags, cross-checks caller-presented account references against
//! those derivations, and commits an immutable custodian record exactly once.

pub mod addr;
pub mod adf;
pub mod config;
pub mod initialize;
pub mod laws;
pub mod mint;
pub mod state;

pub use addr::Address;
pub use adf::DerivedAccounts;
pub use adf::derive_accounts;
pub use config::Config;
pub use config::FOREIGN_TOKEN_CHAIN;
pub use initialize::build_custodian;
pub use initialize::initialize;
pub use initialize::verify_accounts;
pub use state::Custodian;
pub use state::GatewayError;
pub use state::Initialize;
pub use state::Store;
