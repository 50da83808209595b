//! A verified orchestration for minting a single-edition token on a
//! test ledger: load or create a wallet, fund it through the faucet
//! when empty, create a mint and a token holding account, mint one
//! unit, and attach metadata and a master edition record.
//!
//! The control flow is a state machine ([`machine`]) whose every
//! transition is specified; the laws that hold of whole runs are
//! proved in [`laws`]. The effects the remote ledger applies to its
//! accounts are modelled and verified in [`ledger`]; the key-file
//! decision in [`wallet`]. The transactions actually submitted are
//! assembled in [`chain`] through the external instruction builders.

pub mod chain;
pub mod config;
pub mod ids;
pub mod laws;
pub mod ledger;
pub mod machine;
pub mod wallet;
