//! Key lifecycle and token-transfer orchestration of a self-custody wallet.
//!
//! The library derives a signing keypair from a recovery phrase, guards the
//! single stored identity, reads the replies of the provisioning backend and
//! sequences a token transfer as an explicit state machine. Everything that
//! touches the disk or the network is left to the caller, which performs the
//! requested action and hands the outcome back as a plain value.

pub mod account;
pub mod base58;
pub mod decimal;
pub mod errors;
pub mod json;
pub mod keys;
pub mod ledger;
pub mod mnemonic;
pub mod provisioning;
pub mod structs;
pub mod transfer;
