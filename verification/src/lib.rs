//! A multisignature custody state machine: a wallet shared by a fixed set of
//! owners that releases funds only after a quorum of them has approved a
//! specific transfer.
//!
//! - `model` is the wallet as mathematics: states, the rules that reject an
//!   operation, and what an accepted operation does.
//! - `soundness` and `laws` prove what holds of every wallet: the quorum
//!   invariant, distinct approvals, execution at most once.
//! - `wallet`, `accounts` and `instructions` are the stored records, what the
//!   ledger hands to each operation, and the operations themselves, each with
//!   a contract over the model.
//! - `transfer` builds the ledger instruction of an approved transfer.
//! - `signatories` is a registry of signatories kept in a storage map.
//!
//! The library performs no input or output. The host reads the accounts,
//! calls an operation, performs the transfer that `execute_request` orders,
//! and stores what the operation left in the account.

pub mod accounts;
pub mod category;
pub mod error;
pub mod identity;
pub mod instructions;
pub mod laws;
pub mod model;
pub mod signatories;
pub mod soundness;
pub mod transfer;
pub mod wallet;
