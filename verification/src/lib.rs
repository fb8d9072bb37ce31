//! Escrow ledger for a marketplace whose orders are settled over a
//! Lightning-style payment network.
//!
//! The crate keeps the marketplace's records in a [`store::Store`] and states,
//! for every operation on it, which records change and how. Balances are never
//! stored: they are sums over the records, recomputed on every query.

pub mod activation;
pub mod backend;
pub mod bounty;
pub mod cards;
pub mod case;
pub mod case_expiry;
pub mod error;
pub mod escrow;
pub mod laws;
pub mod ledger;
pub mod models;
pub mod payment_processor;
pub mod search;
pub mod settings;
pub mod store;
pub mod table;
pub mod user_account_expiry;
pub mod util;
pub mod withdrawal;
