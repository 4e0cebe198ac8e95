//! A single-slot named record store.
//!
//! The library keeps one record `{name, deployer}` in a storage handle that
//! the host injects into every operation. The record is written by
//! `contract::instantiate`, replaced (name only) by `contract::execute` /
//! `contract::try_update` — which only the stored deployer may do — and read
//! by `contract::query`. Every operation carries a contract that pins its
//! result and its effect on the store down to a small mathematical model,
//! and the laws of the store (owner-only update, owner immutability, and the
//! behaviour of a fresh slot) are proved over that model in `contract`.

pub mod contract;
pub mod error;
pub mod msg;
pub mod response;
pub mod state;
pub mod store;
