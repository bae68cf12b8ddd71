//! Confidential state-transition core: signed trusted calls and getters,
//! their replay and privilege gates, dispatch against the confidential ledger,
//! and storage-proof verification of facts taken from the public chain.

pub mod call;
pub mod cli;
pub mod codec;
pub mod crypto;
pub mod dispatch;
pub mod error;
pub mod getter;
pub mod helpers;
pub mod keyed;
pub mod laws;
pub mod setup;
pub mod state;
pub mod storage;
pub mod storage_proof;
pub mod types;
pub mod updates;
