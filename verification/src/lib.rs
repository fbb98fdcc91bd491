//! Cross-layer identity funding and confirmation protocol.
//!
//! The crate models a single-key wallet over a set of unspent outputs,
//! builds and signs the value-locking transaction that funds a new
//! identity on the application chain, tracks the lock's finality through
//! a filtered transaction feed, and sequences the cross-layer broadcast
//! up to proof verification and activation of the created identity.

pub mod bytes;
pub mod crypto;
pub mod filter;
pub mod protocol;
pub mod script;
pub mod text;
pub mod tracker;
pub mod ui;
pub mod transaction;
pub mod wallet;
