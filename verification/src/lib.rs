//! A two-party escrow agreement engine.
//!
//! A client deposits an agreed amount into escrow custody, a worker attests
//! that the work is done, and the client releases the deposit to the worker.
//! The engine keeps one persistent `Agreement` record per agreement
//! identifier and exposes four state-changing operations, each gated by
//! authorization of one of the two parties.
//!
//! Identities are modeled as plain account numbers, durable keyed storage as
//! [`store::Store`], and the external value-transfer service as
//! [`ledger::Ledger`]; the hosting environment that owns the real accounts
//! and storage converts to and from these plain values at its edge.

pub mod escrow;
pub mod laws;
pub mod ledger;
pub mod store;

pub use escrow::Agreement;
pub use escrow::EscrowError;
pub use escrow::WorkContract;
pub use escrow::payment_due;
pub use ledger::Ledger;
pub use ledger::LedgerError;
