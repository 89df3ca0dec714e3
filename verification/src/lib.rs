//! A verified, append-only credit ledger.
//!
//! Each user's credit history is a balance-chained sequence of immutable
//! transactions: every transaction records the balance that held immediately
//! after it was applied and a back-reference to the transaction it was chained
//! onto.  The ledger enforces that balances never go negative, that appends
//! are serialized per user, and that reads are consistent with the chain.

pub mod amount;
pub mod api;
pub mod credits;
pub mod operation;
pub mod permissions;
pub mod resource;
pub mod transactions;
pub mod types;
pub mod users;
