//! A greeting ledger for a Soroban contract: one administrator, a counter of
//! greetings and the last greeting of each user, kept in the contract's storage.
//!
//! The state machine is stated over [`ledger::Ledger`], a mathematical model of
//! the storage, and the operations of [`contract::HelloContract`] are proved
//! against it. The storage itself belongs to the host; every call into it goes
//! through a function of [`host`], whose contract is taken on trust.
//!
//! The host meters each invocation and ends one that exhausts its budget,
//! discarding its writes. The contracts here describe invocations that the
//! host lets run to their end.

pub mod error;
pub mod ledger;
pub mod host;
mod store;
pub mod contract;
pub mod history;
pub mod laws;
