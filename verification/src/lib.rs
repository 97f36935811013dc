//! Two cooperating ledger contracts: a weather oracle holding one mutable
//! value behind an owner-only setter and a contract-only getter, and an
//! icecream vendor that escrows a payment, asks the oracle for the weather
//! through a callback descriptor, and settles the escrow on the answer.
//!
//! The host ledger is an external collaborator: it dispatches entry points,
//! moves value, and executes nested calls synchronously within one atomic
//! transaction. Each entry point here is therefore a pure transition from
//! plain values (sender, parameter bytes, state) to a new state and an
//! action request for the host to perform.

pub mod codec;
pub mod oracle;
pub mod types;
pub mod vendor;
