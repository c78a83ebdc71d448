//! A minimal modular state-transition runtime: an account registry, a balance
//! ledger and a claim registry, composed behind one dispatcher that executes
//! blocks of calls.
pub mod store;
pub mod support;
pub mod system;
pub mod balances;
pub mod proof_of_existence;
pub mod runtime;
