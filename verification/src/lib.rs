//! A minimal custodial balance vault.
//!
//! Each owner gets one isolated vault that holds funds under program
//! control. The crate covers the vault accounting and authorization
//! logic: creating a vault, depositing into it, withdrawing from it
//! under a minimum-reserve policy, and closing it. The host that
//! actually moves funds and verifies signatures sits outside; this
//! library models balances as plain integers so that every rule can be
//! stated and proved.

pub mod bank;
pub mod errors;
pub mod laws;
pub mod policy;
pub mod state;
