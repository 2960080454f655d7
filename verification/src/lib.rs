//! A custodial value vault: a persisted record owned by one 32-byte identity,
//! receiving deposits and releasing withdrawals under a 24-hour cooldown.
//!
//! The library holds the vault's state machine: the fixed 49-byte record
//! layout, the validated transitions (initialize, deposit, withdraw), the
//! arithmetic-safety and authorization guards, and the cooldown policy.
//! Host-runtime concerns (account storage, signature verification, the
//! clock, value transfer) enter only as plain values.

pub mod account;
pub mod codec;
pub mod error;
pub mod instruction;
pub mod laws;
pub mod processor;
pub mod state;
pub mod validation;
