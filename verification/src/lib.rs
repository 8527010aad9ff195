//! A minimal Soroban user-record contract, verified: one (name, age)
//! record per contract instance, kept in two fixed instance-storage
//! slots and exposed through store / fetch / update / delete / exists
//! operations.

pub mod contract;
pub mod laws;
pub mod slots;
pub mod store;
