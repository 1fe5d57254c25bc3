//! The associate registrar contract.
pub mod error;
pub mod associates;
pub mod contract;
pub mod laws;
