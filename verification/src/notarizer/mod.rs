//! The document notarizer contract.
pub mod error;
pub mod associate_type;
pub mod documents;
pub mod contract;
pub mod laws;
