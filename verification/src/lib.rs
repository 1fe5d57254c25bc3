//! The logic of two Casper smart contracts: an associate registrar, which records which public
//! keys belong to the firm and in which role, and a document notarizer, which lets registered
//! associates record metadata for document hashes.
//!
//! The contracts keep their state in dictionaries of the host's global state. Every read and
//! write of that state is made by the contract runtime around this library: the functions here
//! decide which dictionary items are read, what is written back, and which errors are raised.
pub mod encoding;
pub mod entry_points;
pub mod keys;
pub mod registrar;
pub mod notarizer;
pub mod meta_check;
