//! A 256-bit identifier that doubles as a path in a binary tree.
pub mod h256;
pub mod peer;

pub use h256::H256;
