//! Strategy execution on an embedded EVM.

pub mod strategy;

pub use strategy::{EVMError, EVMStrategy};
