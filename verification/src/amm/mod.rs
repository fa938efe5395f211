//! The pool's fee side.

pub mod cfmm;

pub use cfmm::{FeeQuote, PoolFees};
