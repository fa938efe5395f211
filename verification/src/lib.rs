//! Building blocks of an automated-market-maker fee simulator: the 18-decimal
//! fixed-point scalar, the strategy ABI codec, the strategy host, the fee
//! side of a pool, and the rules by which a batch of simulations is judged.

pub mod amm;
pub mod evm;
pub mod simulation;
pub mod types;
