//! Core value types.

pub mod result;
pub mod trade_info;
pub mod wad;

pub use wad::Wad;
