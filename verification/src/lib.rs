//! Fixed-point arithmetic and fee calculation for a token-swap pool.
//!
//! The crate has two layers. `math` holds the safe multiply-divide
//! primitives: each computes `floor(a * b / c)` on unsigned 64-bit
//! operands, widening to 128 bits only when the operands are large
//! enough that the product could overflow, and returns `None` instead
//! of wrapping or panicking whenever the result is not representable.
//! `fees` builds the swap's fee schedule on top of them, and `decimal`
//! renders scaled integers as decimal strings for display.

pub mod decimal;
pub mod fees;
pub mod math;
