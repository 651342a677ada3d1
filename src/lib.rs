//! Black-Scholes pricing of a European call option: the verified parts.
//!
//! The day count between two moments, the validation of the pricing inputs
//! against the model's domain, and the guards around the floating-point
//! evaluation live here. Floating-point values are handled by their IEEE 754
//! binary64 encodings (`f64::to_bits`), so every decision is made on integers.
pub mod binary64;
pub mod call;
pub mod moment;
