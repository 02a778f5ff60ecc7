//! Pricing and fee accounting for a constant-product pool: the curve
//! evaluator, the fee splitter, the tax model, the reserve adjuster and the
//! two swap quotes that sequence them.
pub mod curve;
pub mod error;
pub mod fees;
pub mod pool;
pub mod swap;
pub mod tax;
