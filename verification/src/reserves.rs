//! Reserve calculations: benefit stream present values, the activation-time
//! optimiser with the cash surrender value as a floor, and the roll-forward
//! cache for repeated valuations.

pub mod types;
pub mod discount;
pub mod cache;
pub mod benefits;
pub mod carvm;
