//! Monthly liability projection engine for fixed-indexed annuities that carry a
//! guaranteed lifetime withdrawal benefit rider.
//!
//! The library projects a policy cell month by month through mortality, lapse and
//! partial-withdrawal decrements, credits interest, rolls the benefit base up,
//! and produces a stream of net cashflows; on the reserve side it finds the
//! income-activation time that maximises the statutory reserve, with the cash
//! surrender value as a floor and a roll-forward cache for repeated valuations.
//!
//! All quantities are held as integers: money amounts in cents, and rates,
//! factors and probabilities scaled by `fixed::RATE_SCALE` (so 1.0 is
//! `RATE_SCALE`).  The contracts below speak of those integers directly.

pub mod fixed;
pub mod policy;
pub mod product;
pub mod pwd;
pub mod mortality;
pub mod lapse;
pub mod assumptions;
pub mod state;
pub mod cashflows;
pub mod engine;
pub mod reserves;
pub mod scenario;
