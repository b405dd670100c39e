//! Verified core of a rotating savings circle platform: a factory that
//! validates and registers new circles, the per-circle settings handed down
//! by the factory, and the resolution of payout votes.

pub mod types;
pub mod circle;
pub mod factory;
pub mod vote;
