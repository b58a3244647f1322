//! Pricing and accounting core of a binary-outcome prediction market: a
//! constant-product market maker for "yes" and "no" shares, per-user positions,
//! and the market lifecycle from creation through trading to resolution and
//! settlement, or invalidation and refund.
//!
//! Every instruction takes the records it works on, the current time where it
//! needs one, and its arguments; it either updates the records and returns the
//! token transfers that must accompany the update, or leaves them unchanged and
//! returns why.

pub mod errors;
pub mod laws;
pub mod lifecycle;
pub mod pricing;
pub mod state;
pub mod trade;
