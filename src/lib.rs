//! Escrow-backed fitness wagers: the challenge lifecycle, its payout
//! arithmetic and the custody ledger of each challenge's pooled stakes.

pub mod address;
pub mod laws;
pub mod lifecycle;
pub mod payout;
pub mod state;
pub mod vault;
