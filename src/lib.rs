//! Payout rules for closing a liquidity position with impermanent-loss
//! protection, over fixed-point decimal amounts.
pub mod decimal;
pub mod price;
pub mod payout;
pub mod settlement;
