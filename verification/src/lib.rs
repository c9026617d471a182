//! A share-based custodial staking pool.
//!
//! Participants deposit a fungible asset into a shared reserve and receive
//! proportional ownership shares; later they redeem shares for a
//! proportional slice of the reserve, which may have grown from external
//! yield. An administrator controls a redemption time lock and an emergency
//! freeze.
//!
//! This crate holds the core that is worth verifying: the share mint/burn
//! arithmetic, the pricing formula, the cost-basis clamp, and the
//! administrative checks that gate every mutating operation. Each operation
//! is a pure transition from the current records and a snapshot of the
//! vault balance to new records; the hosting environment performs the
//! actual asset transfers and commits the returned records only when the
//! transfer succeeds, which keeps every operation all-or-nothing.

pub mod error;
pub mod laws;
pub mod ops;
pub mod price;
pub mod state;
pub mod text;

pub use error::ErrorCode;
pub use ops::{
    finalize_cost_basis, initialize, stake, toggle_freeze_program, unstake, update_admin,
    update_lock_end_date, StakeEffect, UnstakeEffect,
};
pub use price::{emit_price, emit_reward, get_price, Price, PriceChange, Reward};
pub use state::{AccountKey, StakingAccount, UserStakingAccount};
