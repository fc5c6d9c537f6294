//! Settlement engine for a marketplace overlay that attaches token rewards
//! to trades executed through an external auction/escrow subsystem.
//!
//! `addr` derives and validates canonical account addresses, `state` holds
//! the account records and the reward payout rules, and `buy` orchestrates
//! the all-or-nothing settlement of a listing.

pub mod addr;
pub mod buy;
pub mod state;
