//! A two-party wager escrow: two participants each deposit funds into one of
//! two fixed slots, an administrator later declares a winner, and the whole
//! held balance is paid out to the identity occupying the winning slot.
//!
//! The state machine (registration exactly-once, authorization, the atomic
//! payout transition, restart) lives in [`state`] and is verified. The calls
//! into the hosting environment (identity comparison, the fund-transfer
//! primitive) stand behind the trusted declarations in [`host`], and the
//! properties that relate several operations are proved in [`laws`].

pub mod errors;
pub mod host;
pub mod laws;
pub mod state;
