//! Season lifecycle and payout accounting for pooled-stake competitions.
//!
//! Participants pay a fixed entry fee into a season's vault; after the season an
//! authority names up to three ranked winners, who each take a fixed share of the
//! pool; a platform fee is taken off the top, once.
//!
//! - [`payout`] computes shares and fees.
//! - [`vault`] and [`state`] hold the records: vault, season, participant, config.
//! - [`instructions`] holds each operation as a transition on the records it
//!   touches.
//! - [`ledger`] finds records by wallet; [`account`] is a season with what it owns;
//!   [`registry`] is the whole state as plain data; [`controller`] owns a registry
//!   and is the only way to change it.
//! - [`accounting`] says what a pool must amount to; [`laws`] states what holds of
//!   every state and of repeated operations.
//! - [`approval`] and [`collection`] decide whether a candidate may register.
//!
//! Amounts that an operation returns are owed by the host to the party that the
//! operation names; the library keeps the books and moves no funds itself.

pub mod account;
pub mod accounting;
pub mod approval;
pub mod collection;
pub mod constants;
pub mod controller;
pub mod error;
pub mod identity;
pub mod instructions;
pub mod laws;
pub mod ledger;
pub mod payout;
pub mod registry;
pub mod state;
pub mod vault;
