//! The lifecycle operations, each as a transition on the records it touches.
//!
//! Every operation checks all its conditions before it writes anything: a refused
//! operation leaves every record as it was.

pub mod claim_prize;
pub mod close_season;
pub mod collect_fee;
pub mod emergency_stop;
pub mod emergency_withdraw;
pub mod initialize_config;
pub mod initialize_season;
pub mod register_participant;
pub mod transfer_admin;
pub mod update_season_timings;
pub mod set_winners;
