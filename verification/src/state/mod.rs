//! The records that the lifecycle operations read and write.

pub mod config;
pub mod participant;
pub mod season;
