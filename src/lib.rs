//! Player rendezvous and action correlation for a competitive bot platform.
pub mod adapter;
pub mod bridge;
pub mod command;
pub mod config;
pub mod correlator;
pub mod matches;
pub mod messages;
pub mod ranking;
pub mod router;
pub mod token;
pub mod table;
