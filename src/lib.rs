//! SIP routing proxy: configuration, the next-hop RPC, the health probe, the
//! datagram listener's decisions, and the shutdown cascade that ties the three
//! listeners together.

pub mod config;
pub mod error;
pub mod health;
pub mod listener;
pub mod orchestrator;
pub mod service;
pub mod shutdown;
