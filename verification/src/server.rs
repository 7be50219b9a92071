//! What this node serves to the producers that connect to it.

pub mod action_transfer;
pub mod execution;
pub mod information;
pub mod relay;
