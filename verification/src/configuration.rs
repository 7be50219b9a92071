//! What a node is started with and what it knows of its surroundings: the
//! environment and mode it runs in, the producers it lets in, the queue it
//! talks to, and the readiness of the services it depends on.

pub mod action;
pub mod environment;
pub mod mode;
pub mod queue;
pub mod state;
