//! Flow synchronization node: a local cache of flow definitions kept in step
//! with a remote authority, the connection policy that guards it, and the
//! dispatch of producer events against the cached flows.

pub mod configuration;
pub mod flow;
pub mod key;
pub mod rule;
pub mod sagittarius;
pub mod server;
pub mod status;
pub mod store;
pub mod stream;
pub mod text;
