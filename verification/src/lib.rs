//! An ephemeral, namespaced handoff store: a caller is issued a short random
//! pin, a producer writes a small JSON payload under it, and a poller takes
//! the payload out exactly once.

pub mod entry;
pub mod handlers;
pub mod laws;
pub mod pin;
pub mod store;
