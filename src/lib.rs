//! Links a chat-platform identity to a wallet address in one keyed user record.
//!
//! The library holds the merge protocol for the two linking intents, a keyed
//! record table with last-write-wins per key, a per-key lock table, and the
//! callback state machine that sequences token exchange, identity resolution
//! and the read-modify-write of a record, with a bounded retry on an
//! unavailable store.
pub mod record;
pub mod table;
pub mod laws;
pub mod locks;
pub mod flow;
