//! Bringing a session back when its server drops it without anyone asking.
//!
//! The session stays in the table under its CID, marked as reconnecting, and the agent connects
//! it again with what it was opened with. Only a user's disconnect or deregistration ends a
//! session.

pub mod classify;
pub mod credentials;
pub mod policy;
pub mod report;
pub mod task;
