//! Core logic of the Shelf desktop dashboard: recurring schedules, the
//! encrypted vault, and the rules behind the local store and the helper
//! windows. Everything here is verified with Verus; the desktop shell, the
//! SQLite connection and the OS keychain live in the application around it.

pub mod text;
pub mod datetime;
pub mod recurrence;
pub mod crypto;
pub mod tasks;
pub mod vault;
pub mod unlock;
pub mod store;
pub mod schema;
pub mod windows;
pub mod sql;
