//! Resets the identity markers a desktop editor uses to fingerprint an
//! installation, keeps every attempt recoverable through timestamped
//! backups, and retrieves one-time verification codes from a disposable
//! mailbox under bounded retries.

pub mod account;
pub mod chars;
pub mod color;
pub mod digits;
pub mod hexid;
pub mod jsonconf;
pub mod machine;
pub mod mailbox;
pub mod names;
pub mod paths;
pub mod platform;
pub mod service;
pub mod store;
