//! Configuration persistence, schema migration and command-launch planning
//! for a small desktop script launcher.
//!
//! The library owns the persisted JSON document format (parsing, schema
//! checking and pretty serialization), the one-time migration of legacy
//! single-command script entries, and the construction of platform-specific
//! launch plans. All file, process and dialog I/O stays with the caller,
//! which hands plain values in and takes plain values back.

pub mod config;
pub mod extract;
pub mod launch;
pub mod jsonparse;
pub mod jsontext;
pub mod migrate;
pub mod numfmt;
pub mod store;
mod strutil;
