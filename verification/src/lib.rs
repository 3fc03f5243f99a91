//! Core of a desktop Minecraft-server manager: the runtime dependency
//! installer (Java runtimes and tunnel agents, acquired and verified
//! idempotently on disk) and the server process supervisor (a single
//! active server slot with start / stop / command injection).
//!
//! Filesystem layout, download checks, archive extraction planning and
//! the supervisor state machine are verified here over explicit models
//! of the on-disk and process state; the thin I/O shell that probes the
//! real filesystem and spawns real processes lives outside this crate.

pub mod text;
pub mod platform;
pub mod archive;
pub mod config;
pub mod java;
pub mod playit;
pub mod paths;
pub mod properties;
pub mod store;
pub mod supervisor;
pub mod versions;
