//! Verified core of a game-profile launcher.
//!
//! The library holds the launcher's decision logic: derivation of cache
//! paths, planning which artifacts a version manifest still requires,
//! bounding download concurrency, profile records and their descriptors,
//! and composition of the launch command. All file, network and process
//! I/O lives outside the library; callers feed observations in (which
//! cache entries exist, what bytes a file holds) and carry the returned
//! plans out.

pub mod dirs;
mod json;
pub mod launch;
pub mod loader;
pub mod manifest;
pub mod profile;
pub mod sync;
pub mod text;
