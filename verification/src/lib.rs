//! Plugin resolution and content-addressed installation.
//!
//! The crate decides what an installer run fetches, where each plugin is
//! placed and which writes are redundant. Reading files, talking to the
//! network and walking directories are left to the caller, which hands the
//! results in as plain values.

pub mod backends;
pub mod config;
pub mod digest;
pub mod index;
pub mod installer;
pub mod laws;
pub mod location;
pub mod manifest;
pub mod text;
pub mod web;
