//! A caching and reconciliation client for a media-center movie library.
//!
//! The library holds the catalog of movies reported by the remote server,
//! normalizes it on each refresh, and runs the read-only analyzers that flag
//! duplicates, recognition errors and files missing from the catalog.
pub mod movie;
pub mod sets;
pub mod order;
pub mod rpc;
pub mod scan;
pub mod catalog;
pub mod config;
pub mod analyze;
pub mod pattern;
