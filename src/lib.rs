//! Version-matching shim for the Kubernetes command-line client.
//!
//! The library decides which client binary a cluster connection needs: it
//! normalizes version strings, derives cache keys from the connection
//! configuration, lays out download URLs and install paths, and drives the
//! dispatch sequence as a state machine whose side effects are carried out by
//! the caller.
pub mod cli;
pub mod config;
pub mod dispatch;
pub mod error;
pub mod fingerprint;
pub mod install;
pub mod kx;
pub mod platform;
pub mod query;
pub mod text;
pub mod version;
