//! A session-scoped on-disk content cache.
//!
//! The cache decides; its host touches the disk. Every operation of [`cache::Cache`]
//! hands back a [`cache::Step`]: either a filesystem request for the host to perform,
//! with the continuation that takes the host's answer, or the operation's outcome.
//! [`model`] states what each step is, and [`laws`] proves how whole operations behave
//! on a healthy disk.

pub mod cache;
pub mod laws;
pub mod model;
mod resolve;
