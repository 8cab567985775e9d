//! Decision logic of an HTTP(S) and gunzip bridge for XAPI's `VM.import`.
//!
//! - [`client`]: an HTTP client and the settings it was built with.
//! - [`config`]: where the proxy listens.
//! - [`error`]: the errors, and how each one is answered.
//! - [`lock`]: the import lock and its guard.
//! - [`state`]: the two HTTP clients and the import lock.
//! - [`stream`]: the fetch pipeline and the stream that holds the lock.
//! - [`handler`]: format detection and the steps of an import.
//! - [`laws`]: what holds of detection and of an import as a whole.
//! - [`exclusion`]: what holds of imports that run side by side.
//! - [`text`]: text helpers.

pub mod client;
pub mod config;
pub mod error;
pub mod exclusion;
pub mod handler;
pub mod laws;
pub mod lock;
pub mod state;
pub mod stream;
pub mod text;
