//! Plugin-side support for a console plugin loader.
//!
//! - `meta`, `hooks`, `interception`: the records the loader scans: metadata
//!   text, lifecycle hooks, and function interception entries.
//! - `storage` over `item_store`: typed values kept by a storage host, with
//!   `error` reading the host's status codes and `bytes` the byte order.
//! - `config`: the settings menu whose items keep their values in storage.
pub mod bytes;
pub mod config;
pub mod error;
pub mod hooks;
pub mod interception;
pub mod item_store;
pub mod meta;
pub mod storage;
