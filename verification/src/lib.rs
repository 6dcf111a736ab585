//! The verified core of a small key/value web backend: the error model, the
//! stored-value codecs, the typed storage accessors, the flattening of nested
//! outcomes, and the throttle that decides when the store is flushed.
//!
//! Nothing here blocks, spawns or touches a disk. The storage engine, the worker
//! pool and the HTTP server live around this crate and hand it plain values.

pub mod bridge;
pub mod codec;
pub mod config;
pub mod db;
pub mod db_sync;
pub mod error;
pub mod http;
pub mod life;
pub mod paste;
pub mod url;
pub mod util;
