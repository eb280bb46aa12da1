//! Core of a record/replay HTTP proxy: message duplication, the tape wire
//! format, tape keys and the per-request dispatch decisions.
//!
//! Network and filesystem work is left to the embedding program; this crate
//! decides what is to be done and proves what it decides.

pub mod body;
pub mod clone;
pub mod config;
pub mod dispatch;
pub mod http_utils;
pub mod message;
pub mod proxy;
pub mod tape;
pub mod text;
