//! The monitoring daemon: configuration, health aggregation, the request
//! handling of its control socket, and its diagnostic schedule.

pub mod error;
pub mod config;
pub mod monitor;
pub mod service;
pub mod scheduler;
pub mod ipc;
