//! Query metrics: events, live counters, batch aggregation and maintenance tasks.

pub mod aggregate;
pub mod event;
pub mod service;
pub mod task;
