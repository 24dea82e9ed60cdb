//! Verified core of the Reso DNS resolver: data models, query building,
//! pagination, metrics aggregation, session cookies and API response logic.

pub mod clock;
pub mod config;
pub mod local;
pub mod entity_id;
pub mod env_config;
pub mod text;
pub mod database;
pub mod api;
pub mod metrics;
