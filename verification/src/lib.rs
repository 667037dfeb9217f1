//! A line-oriented JSON-RPC front end for a Prometheus server: the message
//! dispatch, the tools it offers, and the caching and retry rules around the
//! upstream calls.

pub mod cli;
pub mod compat;
pub mod dispatch;
pub mod json;
pub mod metrics;
pub mod names;
pub mod prometheus_client;
pub mod prometheus_config;
pub mod prompts;
pub mod query_result;
pub mod repository;
pub mod resources;
pub mod router;
pub mod text;
pub mod tools;
pub mod types;
pub mod utilities;
