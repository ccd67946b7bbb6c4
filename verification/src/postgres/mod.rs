//! What the store decides about the rows that it reads and writes.

pub mod effects;
pub mod laws;
pub mod lease_parameters;
pub mod materialization_ops;
pub mod migrations;
pub mod operational_metrics;
pub mod route_ops;
pub mod runtime_work;
