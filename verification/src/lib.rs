//! Maintenance Engine foundation layer: shared vocabulary types, error
//! taxonomy, configuration, logging context, metric labels, resource
//! text parsing and self-model bookkeeping, with their behaviour stated
//! as contracts.

pub mod text;

pub mod shared_types;
pub mod error;
pub mod roles;
pub mod nam;
pub mod engine;
pub mod config;
pub mod logging;
pub mod metrics;
pub mod self_model;
pub mod resources;
pub mod database;

pub use roles::{AgentRole, EscalationTier};
pub use error::{Error, Result};
