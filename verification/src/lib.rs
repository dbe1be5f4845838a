//! Reconciliation logic for a Kafka backup/restore operator.
//!
//! The crate holds the decision-making core of the operator: the status
//! condition state machine, the retention evaluator, the configuration
//! document builders, the Job/CronJob blueprints, and the per-resource
//! reconciliation planners.  Everything side-effecting (Kubernetes API
//! traffic, the watch loops, serving metrics) lives outside and consumes
//! the plans this crate produces.

pub mod clock;
pub mod conditions;
pub mod config;
pub mod error;
pub mod jobs;
pub mod metrics;
pub mod reconcile;
pub mod reconcile_backup;
pub mod reconcile_restore;
pub mod resources;
pub mod retention;
pub mod strimzi;
pub mod text;
