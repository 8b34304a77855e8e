//! Reconciliation core of an operator that keeps one database-cluster
//! resource in step with each declared Citus cluster.
//!
//! The crate decides and does no I/O. `lifecycle` orders the steps of the
//! process, `reconciler` computes the apply call for a primary resource and
//! the action that follows the platform's answer, `projector` maps declared
//! state to desired state, and `platform` states what follows if the
//! platform applies as asked.

pub mod action;
pub mod error;
pub mod kind;
pub mod lifecycle;
pub mod platform;
pub mod projector;
pub mod reconciler;
pub mod resource;

pub use action::Action;
pub use error::Error;
pub use projector::project;
pub use reconciler::{error_policy, reconcile_request, reconcile_result};
pub use resource::{CitusCluster, CitusClusterSpec, CitusClusterStatus, DependentResource};
