//! Deployment orchestration: states, strategy, errors, locking, health checks,
//! rollback and cleanup decisions.
pub mod actions;
pub mod container;
pub mod deployment;
pub mod error;
pub mod health;
pub mod lock;
pub mod orphans;
pub mod plan;
pub mod rollback;
pub mod run;
pub mod state;
pub mod strategy;

pub use actions::{ends_sequence, orphan_cleanup_actions, ActionStep, RuntimeAction};
pub use deployment::{Deployment, PullOutcome};
pub use error::{ContainerErrorExt, DeployError, DeployErrorDetail, DeployErrorKind, ImageErrorExt, LockHolderInfo, NetworkErrorExt};
pub use state::{Completed, ContainerStarted, CutOver, HealthChecked, ImagePulled, Initialized};
pub use strategy::DeployStrategy;
pub use run::{DeployRun, RunAction, RunEvent, RunStage};
pub use health::{HealthAction, HealthCheck, HealthEvent, HealthPoll};
pub use orphans::{cleanup_orphans, detect_orphans, CleanupFailure, CleanupResult};
pub use rollback::{active_stopped, plan_rollback, previous_connected, previous_started, RollbackPlan};
pub use lock::{DeployLock, LockAcquisition, LockAction, LockInfo};
pub use plan::{existing_container, known_containers, plan_deployment, DeploymentPlan};
