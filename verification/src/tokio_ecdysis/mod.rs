//! The manager of an asynchronous process.
pub mod course;
pub mod life;
pub mod manager;
pub mod monitor;
pub mod systemd;
pub mod trigger;

pub use crate::tokio_ecdysis::manager::StopOnShutdown;
pub use crate::tokio_ecdysis::manager::TokioEcdysis;
pub use crate::tokio_ecdysis::manager::TokioEcdysisBuilder;
pub use crate::tokio_ecdysis::monitor::ExitMode;
pub use crate::tokio_ecdysis::monitor::TokioEcdysisUpgradeResult;
pub use crate::tokio_ecdysis::monitor::TokioEcdysisUpgrader;
pub use crate::tokio_ecdysis::trigger::ExitReason;
