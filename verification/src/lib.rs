//! Graceful process upgrades.
//!
//! A process that listens on sockets can be replaced by a new one without a moment in which nobody
//! listens: it launches the new process, hands it the sockets, waits for it to declare itself
//! ready, and only then stops.
//!
//! This crate holds what such a process has to know and to decide, with proofs:
//!
//! * [`registry`]: the descriptors that were handed down, and those to hand down;
//! * [`ecdysis`]: opening sockets, declaring readiness, quitting;
//! * [`executioner`]: launching the child, and judging it;
//! * [`tokio_ecdysis`]: triggers, sockets of systemd, and the life of a process from readiness to
//!   its end;
//! * [`handover`], [`tokio_ecdysis::course`] and [`tokio_ecdysis::life`]: what holds across
//!   upgrades, what follows on each step, and what holds over a whole life.
//!
//! Nothing here touches the operating system. A function that needs it returns what has to be done,
//! and the outcome goes to the next function.
pub mod decimal;
pub mod ecdysis;
pub mod executioner;
pub mod handover;
pub mod path;
pub mod registry;
pub mod tokio_ecdysis;

pub use crate::ecdysis::Ecdysis;
pub use crate::executioner::UpgradeError;
pub use crate::executioner::UpgradeFinished;
pub use crate::path::SockPath;
pub use crate::registry::ListenerInfo;
