//! Unified OS signal handling: a platform-neutral signal taxonomy,
//! bit-packed signal sets, shutdown reasons, shutdown hooks, and the
//! state machines and hook ordering of a graceful-shutdown
//! coordinator.

pub mod clock;
pub mod coord;
pub mod error;
pub mod hook;
pub mod order;
mod platform;
pub mod reason;
pub mod signal;
pub mod state;

pub use crate::coord::{CoordinatorBuilder, HookList, Statistics};
pub use crate::error::{Error, Result};
pub use crate::hook::{hook_from_fn, FnHook, ShutdownHook};
pub use crate::reason::ShutdownReason;
pub use crate::signal::{Signal, SignalSet, SignalSetIter};
pub use crate::state::{InstallState, ShutdownState, WaitStep};
