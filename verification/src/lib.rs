//! Verified core of a binding that drives a virtual mouse and keyboard through
//! an input-simulation worker.
//!
//! The worker itself, the display-server channel it owns and the kernel
//! descriptor used to await one command are outside this crate. What is here is
//! everything the caller decides: which configuration is acceptable, how a
//! worker is brought up and torn down, which command is handed over with which
//! completion target, when a blocked wait is retried and when the descriptor is
//! closed. Each protocol is a small machine that is told what happened and
//! answers with what to do next; a driver performs the actions.

pub mod command;
pub mod dispatch;
pub mod dispatch_laws;
pub mod error;
pub mod event_loop;
pub mod input;
pub mod params;
pub mod startup;
pub mod startup_laws;
pub mod text;

pub use command::{native_key, Command};
pub use dispatch::{
    read_outcome, Action, Completion, Dispatch, Event, Phase, ReadOutcome, NOTIFICATION_SIZE,
    NOTIFICATION_START, NO_NOTIFICATION, READ_FAILED,
};
pub use error::WaymoError;
pub use event_loop::WaymoEventLoop;
pub use input::{ButtonCode, MouseButton};
pub use params::{EloopParams, EloopParamsBuilder};
pub use startup::{Startup, StartupAction, StartupEvent, StartupPhase};
pub use text::NativeText;
