//! Runs an arbitrary executable as a background service of the host's
//! service manager.
//!
//! The library holds the service descriptor, the error kinds, and the
//! decisions of the create and delete sequences, written as a state machine
//! from the current phase and the reply to the last request to the next phase
//! and request. The caller carries the requests out against the service
//! manager and feeds the replies back. A model of the host, in `host`, states
//! what the sequences achieve against a well-behaved service manager, and
//! `laws` proves how create and delete combine.
pub mod config;
pub mod descriptor;
pub mod error;
pub mod host;
pub mod laws;
pub mod lifecycle;

pub use config::{Config, DEFAULT_HELPER_PATH};
pub use descriptor::{resolution, resolve_path, DescriptorView, SombraWindows};
pub use error::{Error, ErrorKind, ErrorView};
pub use lifecycle::{
    Action, ErrorControl, Event, ManagerRights, Phase, Registration, RunState, ServiceRights,
    StartType, Transition, DESCRIPTION_PREFIX, SETTLE_MILLIS, UNEXPECTED_REPLY,
};
