//! A resolver decision hook: a yes/no oracle that a dependency resolver
//! consults once per candidate package.
//!
//! The oracle is either a long-lived child process that speaks a line
//! protocol, a native plugin loaded from a shared library, or absent (every
//! candidate is accepted).  This crate holds the rules of both protocols and
//! the life cycle of both backends as state machines that perform no I/O:
//! each call returns the action that the host has to carry out, and the host
//! reports the outcome with the next call.
pub mod action;
pub mod config;
pub mod dispatch;
pub mod error;
pub mod package;
pub mod plugin;
pub mod process;
pub mod wire;

pub use action::{Action, Phase, Reply, Step};
pub use config::HookConfig;
pub use dispatch::{Hook, HookKind};
pub use error::{ConfigFault, ErrorKind, HookError, ProtocolFault};
pub use package::PackageId;
pub use plugin::HookPlugin;
pub use process::HookProcess;
