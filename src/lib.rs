//! Client library for the length-prefixed IPC protocol of the sway compositor:
//! frame codec, command and criteria model, and the routing of event frames
//! and replies that share one connection.

pub mod codec;
pub mod command;
pub mod criteria;
pub mod dispatch;
pub mod error;
pub mod ipc_command;
pub mod sway;

pub use codec::{IpcCommand, IpcEvent};
pub use command::{Command, CriteriaCommand};
pub use dispatch::Dispatcher;
pub use error::Error;
pub use sway::{HasIpc, SwayClient};
