use crate::codec::IpcCommand;
use crate::error::Error;
use crate::ipc_command;
use vstd::prelude::*;

verus! {

/// A connection that answers requests.
pub trait HasIpc {
    /// Sends `command` and waits for its reply, whose raw payload it returns.
    fn ipc(&mut self, command: IpcCommand) -> Result<Vec<u8>, Error>;
}

/// The requests of the protocol, each as one synchronous call.
pub trait SwayClient: HasIpc {
    /// Runs `command`, as `swaymsg` would.
    fn run(&mut self, command: &str) -> Result<Vec<u8>, Error> {
        self.ipc(ipc_command::run(command))
    }

    fn get_bar_config(&mut self) -> Result<Vec<u8>, Error> {
        self.ipc(ipc_command::get_bar_config())
    }

    fn get_binding_modes(&mut self) -> Result<Vec<u8>, Error> {
        self.ipc(ipc_command::get_binding_modes())
    }

    fn get_config(&mut self) -> Result<Vec<u8>, Error> {
        self.ipc(ipc_command::get_config())
    }

    fn get_marks(&mut self) -> Result<Vec<u8>, Error> {
        self.ipc(ipc_command::get_marks())
    }

    fn get_outputs(&mut self) -> Result<Vec<u8>, Error> {
        self.ipc(ipc_command::get_outputs())
    }

    fn get_tree(&mut self) -> Result<Vec<u8>, Error> {
        self.ipc(ipc_command::get_tree())
    }

    fn get_version(&mut self) -> Result<Vec<u8>, Error> {
        self.ipc(ipc_command::get_version())
    }

    fn get_workspaces(&mut self) -> Result<Vec<u8>, Error> {
        self.ipc(ipc_command::get_workspaces())
    }
}

} // verus!
