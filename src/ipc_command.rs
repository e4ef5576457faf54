use crate::codec::{IpcCommand, IpcEvent};
use vstd::prelude::*;

verus! {

/// Asks for: the bar configuration, or the ids of the bars.
pub fn get_bar_config() -> (r: IpcCommand)
    ensures
        r is GetBarConfig,
{
    IpcCommand::GetBarConfig
}

/// Asks for: the names of the binding modes.
pub fn get_binding_modes() -> (r: IpcCommand)
    ensures
        r is GetBindingModes,
{
    IpcCommand::GetBindingModes
}

/// Asks for: the text of the loaded configuration.
pub fn get_config() -> (r: IpcCommand)
    ensures
        r is GetConfig,
{
    IpcCommand::GetConfig
}

/// Asks for: the marks that are set.
pub fn get_marks() -> (r: IpcCommand)
    ensures
        r is GetMarks,
{
    IpcCommand::GetMarks
}

/// Asks for: the outputs.
pub fn get_outputs() -> (r: IpcCommand)
    ensures
        r is GetOutputs,
{
    IpcCommand::GetOutputs
}

/// Asks for: the layout tree.
pub fn get_tree() -> (r: IpcCommand)
    ensures
        r is GetTree,
{
    IpcCommand::GetTree
}

/// Asks for: the version of the compositor.
pub fn get_version() -> (r: IpcCommand)
    ensures
        r is GetVersion,
{
    IpcCommand::GetVersion
}

/// Asks for: the workspaces.
pub fn get_workspaces() -> (r: IpcCommand)
    ensures
        r is GetWorkspaces,
{
    IpcCommand::GetWorkspaces
}

/// Runs the commands in `t`.
pub fn run(t: &str) -> (r: IpcCommand)
    ensures
        r matches IpcCommand::Run(s) && s@ == t@,
{
    IpcCommand::Run(String::from_str(t))
}

/// Sends a tick whose payload is `t`.
pub fn tick(t: &[u8]) -> (r: IpcCommand)
    ensures
        r matches IpcCommand::SendTick(b) && b@ == t@,
{
    IpcCommand::SendTick(vstd::slice::slice_to_vec(t))
}

/// Subscribes to the events `t`.
pub fn subscribe(t: Vec<IpcEvent>) -> (r: IpcCommand)
    ensures
        r matches IpcCommand::Subscribe(v) && v@ == t@,
{
    IpcCommand::Subscribe(t)
}

} // verus!
