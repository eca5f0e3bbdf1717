//! Shell-group commands: executing a command line on the device.

use vstd::prelude::*;

use crate::smp::{Group, OpCode, SMPFrame};

verus! {

/// The request payload of a shell command: argv holding the command and
/// its arguments.
#[derive(Debug)]
pub struct ShellCommand {
    pub argv: Vec<String>,
}

/// The result of a shell command: its output and exit code, or an error
/// code.
#[derive(Debug)]
pub enum ShellResult {
    Success { o: String, ret: i32 },
    Failure { rc: i32 },
}

impl ShellResult {
    /// Turn the device's answer into a `Result` of (output, exit code)
    /// against the error code.
    pub fn into_result(self) -> (r: Result<(String, i32), i32>)
        ensures
            match self {
                ShellResult::Success { o, ret } => r == Ok::<(String, i32), i32>((o, ret)),
                ShellResult::Failure { rc } => r == Err::<(String, i32), i32>(rc),
            },
    {
        match self {
            ShellResult::Success { o, ret } => Ok((o, ret)),
            ShellResult::Failure { rc } => Err(rc),
        }
    }
}

/// Build a shell command request from argv.
pub fn shell_command(sequence: u8, command_args: Vec<String>) -> (r: SMPFrame<ShellCommand>)
    ensures
        r.operation == OpCode::WriteRequest,
        r.flags == 0,
        r.group == Group::ShellManagement,
        r.sequence == sequence,
        r.command == 0,
        r.data.argv == command_args,
{
    let payload = ShellCommand { argv: command_args };
    SMPFrame::new(OpCode::WriteRequest, sequence, Group::ShellManagement, 0, payload)
}

} // verus!
