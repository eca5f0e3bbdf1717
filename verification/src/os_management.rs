//! Default-group commands: echo, device info and reset.

use vstd::prelude::*;

use crate::smp::{Group, OpCode, SMPFrame};

verus! {

/// The request payload of an echo command.
#[derive(Debug)]
pub struct EchoRequest {
    pub d: String,
}

/// Build an echo request carrying `msg`.
pub fn echo(sequence: u8, msg: String) -> (r: SMPFrame<EchoRequest>)
    ensures
        r.operation == OpCode::WriteRequest,
        r.flags == 0,
        r.group == Group::Default,
        r.sequence == sequence,
        r.command == 0,
        r.data.d == msg,
{
    let payload = EchoRequest { d: msg };
    SMPFrame::new(OpCode::WriteRequest, sequence, Group::Default, 0, payload)
}

/// The result of an echo command.
#[derive(Debug)]
pub enum EchoResult {
    Success { r: String },
    Failure { rc: i32 },
}

/// The request payload of a device info query.
#[derive(Debug)]
pub struct GetInfoRequest {
    pub format: String,
}

/// Build a device info query in the given format.
pub fn get_info(sequence: u8, format: String) -> (r: SMPFrame<GetInfoRequest>)
    ensures
        r.operation == OpCode::ReadRequest,
        r.flags == 0,
        r.group == Group::Default,
        r.sequence == sequence,
        r.command == 7,
        r.data.format == format,
{
    let request = GetInfoRequest { format };
    SMPFrame::new(OpCode::ReadRequest, sequence, Group::Default, 7, request)
}

/// The result of a reset command.
#[derive(Debug)]
pub enum ResetResult {
    Success {},
    Failure { rc: i32 },
}

/// The request payload of a reset command.
#[derive(Debug)]
pub struct ResetRequest {
    pub force: u8,
}

/// Build a reset request; `force` resets even when the device would
/// defer it.
pub fn reset(sequence: u8, force: bool) -> (r: SMPFrame<ResetRequest>)
    ensures
        r.operation == OpCode::WriteRequest,
        r.flags == 0,
        r.group == Group::Default,
        r.sequence == sequence,
        r.command == 5,
        r.data.force == (if force {
            1u8
        } else {
            0u8
        }),
{
    let payload = ResetRequest {
        force: if force {
            1
        } else {
            0
        },
    };
    SMPFrame::new(OpCode::WriteRequest, sequence, Group::Default, 5, payload)
}

} // verus!
