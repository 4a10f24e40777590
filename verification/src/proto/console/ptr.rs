//! Pointer protocols.

use vstd::prelude::*;

use crate::guid::Guid;
use crate::status::reply;
use crate::status::Status;
use crate::Event;

verus! {

/// `EFI_SIMPLE_POINTER_MODE`
#[derive(Clone, Copy, Debug, Default, PartialEq, Eq, Structural)]
pub struct SimplePointerMode {
    pub ResolutionX: u64,
    pub ResolutionY: u64,
    pub ResolutionZ: u64,
    pub LeftButton: bool,
    pub RightButton: bool,
}

/// `EFI_SIMPLE_POINTER_STATE`
#[derive(Clone, Copy, Debug, Default, PartialEq, Eq, Structural)]
pub struct SimplePointerState {
    pub RelativeMovementX: i32,
    pub RelativeMovementY: i32,
    pub RelativeMovementZ: i32,
    pub LeftButton: bool,
    pub RightButton: bool,
}

/// `EFI_SIMPLE_POINTER_PROTOCOL`: the wait event and mode block; the
/// callable surface stays with the firmware.
#[derive(Clone, Copy, Debug, PartialEq, Eq, Structural)]
pub struct SimplePointer {
    pub WaitForInput: Event,
    pub Mode: SimplePointerMode,
}

impl SimplePointer {
    /// The protocol's identifying GUID, `31878c87-0b75-11d5-9a4f-0090273fc14d`.
    pub fn guid() -> (r: Guid)
        ensures
            r == (Guid(0x31878C87, 0x0B75, 0x11D5, [0x9A, 0x4F, 0x00, 0x90, 0x27, 0x3F, 0xC1, 0x4D])),
    {
        Guid(0x31878C87, 0x0B75, 0x11D5, [0x9A, 0x4F, 0x00, 0x90, 0x27, 0x3F, 0xC1, 0x4D])
    }

    /// Interprets the reply to `Reset`. The reply becomes the
    /// result: success is `Ok`, any other status word is the error.
    pub fn reset(&self, status: Status) -> (r: Result<(), Status>)
        ensures
            r is Ok <==> status.0 == 0,
            r is Err ==> r->Err_0 == status,
    {
        status.to_result()
    }

    /// Interprets the reply to `GetState`. On success the value the
    /// service filled in is handed out; any other status word is the error.
    pub fn get_state(&self, status: Status, state: SimplePointerState) -> (r: Result<SimplePointerState, Status>)
        ensures
            r is Ok <==> status.0 == 0,
            r is Ok ==> r->Ok_0 == state,
            r is Err ==> r->Err_0 == status,
    {
        reply(status, state)
    }
}

/// `EFI_ABSOLUTE_POINTER_MODE`
#[derive(Clone, Copy, Debug, Default, PartialEq, Eq, Structural)]
pub struct AbsolutePointerMode {
    pub AbsoluteMinX: u64,
    pub AbsoluteMinY: u64,
    pub AbsoluteMinZ: u64,
    pub AbsoluteMaxX: u64,
    pub AbsoluteMaxY: u64,
    pub AbsoluteMaxZ: u64,
    pub Attributes: u32,
}

/// `EFI_ABSOLUTE_POINTER_STATE`
#[derive(Clone, Copy, Debug, Default, PartialEq, Eq, Structural)]
pub struct AbsolutePointerState {
    pub CurrentX: u64,
    pub CurrentY: u64,
    pub CurrentZ: u64,
    pub ActiveButtons: u32,
}

/// `EFI_ABSOLUTE_POINTER_PROTOCOL`: the wait event and mode block; the
/// callable surface stays with the firmware.
#[derive(Clone, Copy, Debug, PartialEq, Eq, Structural)]
pub struct AbsolutePointer {
    pub WaitForInput: Event,
    pub Mode: AbsolutePointerMode,
}

impl AbsolutePointer {
    /// The protocol's identifying GUID, `8d59d32b-c655-4ae9-9b15-f25904992a43`.
    pub fn guid() -> (r: Guid)
        ensures
            r == (Guid(0x8D59D32B, 0xC655, 0x4AE9, [0x9B, 0x15, 0xF2, 0x59, 0x04, 0x99, 0x2A, 0x43])),
    {
        Guid(0x8D59D32B, 0xC655, 0x4AE9, [0x9B, 0x15, 0xF2, 0x59, 0x04, 0x99, 0x2A, 0x43])
    }

    /// Interprets the reply to `Reset`. The reply becomes the
    /// result: success is `Ok`, any other status word is the error.
    pub fn reset(&self, status: Status) -> (r: Result<(), Status>)
        ensures
            r is Ok <==> status.0 == 0,
            r is Err ==> r->Err_0 == status,
    {
        status.to_result()
    }

    /// Interprets the reply to `GetState`. On success the value the
    /// service filled in is handed out; any other status word is the error.
    pub fn get_state(&self, status: Status, state: AbsolutePointerState) -> (r: Result<AbsolutePointerState, Status>)
        ensures
            r is Ok <==> status.0 == 0,
            r is Ok ==> r->Ok_0 == state,
            r is Err ==> r->Err_0 == status,
    {
        reply(status, state)
    }
}

} // verus!
