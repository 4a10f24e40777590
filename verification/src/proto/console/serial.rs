//! Serial I/O protocol.

use vstd::prelude::*;

use crate::guid::Guid;
use crate::status::reply;
use crate::status::Status;

verus! {

/// `EFI_PARITY_TYPE`
#[derive(Clone, Copy, Debug, PartialEq, Eq, Structural)]
pub struct ParityType(pub u32);

impl ParityType {
    pub const DEFAULT: u32 = 0;
    pub const NONE: u32 = 1;
    pub const EVEN: u32 = 2;
    pub const ODD: u32 = 3;
    pub const MARK: u32 = 4;
    pub const SPACE: u32 = 5;
}

/// `EFI_STOP_BITS_TYPE`
#[derive(Clone, Copy, Debug, PartialEq, Eq, Structural)]
pub struct StopBitsType(pub u32);

impl StopBitsType {
    pub const DEFAULT: u32 = 0;
    pub const ONE: u32 = 1;
    pub const ONE_FIVE: u32 = 2;
    pub const TWO: u32 = 3;
}

/// `EFI_SERIAL_IO_MODE`
#[derive(Clone, Copy, Debug, PartialEq, Eq)]
pub struct SerialIoMode {
    pub ControlMask: u32,
    pub Timeout: u32,
    pub BaudRate: u64,
    pub ReceiveFifoDepth: u32,
    pub DataBits: u32,
    pub Parity: ParityType,
    pub StopBits: StopBitsType,
}

/// Control bits of the serial device.
#[derive(Clone, Copy, Debug, Default, PartialEq, Eq, Structural)]
pub struct ControlBits(pub u32);

impl ControlBits {
    pub const DATA_TERMINAL_READY: u32 = 1;
    pub const REQUEST_TO_SEND: u32 = 2;
    pub const CLEAR_TO_SEND: u32 = 16;
    pub const DATA_SET_READY: u32 = 32;
    pub const RING_INDICATE: u32 = 64;
    pub const CARRIER_DETECT: u32 = 128;
    pub const INPUT_BUFFER_EMPTY: u32 = 256;
    pub const OUTPUT_BUFFER_EMPTY: u32 = 512;
    pub const HARDWARE_LOOPBACK_ENABLE: u32 = 0x1000;
    pub const SOFTWARE_LOOPBACK_ENABLE: u32 = 0x2000;
    pub const HARDWARE_FLOW_CONTROL_ENABLE: u32 = 0x4000;
}

/// `EFI_SERIAL_IO_PROTOCOL`: the revision and mode block; the callable
/// surface stays with the firmware.
#[derive(Clone, Copy, Debug, PartialEq, Eq)]
pub struct SerialIo {
    pub Revision: u32,
    pub Mode: SerialIoMode,
}

impl SerialIo {
    /// The protocol's identifying GUID, `bb25cf6f-f1d4-11d2-9a0c-0090273fc1fd`.
    pub fn guid() -> (r: Guid)
        ensures
            r == (Guid(0xBB25CF6F, 0xF1D4, 0x11D2, [0x9A, 0x0C, 0x00, 0x90, 0x27, 0x3F, 0xC1, 0xFD])),
    {
        Guid(0xBB25CF6F, 0xF1D4, 0x11D2, [0x9A, 0x0C, 0x00, 0x90, 0x27, 0x3F, 0xC1, 0xFD])
    }

    /// Interprets the reply to `Reset`. The reply becomes the
    /// result: success is `Ok`, any other status word is the error.
    pub fn reset(&self, status: Status) -> (r: Result<(), Status>)
        ensures
            r is Ok <==> status.0 == 0,
            r is Err ==> r->Err_0 == status,
    {
        status.to_result()
    }

    /// Interprets the reply to `SetAttributes`. The reply becomes the
    /// result: success is `Ok`, any other status word is the error.
    pub fn set_attributes(&self, status: Status) -> (r: Result<(), Status>)
        ensures
            r is Ok <==> status.0 == 0,
            r is Err ==> r->Err_0 == status,
    {
        status.to_result()
    }

    /// Interprets the reply to `SetControl`. The reply becomes the
    /// result: success is `Ok`, any other status word is the error.
    pub fn set_control(&self, status: Status) -> (r: Result<(), Status>)
        ensures
            r is Ok <==> status.0 == 0,
            r is Err ==> r->Err_0 == status,
    {
        status.to_result()
    }

    /// Interprets the reply to `GetControl`. On success the value the
    /// service filled in is handed out; any other status word is the error.
    pub fn get_control(&self, status: Status, control: ControlBits) -> (r: Result<ControlBits, Status>)
        ensures
            r is Ok <==> status.0 == 0,
            r is Ok ==> r->Ok_0 == control,
            r is Err ==> r->Err_0 == status,
    {
        reply(status, control)
    }

    /// Interprets the reply to `Write`; the size is how many bytes left the device. On success the value the
    /// service filled in is handed out; any other status word is the error.
    pub fn write(&self, status: Status, size: usize) -> (r: Result<usize, Status>)
        ensures
            r is Ok <==> status.0 == 0,
            r is Ok ==> r->Ok_0 == size,
            r is Err ==> r->Err_0 == status,
    {
        reply(status, size)
    }

    /// Interprets the reply to `Read`; the size is how many bytes arrived. On success the value the
    /// service filled in is handed out; any other status word is the error.
    pub fn read(&self, status: Status, size: usize) -> (r: Result<usize, Status>)
        ensures
            r is Ok <==> status.0 == 0,
            r is Ok ==> r->Ok_0 == size,
            r is Err ==> r->Err_0 == status,
    {
        reply(status, size)
    }
}

} // verus!
