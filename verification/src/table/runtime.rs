//! Runtime services.
//!
//! As with the boot services, the table of function pointers belongs to
//! the firmware; this module models the data the services exchange and
//! the verified interpretation of each reply.

use vstd::prelude::*;

use super::Header;
use crate::guid::Guid;
use crate::status::reply;
use crate::status::Status;

verus! {

/// Capsule flag bits.
#[derive(Clone, Copy, Debug, PartialEq, Eq, Structural)]
pub struct CapsuleFlags(pub u32);

impl CapsuleFlags {
    pub const PERSIST_ACROSS_RESET: u32 = 0x1_0000;
    pub const POPULATE_SYSTEM_TABLE: u32 = 0x2_0000;
    pub const INITIATE_RESET: u32 = 0x4_0000;
}

/// Header of an update capsule.
#[derive(Clone, Copy, Debug, PartialEq, Eq)]
pub struct CapsuleHeader {
    pub CapsuleGuid: Guid,
    pub HeaderSize: u32,
    pub Flags: CapsuleFlags,
    pub CapsuleImageSize: u32,
}

/// System reset type.
#[derive(Clone, Copy, Debug, PartialEq, Eq, Structural)]
pub struct ResetType(pub u32);

impl ResetType {
    /// Trigger a system-wide reset.
    pub const COLD: u32 = 0;
    /// Trigger a system-wide re-initialization.
    pub const WARM: u32 = 1;
    /// Trigger a system power-off (ACPI S5 or G3 state).
    pub const SHUTDOWN: u32 = 2;
    /// Trigger a system-wide reset defined by an associated GUID.
    pub const PLATFORM_SPECIFIC: u32 = 3;
}

/// Time information.
#[derive(Clone, Copy, Debug, Default, PartialEq, Eq, Structural)]
pub struct Time {
    pub Year: u16,
    pub Month: u8,
    pub Day: u8,
    pub Hour: u8,
    pub Minute: u8,
    pub Second: u8,
    pub Nanosecond: u32,
    pub TimeZone: i16,
    pub Daylight: u8,
}

/// Capabilities of the real-time clock.
#[derive(Clone, Copy, Debug, Default, PartialEq, Eq, Structural)]
pub struct TimeCapabilities {
    pub Resolution: u32,
    pub Accuracy: u32,
    pub SetsToZero: bool,
}

/// Variable attribute bits.
#[derive(Clone, Copy, Debug, PartialEq, Eq, Structural)]
pub struct VariableAttributes(pub u32);

impl VariableAttributes {
    pub const NON_VOLATILE: u32 = 1;
    pub const BOOTSERVICE_ACCESS: u32 = 2;
    pub const RUNTIME_ACCESS: u32 = 4;
    pub const HARDWARE_ERROR_RECORD: u32 = 8;
    pub const AUTHENTICATED_WRITE_ACCESS: u32 = 16;
    pub const TIME_BASED_AUTHENTICATED_WRITE_ACCESS: u32 = 32;
    pub const APPEND_WRITE: u32 = 64;
    pub const ENHANCED_AUTHENTICATED_ACCESS: u32 = 128;
}

/// The UEFI runtime services table: its header, with the callable surface
/// left to the firmware.
#[derive(Clone, Copy, Debug, PartialEq, Eq, Structural)]
pub struct RuntimeServices {
    pub Hdr: Header,
}

impl RuntimeServices {
    pub fn header(&self) -> (r: &Header)
        ensures
            *r == self.Hdr,
    {
        &self.Hdr
    }

    /// Interprets the reply to `GetTime`. On success the value the
    /// service filled in is handed out; any other status word is the error.
    pub fn get_time(&self, status: Status, time: Time) -> (r: Result<Time, Status>)
        ensures
            r is Ok <==> status.0 == 0,
            r is Ok ==> r->Ok_0 == time,
            r is Err ==> r->Err_0 == status,
    {
        reply(status, time)
    }
    /// Interprets the reply to `GetTime` when the capabilities are asked for. On success the value the
    /// service filled in is handed out; any other status word is the error.
    pub fn get_time_capabilities(&self, status: Status, caps: TimeCapabilities) -> (r: Result<TimeCapabilities, Status>)
        ensures
            r is Ok <==> status.0 == 0,
            r is Ok ==> r->Ok_0 == caps,
            r is Err ==> r->Err_0 == status,
    {
        reply(status, caps)
    }
    /// Interprets the reply to `SetTime`. The reply becomes the
    /// result: success is `Ok`, any other status word is the error.
    pub fn set_time(&self, status: Status) -> (r: Result<(), Status>)
        ensures
            r is Ok <==> status.0 == 0,
            r is Err ==> r->Err_0 == status,
    {
        status.to_result()
    }
    /// Interprets the reply to `GetWakeupTime`. On success the alarm
    /// state the service filled in is handed out; any other status word is
    /// the error.
    pub fn get_wakeup_time(&self, status: Status, enabled: bool, pending: bool, time: Time) -> (r:
        Result<(bool, bool, Time), Status>)
        ensures
            r is Ok <==> status.0 == 0,
            r is Ok ==> r->Ok_0 == (enabled, pending, time),
            r is Err ==> r->Err_0 == status,
    {
        reply(status, (enabled, pending, time))
    }

    /// Interprets the reply to `SetWakeupTime` when the alarm is enabled. The reply becomes the
    /// result: success is `Ok`, any other status word is the error.
    pub fn set_wakeup_time(&self, status: Status) -> (r: Result<(), Status>)
        ensures
            r is Ok <==> status.0 == 0,
            r is Err ==> r->Err_0 == status,
    {
        status.to_result()
    }
    /// Interprets the reply to `SetWakeupTime` when the alarm is disabled. The reply becomes the
    /// result: success is `Ok`, any other status word is the error.
    pub fn disable_wakeup_time(&self, status: Status) -> (r: Result<(), Status>)
        ensures
            r is Ok <==> status.0 == 0,
            r is Err ==> r->Err_0 == status,
    {
        status.to_result()
    }
    /// Interprets the reply to `SetVirtualAddressMap`. The reply becomes the
    /// result: success is `Ok`, any other status word is the error.
    pub fn set_virtual_address_map(&self, status: Status) -> (r: Result<(), Status>)
        ensures
            r is Ok <==> status.0 == 0,
            r is Err ==> r->Err_0 == status,
    {
        status.to_result()
    }
    /// Interprets the reply to `ConvertPointer`; addresses are opaque machine words. On success the value the
    /// service filled in is handed out; any other status word is the error.
    pub fn convert_pointer(&self, status: Status, addr: usize) -> (r: Result<usize, Status>)
        ensures
            r is Ok <==> status.0 == 0,
            r is Ok ==> r->Ok_0 == addr,
            r is Err ==> r->Err_0 == status,
    {
        reply(status, addr)
    }
    /// Interprets the reply to `SetVariable`. The reply becomes the
    /// result: success is `Ok`, any other status word is the error.
    pub fn set_variable(&self, status: Status) -> (r: Result<(), Status>)
        ensures
            r is Ok <==> status.0 == 0,
            r is Err ==> r->Err_0 == status,
    {
        status.to_result()
    }
    /// Interprets the reply to `GetNextHighMonotonicCount`. On success the value the
    /// service filled in is handed out; any other status word is the error.
    pub fn get_next_high_monotonic_count(&self, status: Status, count: u32) -> (r: Result<u32, Status>)
        ensures
            r is Ok <==> status.0 == 0,
            r is Ok ==> r->Ok_0 == count,
            r is Err ==> r->Err_0 == status,
    {
        reply(status, count)
    }
    /// Interprets the reply to `QueryVariableInfo`. On success the three
    /// sizes the service filled in are handed out; any other status word
    /// is the error.
    pub fn query_variable_info(
        &self,
        status: Status,
        storage_max: u64,
        storage_remaining: u64,
        variable_max: u64,
    ) -> (r: Result<(u64, u64, u64), Status>)
        ensures
            r is Ok <==> status.0 == 0,
            r is Ok ==> r->Ok_0 == (storage_max, storage_remaining, variable_max),
            r is Err ==> r->Err_0 == status,
    {
        reply(status, (storage_max, storage_remaining, variable_max))
    }
}

} // verus!
