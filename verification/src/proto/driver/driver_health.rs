//! Driver health protocol.

use vstd::prelude::*;

use crate::guid::Guid;
use crate::Handle;

verus! {

/// A message a driver reports about its health, as a string in an HII
/// string package.
#[derive(Clone, Copy, Debug, PartialEq, Eq, Structural)]
pub struct DriverHealthHiiMessage {
    pub HiiHandle: Handle,
    pub StringId: u16,
    pub MessageCode: u64,
}

/// `EFI_DRIVER_HEALTH_STATUS`
#[derive(Clone, Copy, Debug, PartialEq, Eq, Structural)]
pub struct DriverHealthStatus(pub u32);

impl DriverHealthStatus {
    pub const HEALTHY: u32 = 0;
    pub const REPAIR_REQUIRED: u32 = 1;
    pub const CONFIG_REQUIRED: u32 = 2;
    pub const FAILED: u32 = 3;
    pub const RECONNECT_REQUIRED: u32 = 4;
    pub const REBOOT_REQUIRED: u32 = 5;
}

/// `EFI_DRIVER_HEALTH_PROTOCOL`: a pure service table; everything it
/// offers stays with the firmware.
#[derive(Clone, Copy, Debug, PartialEq, Eq, Structural)]
pub struct DriverHealth {}

impl DriverHealth {
    /// The protocol's identifying GUID, `2a534210-9280-41d8-ae79-cada01a2b127`.
    pub fn guid() -> (r: Guid)
        ensures
            r == (Guid(0x2A534210, 0x9280, 0x41D8, [0xAE, 0x79, 0xCA, 0xDA, 0x01, 0xA2, 0xB1, 0x27])),
    {
        Guid(0x2A534210, 0x9280, 0x41D8, [0xAE, 0x79, 0xCA, 0xDA, 0x01, 0xA2, 0xB1, 0x27])
    }
}

} // verus!
