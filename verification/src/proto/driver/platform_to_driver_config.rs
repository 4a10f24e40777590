//! Platform-to-driver configuration protocol.

use vstd::prelude::*;

use crate::guid::Guid;

verus! {

/// What the driver is to do after a configuration exchange.
#[derive(Clone, Copy, Debug, PartialEq, Eq, Structural)]
pub struct PlatformConfigurationAction(pub u32);

impl PlatformConfigurationAction {
    pub const NONE: u32 = 0;
    pub const STOP_CONTROLLER: u32 = 1;
    pub const RESTART_CONTROLLER: u32 = 2;
    pub const RESTART_PLATFORM: u32 = 3;
    pub const NVRAM_FAILED: u32 = 4;
    pub const UNSUPPORTED_GUID: u32 = 5;
}

/// `EFI_PLATFORM_TO_DRIVER_CONFIGURATION_PROTOCOL`: a pure service
/// table; everything it offers stays with the firmware.
#[derive(Clone, Copy, Debug, PartialEq, Eq, Structural)]
pub struct PlatformToDriverConfig {}

impl PlatformToDriverConfig {
    /// The protocol's identifying GUID, `642cd590-8059-4c0a-a958-c5ec07d23c4b`.
    pub fn guid() -> (r: Guid)
        ensures
            r == (Guid(0x642CD590, 0x8059, 0x4C0A, [0xA9, 0x58, 0xC5, 0xEC, 0x07, 0xD2, 0x3C, 0x4B])),
    {
        Guid(0x642CD590, 0x8059, 0x4C0A, [0xA9, 0x58, 0xC5, 0xEC, 0x07, 0xD2, 0x3C, 0x4B])
    }
}

} // verus!
