//! Platform driver override protocol.

use vstd::prelude::*;

use crate::guid::Guid;

verus! {

/// `EFI_PLATFORM_DRIVER_OVERRIDE_PROTOCOL`: a pure service table;
/// everything it offers stays with the firmware.
#[derive(Clone, Copy, Debug, PartialEq, Eq, Structural)]
pub struct PlatformDriverOverride {}

impl PlatformDriverOverride {
    /// The protocol's identifying GUID, `6b30c738-a391-11d4-9a3b-0090273fc14d`.
    pub fn guid() -> (r: Guid)
        ensures
            r == (Guid(0x6B30C738, 0xA391, 0x11D4, [0x9A, 0x3B, 0x00, 0x90, 0x27, 0x3F, 0xC1, 0x4D])),
    {
        Guid(0x6B30C738, 0xA391, 0x11D4, [0x9A, 0x3B, 0x00, 0x90, 0x27, 0x3F, 0xC1, 0x4D])
    }
}

} // verus!
