//! Bus-specific driver override protocol.

use vstd::prelude::*;

use crate::guid::Guid;

verus! {

/// `EFI_BUS_SPECIFIC_DRIVER_OVERRIDE_PROTOCOL`: a pure service table;
/// everything it offers stays with the firmware.
#[derive(Clone, Copy, Debug, PartialEq, Eq, Structural)]
pub struct BusSpecificDriverOverride {}

impl BusSpecificDriverOverride {
    /// The protocol's identifying GUID, `3bc1b285-8a15-4a82-aabf-4d7d13fb3265`.
    pub fn guid() -> (r: Guid)
        ensures
            r == (Guid(0x3BC1B285, 0x8A15, 0x4A82, [0xAA, 0xBF, 0x4D, 0x7D, 0x13, 0xFB, 0x32, 0x65])),
    {
        Guid(0x3BC1B285, 0x8A15, 0x4A82, [0xAA, 0xBF, 0x4D, 0x7D, 0x13, 0xFB, 0x32, 0x65])
    }
}

} // verus!
