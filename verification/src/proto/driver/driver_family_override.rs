//! Driver family override protocol.

use vstd::prelude::*;

use crate::guid::Guid;

verus! {

/// `EFI_DRIVER_FAMILY_OVERRIDE_PROTOCOL`: a pure service table;
/// everything it offers stays with the firmware.
#[derive(Clone, Copy, Debug, PartialEq, Eq, Structural)]
pub struct DriverFamilyOverride {}

impl DriverFamilyOverride {
    /// The protocol's identifying GUID, `b1ee129e-da36-4181-91f8-04a4923766a7`.
    pub fn guid() -> (r: Guid)
        ensures
            r == (Guid(0xB1EE129E, 0xDA36, 0x4181, [0x91, 0xF8, 0x04, 0xA4, 0x92, 0x37, 0x66, 0xA7])),
    {
        Guid(0xB1EE129E, 0xDA36, 0x4181, [0x91, 0xF8, 0x04, 0xA4, 0x92, 0x37, 0x66, 0xA7])
    }
}

} // verus!
