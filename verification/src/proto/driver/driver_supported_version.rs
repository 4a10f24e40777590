//! Driver supported UEFI version protocol.

use vstd::prelude::*;

use crate::guid::Guid;

verus! {

/// `EFI_DRIVER_SUPPORTED_EFI_VERSION_PROTOCOL`
#[derive(Clone, Copy, Debug, PartialEq, Eq, Structural)]
pub struct DriverSupportedUefiVersion {
    pub Length: u32,
    pub FirmwareVersion: u32,
}

impl DriverSupportedUefiVersion {
    /// The protocol's identifying GUID, `5c198761-16a8-4e69-972c-89d67954f81d`.
    pub fn guid() -> (r: Guid)
        ensures
            r == (Guid(0x5C198761, 0x16A8, 0x4E69, [0x97, 0x2C, 0x89, 0xD6, 0x79, 0x54, 0xF8, 0x1D])),
    {
        Guid(0x5C198761, 0x16A8, 0x4E69, [0x97, 0x2C, 0x89, 0xD6, 0x79, 0x54, 0xF8, 0x1D])
    }
}

} // verus!
