//! Adapter information protocol.

use vstd::prelude::*;

use crate::guid::Guid;

verus! {

/// `EFI_ADAPTER_INFORMATION_PROTOCOL`: a pure service table; everything
/// it offers stays with the firmware.
#[derive(Clone, Copy, Debug, PartialEq, Eq, Structural)]
pub struct AdapterInformation {}

impl AdapterInformation {
    /// The protocol's identifying GUID, `e5dd1403-d622-c24e-8488-c71b17f5e802`.
    pub fn guid() -> (r: Guid)
        ensures
            r == (Guid(0xE5DD1403, 0xD622, 0xC24E, [0x84, 0x88, 0xC7, 0x1B, 0x17, 0xF5, 0xE8, 0x02])),
    {
        Guid(0xE5DD1403, 0xD622, 0xC24E, [0x84, 0x88, 0xC7, 0x1B, 0x17, 0xF5, 0xE8, 0x02])
    }
}

} // verus!
