//! Component name protocol.

use vstd::prelude::*;

use crate::guid::Guid;

verus! {

/// `EFI_COMPONENT_NAME2_PROTOCOL`: a pure service table; everything it
/// offers stays with the firmware.
#[derive(Clone, Copy, Debug, PartialEq, Eq, Structural)]
pub struct ComponentName2 {}

impl ComponentName2 {
    /// The protocol's identifying GUID, `6a7a5cff-e8d9-4f70-bada-75ab3025ce14`.
    pub fn guid() -> (r: Guid)
        ensures
            r == (Guid(0x6A7A5CFF, 0xE8D9, 0x4F70, [0xBA, 0xDA, 0x75, 0xAB, 0x30, 0x25, 0xCE, 0x14])),
    {
        Guid(0x6A7A5CFF, 0xE8D9, 0x4F70, [0xBA, 0xDA, 0x75, 0xAB, 0x30, 0x25, 0xCE, 0x14])
    }
}

} // verus!
