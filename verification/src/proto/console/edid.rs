//! EDID protocols.

use vstd::prelude::*;

use crate::guid::Guid;

verus! {

/// `EFI_EDID_DISCOVERED_PROTOCOL`: the EDID bytes the firmware found.
#[derive(Clone, Debug, PartialEq, Eq)]
pub struct EdidDiscovered {
    pub SizeOfEdid: u32,
    pub Edid: Vec<u8>,
}

impl EdidDiscovered {
    /// The protocol's identifying GUID, `1c0c34f6-d380-41fa-a049-8ad06c1a66aa`.
    pub fn guid() -> (r: Guid)
        ensures
            r == (Guid(0x1C0C34F6, 0xD380, 0x41FA, [0xA0, 0x49, 0x8A, 0xD0, 0x6C, 0x1A, 0x66, 0xAA])),
    {
        Guid(0x1C0C34F6, 0xD380, 0x41FA, [0xA0, 0x49, 0x8A, 0xD0, 0x6C, 0x1A, 0x66, 0xAA])
    }
}

/// `EFI_EDID_ACTIVE_PROTOCOL`: the EDID bytes in use.
#[derive(Clone, Debug, PartialEq, Eq)]
pub struct EdidActive {
    pub SizeOfEdid: u32,
    pub Edid: Vec<u8>,
}

impl EdidActive {
    /// The protocol's identifying GUID, `bd8c1056-9f36-44ec-92a8-a6337f817986`.
    pub fn guid() -> (r: Guid)
        ensures
            r == (Guid(0xBD8C1056, 0x9F36, 0x44EC, [0x92, 0xA8, 0xA6, 0x33, 0x7F, 0x81, 0x79, 0x86])),
    {
        Guid(0xBD8C1056, 0x9F36, 0x44EC, [0x92, 0xA8, 0xA6, 0x33, 0x7F, 0x81, 0x79, 0x86])
    }
}

/// `EFI_EDID_OVERRIDE_PROTOCOL`: a pure service table; everything it
/// offers stays with the firmware.
#[derive(Clone, Copy, Debug, PartialEq, Eq, Structural)]
pub struct EdidOverride {}

impl EdidOverride {
    /// The protocol's identifying GUID, `48ecb431-fb72-45c0-a922-f458fe040bd5`.
    pub fn guid() -> (r: Guid)
        ensures
            r == (Guid(0x48ECB431, 0xFB72, 0x45C0, [0xA9, 0x22, 0xF4, 0x58, 0xFE, 0x04, 0x0B, 0xD5])),
    {
        Guid(0x48ECB431, 0xFB72, 0x45C0, [0xA9, 0x22, 0xF4, 0x58, 0xFE, 0x04, 0x0B, 0xD5])
    }
}

} // verus!
