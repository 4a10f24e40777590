//! Driver binding protocol.

use vstd::prelude::*;

use crate::guid::Guid;
use crate::Handle;

verus! {

/// `EFI_DRIVER_BINDING_PROTOCOL`: the version and the handles it was
/// installed with; the callable surface stays with the firmware.
#[derive(Clone, Copy, Debug, PartialEq, Eq, Structural)]
pub struct DriverBinding {
    pub Version: u32,
    pub ImageHandle: Handle,
    pub DriverBindingHandle: Handle,
}

impl DriverBinding {
    /// The protocol's identifying GUID, `18a031ab-b443-4d1a-a5c0-0c09261e9f71`.
    pub fn guid() -> (r: Guid)
        ensures
            r == (Guid(0x18A031AB, 0xB443, 0x4D1A, [0xA5, 0xC0, 0x0C, 0x09, 0x26, 0x1E, 0x9F, 0x71])),
    {
        Guid(0x18A031AB, 0xB443, 0x4D1A, [0xA5, 0xC0, 0x0C, 0x09, 0x26, 0x1E, 0x9F, 0x71])
    }
}

} // verus!
