//! Driver diagnostics protocol.

use vstd::prelude::*;

use crate::guid::Guid;

verus! {

/// The kind of diagnostics to run.
#[derive(Clone, Copy, Debug, PartialEq, Eq, Structural)]
pub struct DriverDiagnosticType(pub u32);

impl DriverDiagnosticType {
    pub const STANDARD: u32 = 0;
    pub const EXTENDED: u32 = 1;
    pub const MANUFACTURING: u32 = 2;
    pub const CANCEL: u32 = 3;
}

/// `EFI_DRIVER_DIAGNOSTICS2_PROTOCOL`: a pure service table; everything
/// it offers stays with the firmware.
#[derive(Clone, Copy, Debug, PartialEq, Eq, Structural)]
pub struct DriverDiagnostics2 {}

impl DriverDiagnostics2 {
    /// The protocol's identifying GUID, `4d330321-025f-4aac-90d8-5ed900173b63`.
    pub fn guid() -> (r: Guid)
        ensures
            r == (Guid(0x4D330321, 0x025F, 0x4AAC, [0x90, 0xD8, 0x5E, 0xD9, 0x00, 0x17, 0x3B, 0x63])),
    {
        Guid(0x4D330321, 0x025F, 0x4AAC, [0x90, 0xD8, 0x5E, 0xD9, 0x00, 0x17, 0x3B, 0x63])
    }
}

} // verus!
