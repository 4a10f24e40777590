//! The system table.

use vstd::prelude::*;

use super::Header;

verus! {

/// The UEFI system table: the plain fields a caller reads. The console
/// and service-table pointers it also carries stay with the firmware.
#[derive(Clone, Copy, Debug, PartialEq, Eq, Structural)]
pub struct SystemTable {
    /// The system table header.
    pub Hdr: Header,
    /// A vendor-specific value that identifies the revision of the system
    /// firmware for the platform.
    pub FirmwareRevision: u32,
    /// The number of system configuration tables.
    pub NumberOfTableEntries: usize,
}

impl SystemTable {
    pub fn header(&self) -> (r: &Header)
        ensures
            *r == self.Hdr,
    {
        &self.Hdr
    }

    pub fn revision(&self) -> (r: u32)
        ensures
            r == self.FirmwareRevision,
    {
        self.FirmwareRevision
    }
}

} // verus!
