//! The UEFI tables: the shared header and the service tables.

use vstd::prelude::*;

pub mod boot;
pub mod cfg;
pub mod runtime;
pub mod system;

pub use boot::BootServices;
pub use runtime::RuntimeServices;
pub use system::SystemTable;

verus! {

/// Data struct that precedes all stable UEFI tables.
#[derive(Clone, Copy, Debug, PartialEq, Eq, Structural)]
pub struct Header {
    /// A 64-bit signature that identifies the type of table that follows.
    pub Signature: u64,
    /// The revision of the UEFI specification to which this table conforms.
    pub Revision: u32,
    /// The size in bytes of the entire table including the header.
    pub Size: u32,
    /// The 32-bit CRC for the entire table.
    pub Crc32: u32,
    /// Reserved; always zero on the wire.
    pub Reserved: u32,
}

impl Header {
    /// A 64-bit signature that identifies the type of table that follows.
    pub fn signature(&self) -> (r: u64)
        ensures
            r == self.Signature,
    {
        self.Signature
    }

    /// The revision of the UEFI specification to which this table conforms.
    pub fn revision(&self) -> (r: u32)
        ensures
            r == self.Revision,
    {
        self.Revision
    }

    /// The size in bytes of the entire table including the header.
    pub fn size(&self) -> (r: u32)
        ensures
            r == self.Size,
    {
        self.Size
    }

    /// The 32-bit CRC for the entire table.
    pub fn crc32(&self) -> (r: u32)
        ensures
            r == self.Crc32,
    {
        self.Crc32
    }
}

} // verus!
