//! Memory data types.

use vstd::prelude::*;

verus! {

/// Allocation strategy for `AllocatePages`.
#[derive(Clone, Copy, Debug, PartialEq, Eq, Structural)]
pub struct AllocateType(pub u32);

impl AllocateType {
    pub const ANY_PAGES: u32 = 0;
    pub const MAX_ADDRESS: u32 = 1;
    pub const ADDRESS: u32 = 2;
}

/// The kind of memory an allocation asks for.
#[derive(Clone, Copy, Debug, PartialEq, Eq, Structural)]
pub struct MemoryType(pub u32);

impl MemoryType {
    pub const RESERVED: u32 = 0;
    pub const LOADER_CODE: u32 = 1;
    pub const LOADER_DATA: u32 = 2;
    pub const BOOTSERVICES_CODE: u32 = 3;
    pub const BOOTSERVICES_DATA: u32 = 4;
    pub const CONVENTIONAL: u32 = 5;
    pub const UNUSABLE: u32 = 6;
    pub const ACPI_RECLAIM: u32 = 7;
    pub const ACPI_NVS: u32 = 8;
    pub const MEMORY_MAPPED_IO: u32 = 9;
    pub const MEMORY_MAPPED_IO_PORTSPACE: u32 = 10;
    pub const PAL_CODE: u32 = 11;
    pub const PERSISTENT: u32 = 12;
    pub const UNACCEPTED: u32 = 13;
}

/// A physical address, an opaque machine word.
#[derive(Clone, Copy, Debug, PartialEq, Eq, Structural)]
pub struct PhysicalAddress(pub u64);

/// A virtual address, an opaque machine word.
#[derive(Clone, Copy, Debug, PartialEq, Eq, Structural)]
pub struct VirtualAddress(pub u64);

/// One range of the memory map.
#[derive(Clone, Copy, Debug, PartialEq, Eq, Structural)]
pub struct MemoryDescriptor {
    pub Type: u32,
    pub PhysicalStart: PhysicalAddress,
    pub VirtualStart: VirtualAddress,
    pub NumberOfPages: u64,
    pub Attribute: u64,
}

} // verus!
