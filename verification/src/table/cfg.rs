//! Configuration table entries.

use vstd::prelude::*;

use crate::guid::Guid;

verus! {

/// One entry of the system configuration table: a vendor GUID and the
/// address of the table it names, kept as an opaque machine word.
#[derive(Clone, Copy, Debug, PartialEq, Eq)]
pub struct ConfigurationTable {
    pub VendorGuid: Guid,
    pub VendorTable: usize,
}

} // verus!
