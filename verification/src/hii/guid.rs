//! GUID package: an opaque package tagged with a vendor GUID.

use vstd::prelude::*;

use crate::hii::PackageHeader;

verus! {

/// `EFI_HII_GUID_PACKAGE_HDR`
#[derive(Clone, Copy, Debug, PartialEq, Eq)]
pub struct GuidPackageHeader {
    pub Header: PackageHeader,
    pub Guid: crate::guid::Guid,
}

} // verus!
