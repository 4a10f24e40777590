//! Device path package: the payload is a device path, kept opaque here.

use vstd::prelude::*;

use crate::hii::PackageHeader;

verus! {

/// `EFI_HII_DEVICE_PATH_PACKAGE_HDR`
#[derive(Clone, Copy, Debug, PartialEq, Eq, Structural)]
pub struct DevicePathPackageHeader {
    pub Header: PackageHeader,
}

} // verus!
