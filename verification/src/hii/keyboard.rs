//! Keyboard package.

use vstd::prelude::*;

use crate::guid::Guid;
use crate::hii::PackageHeader;

verus! {

/// `EFI_HII_KEYBOARD_LAYOUT`
#[derive(Clone, Copy, Debug, PartialEq, Eq)]
pub struct KeyboardLayout {
    pub LayoutLength: u16,
    pub Guid: Guid,
    pub LayoutDescriptorStringOffset: u32,
    pub DescriptorCount: u8,
}

/// `EFI_HII_KEYBOARD_PACKAGE_HDR`
#[derive(Clone, Copy, Debug, PartialEq, Eq, Structural)]
pub struct KeyboardPackageHeader {
    pub Header: PackageHeader,
    pub LayoutCount: u16,
}

} // verus!
