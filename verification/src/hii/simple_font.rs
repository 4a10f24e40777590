//! Simplified font package.

use vstd::prelude::*;

use crate::hii::PackageHeader;

verus! {

/// Glyph height of the simplified font, in rows.
pub const GLYPH_HEIGHT: usize = 19;

/// Glyph width of the simplified font, in pixels.
pub const GLYPH_WIDTH: usize = 8;

/// `EFI_NARROW_GLYPH`
#[derive(Clone, Copy, Debug, PartialEq, Eq)]
pub struct NarrowGlyph {
    pub UnicodeWeight: u16,
    pub Attributes: u8,
    pub GlyphCol1: [u8; 19],
}

/// `EFI_WIDE_GLYPH`
#[derive(Clone, Copy, Debug, PartialEq, Eq)]
pub struct WideGlyph {
    pub UnicodeWeight: u16,
    pub Attributes: u8,
    pub GlyphCol1: [u8; 19],
    pub GlyphCol2: [u8; 19],
}

/// `EFI_HII_SIMPLE_FONT_PACKAGE_HDR`
#[derive(Clone, Copy, Debug, PartialEq, Eq, Structural)]
pub struct SimpleFontPackageHeader {
    pub Header: PackageHeader,
    pub NumberOfNarrowGlyphs: u16,
    pub NumberOfWideGlyphs: u16,
}

} // verus!
