//! Graphics output protocol.

use vstd::prelude::*;

use crate::guid::Guid;
use crate::mem::PhysicalAddress;
use crate::status::Status;

verus! {

/// `EFI_PIXEL_BITMAP`
#[derive(Clone, Copy, Debug, PartialEq, Eq, Structural)]
pub struct PixelBitmap {
    pub RedMask: u32,
    pub GreenMask: u32,
    pub BlueMask: u32,
    pub ReservedMask: u32,
}

/// `EFI_GRAPHICS_PIXEL_FORMAT`
#[derive(Clone, Copy, Debug, PartialEq, Eq, Structural)]
pub struct PixelFormat(pub u32);

impl PixelFormat {
    pub const RGB_RESERVED_8_BPP: u32 = 0;
    pub const BGR_RESERVED_8_BPP: u32 = 1;
    pub const BIT_MASK: u32 = 2;
    pub const BLT_ONLY: u32 = 3;
}

/// `EFI_GRAPHICS_OUTPUT_MODE_INFORMATION`
#[derive(Clone, Copy, Debug, PartialEq, Eq, Structural)]
pub struct GraphicsOutputModeInfo {
    pub Version: u32,
    pub HorizontalResolution: u32,
    pub VerticalResolution: u32,
    pub PixelFormat: PixelFormat,
    pub PixelInformation: PixelBitmap,
    pub PixelsPerScanLine: u32,
}

/// `EFI_GRAPHICS_OUTPUT_PROTOCOL_MODE`
#[derive(Clone, Copy, Debug, PartialEq, Eq, Structural)]
pub struct GraphicsOutputMode {
    pub MaxMode: u32,
    pub Mode: u32,
    pub Info: GraphicsOutputModeInfo,
    pub SizeOfInfo: usize,
    pub FrameBufferBase: PhysicalAddress,
    pub FrameBufferSize: usize,
}

/// `EFI_GRAPHICS_OUTPUT_BLT_PIXEL`
#[derive(Clone, Copy, Debug, PartialEq, Eq, Structural)]
pub struct GraphicsOutputBltPixel {
    pub Blue: u8,
    pub Green: u8,
    pub Red: u8,
    pub Reserved: u8,
}

/// `EFI_GRAPHICS_OUTPUT_BLT_OPERATION`
#[derive(Clone, Copy, Debug, PartialEq, Eq, Structural)]
pub struct GraphicsOutputBltOperation(pub u32);

impl GraphicsOutputBltOperation {
    pub const VIDEO_FILL: u32 = 0;
    pub const VIDEO_TO_BLT_BUFFER: u32 = 1;
    pub const BUFFER_TO_VIDEO: u32 = 2;
    pub const VIDEO_TO_VIDEO: u32 = 3;
}

/// `EFI_GRAPHICS_OUTPUT_PROTOCOL`: the mode block; the callable surface
/// stays with the firmware.
#[derive(Clone, Copy, Debug, PartialEq, Eq, Structural)]
pub struct GraphicsOutput {
    pub Mode: GraphicsOutputMode,
}

impl GraphicsOutput {
    /// The protocol's identifying GUID, `9042a9de-23dc-4a38-96fb-7aded080516a`.
    pub fn guid() -> (r: Guid)
        ensures
            r == (Guid(0x9042A9DE, 0x23DC, 0x4A38, [0x96, 0xFB, 0x7A, 0xDE, 0xD0, 0x80, 0x51, 0x6A])),
    {
        Guid(0x9042A9DE, 0x23DC, 0x4A38, [0x96, 0xFB, 0x7A, 0xDE, 0xD0, 0x80, 0x51, 0x6A])
    }

    /// Interprets the reply to `SetMode`. The reply becomes the
    /// result: success is `Ok`, any other status word is the error.
    pub fn set_mode(&self, status: Status) -> (r: Result<(), Status>)
        ensures
            r is Ok <==> status.0 == 0,
            r is Err ==> r->Err_0 == status,
    {
        status.to_result()
    }
}

} // verus!
