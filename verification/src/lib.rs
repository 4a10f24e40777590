//! UEFI interface structures and a verified codec for the Human Interface
//! Infrastructure (HII) package formats.
//!
//! The heart of the crate is the HII layer: decoding, validating and
//! re-encoding the self-describing binary packages that firmware uses to
//! carry setup forms, strings, images, fonts and animations. The surrounding
//! tables and protocols are modelled as plain data together with verified
//! interpretation of the replies a firmware implementation hands back.
#![allow(non_snake_case)]

pub mod bytes;
pub mod error;
pub mod guid;
pub mod hii;
pub mod mem;
pub mod proto;
pub mod status;
pub mod table;

use vstd::prelude::*;

verus! {

/// A collection of related interfaces, handed out by the firmware.
///
/// The firmware's handles are opaque machine words; nothing of this crate
/// ever looks inside one.
#[derive(Clone, Copy, Debug, PartialEq, Eq, Structural)]
pub struct Handle(pub usize);

/// Handle to an event structure, opaque to this crate.
#[derive(Clone, Copy, Debug, PartialEq, Eq, Structural)]
pub struct Event(pub usize);

/// Event type bits.
#[derive(Clone, Copy, Debug, PartialEq, Eq, Structural)]
pub struct EventType(pub u32);

impl EventType {
    pub const NONE: u32 = 0;
    /// The event is a timer and may be passed to `SetTimer()`.
    pub const TIMER: u32 = 0x8000_0000;
    /// The event is allocated from run-time memory.
    pub const RUNTIME: u32 = 0x4000_0000;
}

/// Task priority level.
#[derive(Clone, Copy, Debug, PartialEq, Eq, Structural)]
pub struct Tpl(pub usize);

impl Tpl {
    pub const NONE: usize = 0;
    pub const APPLICATION: usize = 4;
    pub const CALLBACK: usize = 8;
    pub const NOTIFY: usize = 16;
    pub const HIGH_LEVEL: usize = 31;
}

} // verus!
