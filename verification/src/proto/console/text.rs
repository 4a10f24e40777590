//! Simple text protocols.

use vstd::prelude::*;

use crate::guid::Guid;
use crate::status::reply;
use crate::status::Status;
use crate::Event;

verus! {

/// Shift-key state bits.
#[derive(Clone, Copy, Debug, Default, PartialEq, Eq, Structural)]
pub struct KeyShiftState(pub u32);

impl KeyShiftState {
    pub const VALID: u32 = 0x8000_0000;
    pub const RIGHT_SHIFT: u32 = 1;
    pub const LEFT_SHIFT: u32 = 2;
    pub const RIGHT_CONTROL: u32 = 4;
    pub const LEFT_CONTROL: u32 = 8;
    pub const RIGHT_ALT: u32 = 16;
    pub const LEFT_ALT: u32 = 32;
    pub const RIGHT_LOGO: u32 = 64;
    pub const LEFT_LOGO: u32 = 128;
    pub const MENU_KEY: u32 = 256;
    pub const SYS_REQ: u32 = 512;
}

/// `EFI_KEY_TOGGLE_STATE`
#[derive(Clone, Copy, Debug, Default, PartialEq, Eq, Structural)]
pub struct KeyToggleState(pub u8);

impl KeyToggleState {
    pub const VALID: u8 = 0x80;
    pub const KEY_STATE_EXPOSED: u8 = 0x40;
    pub const SCROLL_LOCK_ACTIVE: u8 = 0x01;
    pub const NUM_LOCK_ACTIVE: u8 = 0x02;
    pub const CAPS_LOCK_ACTIVE: u8 = 0x04;
}

/// `EFI_KEY_STATE`
#[derive(Clone, Copy, Debug, Default, PartialEq, Eq, Structural)]
pub struct KeyState {
    pub KeyShiftState: KeyShiftState,
    pub KeyToggleState: KeyToggleState,
}

/// `EFI_INPUT_KEY`
#[derive(Clone, Copy, Debug, Default, PartialEq, Eq, Structural)]
pub struct InputKey {
    pub ScanCode: u16,
    pub UnicodeChar: u16,
}

/// `EFI_KEY_DATA`
#[derive(Clone, Copy, Debug, Default, PartialEq, Eq, Structural)]
pub struct KeyData {
    pub Key: InputKey,
    pub KeyState: KeyState,
}

/// `EFI_SIMPLE_TEXT_INPUT_EX_PROTOCOL`: the wait event; the callable
/// surface stays with the firmware.
#[derive(Clone, Copy, Debug, PartialEq, Eq, Structural)]
pub struct SimpleTextInputEx {
    pub WaitForKeyEx: Event,
}

impl SimpleTextInputEx {
    /// The protocol's identifying GUID, `dd9e7534-7762-4698-8c14-f58517a625aa`.
    pub fn guid() -> (r: Guid)
        ensures
            r == (Guid(0xDD9E7534, 0x7762, 0x4698, [0x8C, 0x14, 0xF5, 0x85, 0x17, 0xA6, 0x25, 0xAA])),
    {
        Guid(0xDD9E7534, 0x7762, 0x4698, [0x8C, 0x14, 0xF5, 0x85, 0x17, 0xA6, 0x25, 0xAA])
    }

    /// Interprets the reply to `Reset`. The reply becomes the
    /// result: success is `Ok`, any other status word is the error.
    pub fn reset(&self, status: Status) -> (r: Result<(), Status>)
        ensures
            r is Ok <==> status.0 == 0,
            r is Err ==> r->Err_0 == status,
    {
        status.to_result()
    }

    /// Interprets the reply to `ReadKeyStrokeEx`. On success the value the
    /// service filled in is handed out; any other status word is the error.
    pub fn read_key(&self, status: Status, key: KeyData) -> (r: Result<KeyData, Status>)
        ensures
            r is Ok <==> status.0 == 0,
            r is Ok ==> r->Ok_0 == key,
            r is Err ==> r->Err_0 == status,
    {
        reply(status, key)
    }

    /// Interprets the reply to `SetState`. The reply becomes the
    /// result: success is `Ok`, any other status word is the error.
    pub fn set_state(&self, status: Status) -> (r: Result<(), Status>)
        ensures
            r is Ok <==> status.0 == 0,
            r is Err ==> r->Err_0 == status,
    {
        status.to_result()
    }

    /// Interprets the reply to `RegisterKeyNotify`; the notification handle is an opaque machine word. On success the value the
    /// service filled in is handed out; any other status word is the error.
    pub fn register_key_notify(&self, status: Status, handle: usize) -> (r: Result<usize, Status>)
        ensures
            r is Ok <==> status.0 == 0,
            r is Ok ==> r->Ok_0 == handle,
            r is Err ==> r->Err_0 == status,
    {
        reply(status, handle)
    }

    /// Interprets the reply to `UnregisterKeyNotify`. The reply becomes the
    /// result: success is `Ok`, any other status word is the error.
    pub fn unregister_key_notify(&self, status: Status) -> (r: Result<(), Status>)
        ensures
            r is Ok <==> status.0 == 0,
            r is Err ==> r->Err_0 == status,
    {
        status.to_result()
    }
}

/// `EFI_SIMPLE_TEXT_INPUT_PROTOCOL`: the wait event; the callable
/// surface stays with the firmware.
#[derive(Clone, Copy, Debug, PartialEq, Eq, Structural)]
pub struct SimpleTextInput {
    pub WaitForKey: Event,
}

impl SimpleTextInput {
    /// The protocol's identifying GUID, `387477c1-69c7-11d2-8e39-00a0c969723b`.
    pub fn guid() -> (r: Guid)
        ensures
            r == (Guid(0x387477C1, 0x69C7, 0x11D2, [0x8E, 0x39, 0x00, 0xA0, 0xC9, 0x69, 0x72, 0x3B])),
    {
        Guid(0x387477C1, 0x69C7, 0x11D2, [0x8E, 0x39, 0x00, 0xA0, 0xC9, 0x69, 0x72, 0x3B])
    }

    /// Interprets the reply to `Reset`. The reply becomes the
    /// result: success is `Ok`, any other status word is the error.
    pub fn reset(&self, status: Status) -> (r: Result<(), Status>)
        ensures
            r is Ok <==> status.0 == 0,
            r is Err ==> r->Err_0 == status,
    {
        status.to_result()
    }

    /// Interprets the reply to `ReadKeyStroke`. On success the value the
    /// service filled in is handed out; any other status word is the error.
    pub fn read_key(&self, status: Status, key: InputKey) -> (r: Result<InputKey, Status>)
        ensures
            r is Ok <==> status.0 == 0,
            r is Ok ==> r->Ok_0 == key,
            r is Err ==> r->Err_0 == status,
    {
        reply(status, key)
    }
}

/// `EFI_SIMPLE_TEXT_OUTPUT_MODE`
#[derive(Clone, Copy, Debug, PartialEq, Eq, Structural)]
pub struct SimpleTextOutputMode {
    pub MaxMode: i32,
    pub Mode: i32,
    pub Attribute: i32,
    pub CursorColumn: i32,
    pub CursorRow: i32,
    pub CursorVisible: bool,
}

/// `EFI_SIMPLE_TEXT_OUTPUT_PROTOCOL`: the mode block; the callable
/// surface stays with the firmware.
#[derive(Clone, Copy, Debug, PartialEq, Eq, Structural)]
pub struct SimpleTextOutput {
    pub Mode: SimpleTextOutputMode,
}

impl SimpleTextOutput {
    /// The protocol's identifying GUID, `387477c2-69c7-11d2-8e39-00a0c969723b`.
    pub fn guid() -> (r: Guid)
        ensures
            r == (Guid(0x387477C2, 0x69C7, 0x11D2, [0x8E, 0x39, 0x00, 0xA0, 0xC9, 0x69, 0x72, 0x3B])),
    {
        Guid(0x387477C2, 0x69C7, 0x11D2, [0x8E, 0x39, 0x00, 0xA0, 0xC9, 0x69, 0x72, 0x3B])
    }

    /// Interprets the reply to `Reset`. The reply becomes the
    /// result: success is `Ok`, any other status word is the error.
    pub fn reset(&self, status: Status) -> (r: Result<(), Status>)
        ensures
            r is Ok <==> status.0 == 0,
            r is Err ==> r->Err_0 == status,
    {
        status.to_result()
    }

    /// Interprets the reply to `OutputString`. The reply becomes the
    /// result: success is `Ok`, any other status word is the error.
    pub fn output_string(&self, status: Status) -> (r: Result<(), Status>)
        ensures
            r is Ok <==> status.0 == 0,
            r is Err ==> r->Err_0 == status,
    {
        status.to_result()
    }

    /// Interprets the reply to `TestString`. The reply becomes the
    /// result: success is `Ok`, any other status word is the error.
    pub fn test_string(&self, status: Status) -> (r: Result<(), Status>)
        ensures
            r is Ok <==> status.0 == 0,
            r is Err ==> r->Err_0 == status,
    {
        status.to_result()
    }

    /// Interprets the reply to `QueryMode`. On success the geometry the
    /// service filled in is handed out; any other status word is the error.
    pub fn query_mode(&self, status: Status, cols: usize, rows: usize) -> (r: Result<
        (usize, usize),
        Status,
    >)
        ensures
            r is Ok <==> status.0 == 0,
            r is Ok ==> r->Ok_0 == (cols, rows),
            r is Err ==> r->Err_0 == status,
    {
        reply(status, (cols, rows))
    }

    /// Interprets the reply to `SetMode`. The reply becomes the
    /// result: success is `Ok`, any other status word is the error.
    pub fn set_mode(&self, status: Status) -> (r: Result<(), Status>)
        ensures
            r is Ok <==> status.0 == 0,
            r is Err ==> r->Err_0 == status,
    {
        status.to_result()
    }

    /// Interprets the reply to `SetAttribute`. The reply becomes the
    /// result: success is `Ok`, any other status word is the error.
    pub fn set_attribute(&self, status: Status) -> (r: Result<(), Status>)
        ensures
            r is Ok <==> status.0 == 0,
            r is Err ==> r->Err_0 == status,
    {
        status.to_result()
    }

    /// Interprets the reply to `ClearScreen`. The reply becomes the
    /// result: success is `Ok`, any other status word is the error.
    pub fn clear_screen(&self, status: Status) -> (r: Result<(), Status>)
        ensures
            r is Ok <==> status.0 == 0,
            r is Err ==> r->Err_0 == status,
    {
        status.to_result()
    }

    /// Interprets the reply to `SetCursorPosition`. The reply becomes the
    /// result: success is `Ok`, any other status word is the error.
    pub fn set_cursor_position(&self, status: Status) -> (r: Result<(), Status>)
        ensures
            r is Ok <==> status.0 == 0,
            r is Err ==> r->Err_0 == status,
    {
        status.to_result()
    }

    /// Interprets the reply to `EnableCursor`. The reply becomes the
    /// result: success is `Ok`, any other status word is the error.
    pub fn enable_cursor(&self, status: Status) -> (r: Result<(), Status>)
        ensures
            r is Ok <==> status.0 == 0,
            r is Err ==> r->Err_0 == status,
    {
        status.to_result()
    }
}

} // verus!
