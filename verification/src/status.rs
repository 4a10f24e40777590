//! UEFI status codes.
//!
//! Every service of the firmware answers with a status word; `0` reports
//! success and a word with the high bit set reports an error. The wrappers
//! of this crate turn a reply into a `Result` through [`Status::to_result`].

use vstd::prelude::*;

verus! {

/// A status word as the firmware hands it back.
#[derive(Clone, Copy, Debug, PartialEq, Eq, Structural)]
pub struct Status(pub u64);

/// The high bit, set on every error code.
pub const STATUS_ERROR_BIT: u64 = 0x8000_0000_0000_0000;

impl Status {
    pub const SUCCESS: u64 = 0;
    pub const LOAD_ERROR: u64 = 0x8000_0000_0000_0001;
    pub const INVALID_PARAMETER: u64 = 0x8000_0000_0000_0002;
    pub const UNSUPPORTED: u64 = 0x8000_0000_0000_0003;
    pub const BAD_BUFFER_SIZE: u64 = 0x8000_0000_0000_0004;
    pub const BUFFER_TOO_SMALL: u64 = 0x8000_0000_0000_0005;
    pub const NOT_READY: u64 = 0x8000_0000_0000_0006;
    pub const DEVICE_ERROR: u64 = 0x8000_0000_0000_0007;
    pub const WRITE_PROTECTED: u64 = 0x8000_0000_0000_0008;
    pub const OUT_OF_RESOURCES: u64 = 0x8000_0000_0000_0009;
    pub const NOT_FOUND: u64 = 0x8000_0000_0000_000E;
    pub const ACCESS_DENIED: u64 = 0x8000_0000_0000_000F;
    pub const TIMEOUT: u64 = 0x8000_0000_0000_0012;
    pub const ABORTED: u64 = 0x8000_0000_0000_0015;
    pub const SECURITY_VIOLATION: u64 = 0x8000_0000_0000_001A;

    /// Whether this status reports success.
    pub fn is_success(&self) -> (r: bool)
        ensures
            r == (self.0 == 0),
    {
        self.0 == 0
    }

    /// Whether this status reports an error (high bit set).
    pub fn is_error(&self) -> (r: bool)
        ensures
            r == (self.0 & STATUS_ERROR_BIT != 0),
    {
        self.0 & STATUS_ERROR_BIT != 0
    }

    /// Turns a reply into a `Result`: success becomes `Ok(())`, any other
    /// word is handed back unchanged as the error.
    pub fn to_result(self) -> (r: Result<(), Status>)
        ensures
            r is Ok <==> self.0 == 0,
            r is Err ==> r->Err_0 == self,
    {
        if self.0 == 0 {
            Ok(())
        } else {
            Err(self)
        }
    }
}

/// Pairs a reply with the value the service filled in: success hands the
/// value out, any other status word is handed back unchanged as the error.
pub fn reply<T>(status: Status, value: T) -> (r: Result<T, Status>)
    ensures
        r is Ok <==> status.0 == 0,
        r is Ok ==> r->Ok_0 == value,
        r is Err ==> r->Err_0 == status,
{
    if status.0 == 0 {
        Ok(value)
    } else {
        Err(status)
    }
}

} // verus!
