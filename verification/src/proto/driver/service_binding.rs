//! Service binding protocol.

use vstd::prelude::*;

verus! {

/// `EFI_SERVICE_BINDING_PROTOCOL`: a pure service table; everything it
/// offers stays with the firmware.
#[derive(Clone, Copy, Debug, PartialEq, Eq, Structural)]
pub struct ServiceBindingProtocol {}

} // verus!
