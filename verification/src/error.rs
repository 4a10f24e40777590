//! Errors of the codec layer.

use vstd::prelude::*;

verus! {

/// Everything that can go wrong while decoding or encoding HII data.
#[derive(Clone, Copy, Debug, PartialEq, Eq, Structural)]
pub enum Error {
    /// A read would pass the end of the declared data.
    TruncatedBuffer,
    /// A declared length does not match what was actually consumed.
    LengthMismatch,
    /// A header declares an impossible size, e.g. less than the header itself.
    InvalidLength,
    /// A package kind byte outside both the named set and the reserved range.
    UnknownPackageKind,
    /// An `END` opcode arrived while no scope was open.
    ScopeUnderflow,
    /// The scope stack was not empty at the end of the stream.
    UnbalancedScope,
    /// The net stack effect of an expression scope is not exactly one value.
    ExpressionImbalance,
    /// Encode-time: a payload would not fit the 7-bit length field.
    PayloadTooLarge,
    /// A block type or discriminant byte outside its table; what follows
    /// it cannot be sized or interpreted. Block-stream extensions are
    /// carried by the `EXT` escape blocks instead.
    UnknownBlockType,
    /// Malformed GUID text.
    FormatError,
    /// A nesting or size limit was passed; decoding stops rather than
    /// looping without bound on adversarial input.
    ResourceLimitExceeded,
}

} // verus!
