//! Decoded values: the tagged, host-consumable result of interpreting one raw
//! native word under a declared shape, and the two fatal decode faults.

use vstd::prelude::*;

verus! {

/// An opaque native handle: a raw pointer's address carried through without
/// interpretation, round-trippable by the host but never dereferenced here.
///
/// Wrapping the address into the host runtime's own external-value type is
/// the embedding's job; this library only preserves the address exactly.
#[derive(Debug, Clone, Copy, PartialEq, Eq, Structural)]
pub struct Handle {
    /// The raw pointer value, as an address.
    pub addr: u64,
}

/// The tagged result of decoding one raw native value.
///
/// Scalar variants mirror the scalar kinds; array variants mirror the element
/// kinds. `DoubleArray` holds each element's IEEE-754 bit pattern unchanged —
/// the elements are copied, never reinterpreted, and the embedding turns the
/// bits into host floats. A decoded byte array records which exposure the
/// safety policy chose: `BufferCopied` when the invoking thread required an
/// owned copy, `BufferView` when a direct view of the bytes was allowed.
#[derive(Debug, PartialEq)]
pub enum Decoded {
    /// Unsigned byte: the raw word truncated to 8 bits.
    U8(u8),
    /// 32-bit signed integer: the raw word truncated to 32 bits.
    I32(i32),
    /// 64-bit signed integer: the raw word reinterpreted at full width.
    I64(i64),
    /// 64-bit unsigned integer: the raw word unchanged.
    U64(u64),
    /// Boolean: false for a zero word, true otherwise.
    Boolean(bool),
    /// Null-terminated string, decoded with lossy substitution of bad bytes.
    Str(String),
    /// Opaque native handle wrapping the raw pointer.
    External(Handle),
    /// The unit value, for the void kind.
    Void,
    /// Array of null-terminated strings.
    StringArray(Vec<String>),
    /// Array of 32-bit signed integers, copied element-wise.
    I32Array(Vec<i32>),
    /// Byte array exposed as an owned, thread-safe copy.
    BufferCopied(Vec<u8>),
    /// Byte array exposed as a direct view of the native bytes.
    BufferView(Vec<u8>),
    /// Array of 64-bit floats, each kept as its bit pattern.
    DoubleArray(Vec<u64>),
    /// Array of opaque native handles.
    ExternalArray(Vec<Handle>),
    /// Struct produced by the external materializer: field name to value.
    Object(Vec<(String, Decoded)>),
}

/// A fatal decode fault. Both classes reflect a programming error in callback
/// registration, not a runtime condition: the embedding aborts on either and
/// never retries.
///
/// `UnsupportedDouble` is the unsupported-shape class; the remaining variants
/// are the unrecognized-shape class, each carrying what made the shape
/// unrecognizable.
#[derive(Debug, Clone, Copy, PartialEq, Eq, Structural)]
pub enum FatalError {
    /// A 64-bit float was declared as a callback parameter, which this
    /// direction of the bridge refuses to support.
    UnsupportedDouble,
    /// A scalar shape carried a tag naming no known scalar kind.
    UnrecognizedScalarTag(i32),
    /// An array shape carried an element tag naming no known element kind.
    UnrecognizedElementTag(i32),
    /// An array shape declared a length but no element kind.
    MissingElementTag,
}

impl FatalError {
    /// True of the unsupported-shape class, false of the unrecognized-shape
    /// class.
    pub open spec fn spec_is_unsupported(self) -> bool {
        self is UnsupportedDouble
    }

    /// Reports which of the two fault classes this is.
    pub fn is_unsupported(&self) -> (r: bool)
        ensures
            r == self.spec_is_unsupported(),
    {
        match self {
            FatalError::UnsupportedDouble => true,
            _ => false,
        }
    }
}

} // verus!
