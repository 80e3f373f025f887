//! The decode core: dispatch on a shape, decode word-sized scalars in place,
//! and plan the single memory read that strings, arrays and structs need.
//!
//! The decoder itself never touches native memory. Where a shape calls for
//! bytes behind a pointer, [`decode_step`] returns the exact [`ReadRequest`]
//! the embedding must perform; the embedding hands the bytes read back to the
//! matching `finish_*` function, which assembles the final [`Decoded`] value.
//! Every step is total over well-formed shapes: it returns a value or reports
//! one of the two fatal faults, and never panics.

use vstd::prelude::*;
use crate::decoded::Decoded;
use crate::decoded::FatalError;
use crate::decoded::Handle;
use crate::shape::Shape;
use crate::tags::ElementKind;
use crate::tags::ScalarKind;
use crate::tags::element_kind_of_tag;
use crate::tags::scalar_kind_of_tag;
use crate::tags::spec_element_kind_of_tag;
use crate::tags::spec_scalar_kind_of_tag;

verus! {

/// The one memory read a shape calls for, to be performed by the embedding
/// on the native side and answered through the matching `finish_*` function.
///
/// Every request names the raw base address and, for arrays, the exact
/// declared element count: the embedding reads exactly `len` elements of the
/// element kind's native width, neither truncating nor padding.
#[derive(Debug, PartialEq)]
pub enum ReadRequest {
    /// Read the null-terminated byte sequence at `addr`; answer with
    /// [`finish_cstring`].
    CString {
        /// Address of the first byte of the string.
        addr: u64,
    },
    /// Read `len` string pointers at `base`, then each pointed-to
    /// null-terminated byte sequence; answer with [`finish_string_array`].
    StringArray {
        /// Address of the first string pointer.
        base: u64,
        /// Declared element count.
        len: usize,
    },
    /// Read `len` contiguous 32-bit signed integers at `base`; answer with
    /// [`finish_i32_array`].
    I32Array {
        /// Address of the first element.
        base: u64,
        /// Declared element count.
        len: usize,
    },
    /// Read `len` contiguous bytes at `base`; answer with
    /// [`finish_byte_array`], passing the same thread-safety flag.
    ByteArray {
        /// Address of the first byte.
        base: u64,
        /// Declared element count.
        len: usize,
        /// Whether the bytes must be exposed as an owned copy.
        need_thread_safe: bool,
    },
    /// Read `len` contiguous 64-bit floats at `base`, each as its bit
    /// pattern; answer with [`finish_double_array`].
    DoubleArray {
        /// Address of the first element.
        base: u64,
        /// Declared element count.
        len: usize,
    },
    /// Read `len` contiguous pointers at `base` and dereference each one
    /// level to the handle it points to; answer with
    /// [`finish_external_array`].
    ExternalArray {
        /// Address of the first pointer slot.
        base: u64,
        /// Declared element count.
        len: usize,
    },
    /// Hand `base` and the field shapes to the external struct materializer
    /// unchanged, propagating the thread-safety flag so that nested byte
    /// arrays obey the same policy; answer with [`finish_struct`].
    Struct {
        /// Raw base pointer of the struct.
        base: u64,
        /// Field names and shapes, passed through unchanged.
        fields: Vec<(String, Shape)>,
        /// Thread-safety flag, propagated unchanged.
        need_thread_safe: bool,
    },
}

/// Outcome of one dispatch: either a finished value (word-sized scalars) or
/// the memory read the shape calls for.
#[derive(Debug, PartialEq)]
pub enum DecodeStep {
    /// The shape needed no memory: the decoded value itself.
    Done(Decoded),
    /// The shape needs native memory: the read to perform.
    Read(ReadRequest),
}

/// What the lossy decoding of a byte sequence reads as text: the result of
/// UTF-8 decoding with every ill-formed sequence replaced by the substitution
/// character. Named here; stated only through [`utf8_lossy`].
pub uninterp spec fn lossy_utf8(bytes: Seq<u8>) -> Seq<char>;

/// Relies on std's `String::from_utf8_lossy`: the result is a function of
/// the bytes alone — valid UTF-8 decoded as is, every ill-formed sequence
/// replaced by U+FFFD — and an empty input gives an empty string.
#[verifier::external_body]
fn utf8_lossy(bytes: &Vec<u8>) -> (r: String)
    ensures
        r@ == lossy_utf8(bytes@),
        bytes@.len() == 0 ==> r@.len() == 0,
{
    String::from_utf8_lossy(bytes.as_slice()).into_owned()
}

/// What decoding the raw word as the given scalar kind yields: a finished
/// value for the word-sized kinds, the read to perform for strings, and the
/// matching fatal fault for the unsupported 64-bit float kind.
pub open spec fn spec_scalar_step(kind: ScalarKind, raw: u64) -> Result<DecodeStep, FatalError> {
    match kind {
        ScalarKind::U8 => Ok(DecodeStep::Done(Decoded::U8(raw as u8))),
        ScalarKind::I32 => Ok(DecodeStep::Done(Decoded::I32(raw as i32))),
        ScalarKind::I64 => Ok(DecodeStep::Done(Decoded::I64(raw as i64))),
        ScalarKind::U64 => Ok(DecodeStep::Done(Decoded::U64(raw))),
        ScalarKind::Boolean => Ok(DecodeStep::Done(Decoded::Boolean(raw as i32 != 0))),
        ScalarKind::Str => Ok(DecodeStep::Read(ReadRequest::CString { addr: raw })),
        ScalarKind::External => Ok(DecodeStep::Done(Decoded::External(Handle { addr: raw }))),
        ScalarKind::Void => Ok(DecodeStep::Done(Decoded::Void)),
        ScalarKind::Double => Err(FatalError::UnsupportedDouble),
    }
}

/// The read request an array shape with the given element kind, base pointer
/// and declared length calls for.
pub open spec fn spec_array_request(
    kind: ElementKind,
    base: u64,
    len: usize,
    need_thread_safe: bool,
) -> ReadRequest {
    match kind {
        ElementKind::StringArray => ReadRequest::StringArray { base, len },
        ElementKind::I32Array => ReadRequest::I32Array { base, len },
        ElementKind::U8Array => ReadRequest::ByteArray { base, len, need_thread_safe },
        ElementKind::DoubleArray => ReadRequest::DoubleArray { base, len },
        ElementKind::ExternalArray => ReadRequest::ExternalArray { base, len },
    }
}

/// What one dispatch of the decoder yields for a shape, a raw word and the
/// thread-safety flag: the scalar path for scalar shapes, the array path for
/// composites with array metadata, struct handoff for composites without,
/// and the matching fatal fault for every unrecognized or unsupported shape.
pub open spec fn spec_decode_step(
    shape: Shape,
    raw: u64,
    need_thread_safe: bool,
) -> Result<DecodeStep, FatalError> {
    match shape {
        Shape::Scalar(tag) => match spec_scalar_kind_of_tag(tag) {
            Some(kind) => spec_scalar_step(kind, raw),
            None => Err(FatalError::UnrecognizedScalarTag(tag)),
        },
        Shape::Composite(c) => match c.array_len {
            Some(n) => match c.element_tag {
                Some(t) => match spec_element_kind_of_tag(t) {
                    Some(kind) => Ok(
                        DecodeStep::Read(spec_array_request(kind, raw, n as usize, need_thread_safe)),
                    ),
                    None => Err(FatalError::UnrecognizedElementTag(t)),
                },
                None => Err(FatalError::MissingElementTag),
            },
            None => Ok(
                DecodeStep::Read(ReadRequest::Struct {
                    base: raw,
                    fields: c.fields,
                    need_thread_safe,
                }),
            ),
        },
    }
}

/// Scalar decoder: interprets the raw word as the given scalar kind.
///
/// Word-sized kinds finish immediately — truncation to 8 or 32 bits,
/// reinterpretation at full width, zero-versus-nonzero for booleans, handle
/// wrapping for externals, unit for void. The string kind yields the read of
/// the pointed-to bytes; the 64-bit float kind is refused as unsupported.
pub fn scalar_step(kind: ScalarKind, raw: u64) -> (r: Result<DecodeStep, FatalError>)
    ensures
        r == spec_scalar_step(kind, raw),
{
    match kind {
        ScalarKind::U8 => Ok(DecodeStep::Done(Decoded::U8(#[verifier::truncate] (raw as u8)))),
        ScalarKind::I32 => Ok(DecodeStep::Done(Decoded::I32(#[verifier::truncate] (raw as i32)))),
        ScalarKind::I64 => Ok(DecodeStep::Done(Decoded::I64(#[verifier::truncate] (raw as i64)))),
        ScalarKind::U64 => Ok(DecodeStep::Done(Decoded::U64(raw))),
        ScalarKind::Boolean => Ok(
            DecodeStep::Done(Decoded::Boolean(#[verifier::truncate] (raw as i32) != 0)),
        ),
        ScalarKind::Str => Ok(DecodeStep::Read(ReadRequest::CString { addr: raw })),
        ScalarKind::External => Ok(DecodeStep::Done(Decoded::External(Handle { addr: raw }))),
        ScalarKind::Void => Ok(DecodeStep::Done(Decoded::Void)),
        ScalarKind::Double => Err(FatalError::UnsupportedDouble),
    }
}

/// Shape dispatcher: routes one raw callback argument to the scalar path,
/// the array path or struct handoff, per its declared shape.
///
/// Exactly the unrecognized shapes fail — an unknown scalar tag, an unknown
/// element tag, or array metadata without an element kind — along with the
/// unsupported 64-bit float scalar; every other shape yields its step.
pub fn decode_step(shape: Shape, raw: u64, need_thread_safe: bool) -> (r: Result<
    DecodeStep,
    FatalError,
>)
    requires
        shape.wf(),
    ensures
        r == spec_decode_step(shape, raw, need_thread_safe),
{
    match shape {
        Shape::Scalar(tag) => match scalar_kind_of_tag(tag) {
            Some(kind) => scalar_step(kind, raw),
            None => Err(FatalError::UnrecognizedScalarTag(tag)),
        },
        Shape::Composite(c) => match c.array_len {
            Some(n) => match c.element_tag {
                Some(t) => match element_kind_of_tag(t) {
                    Some(kind) => Ok(
                        DecodeStep::Read(array_request(kind, raw, n as usize, need_thread_safe)),
                    ),
                    None => Err(FatalError::UnrecognizedElementTag(t)),
                },
                None => Err(FatalError::MissingElementTag),
            },
            None => Ok(
                DecodeStep::Read(ReadRequest::Struct {
                    base: raw,
                    fields: c.fields,
                    need_thread_safe,
                }),
            ),
        },
    }
}

/// Builds the read request for an array shape.
fn array_request(kind: ElementKind, base: u64, len: usize, need_thread_safe: bool) -> (r:
    ReadRequest)
    ensures
        r == spec_array_request(kind, base, len, need_thread_safe),
{
    match kind {
        ElementKind::StringArray => ReadRequest::StringArray { base, len },
        ElementKind::I32Array => ReadRequest::I32Array { base, len },
        ElementKind::U8Array => ReadRequest::ByteArray { base, len, need_thread_safe },
        ElementKind::DoubleArray => ReadRequest::DoubleArray { base, len },
        ElementKind::ExternalArray => ReadRequest::ExternalArray { base, len },
    }
}

/// Buffer safety policy: exposes decoded bytes to the host.
///
/// When the invoking thread requires thread safety the bytes are always
/// exposed as an owned copy; only when it does not may they stand as a
/// direct view.
pub fn expose_bytes(bytes: Vec<u8>, need_thread_safe: bool) -> (r: Decoded)
    ensures
        need_thread_safe ==> r == Decoded::BufferCopied(bytes),
        !need_thread_safe ==> r == Decoded::BufferView(bytes),
{
    if need_thread_safe {
        Decoded::BufferCopied(bytes)
    } else {
        Decoded::BufferView(bytes)
    }
}

/// Finishes a string read: the bytes up to the terminator, decoded with
/// lossy substitution so that bad bytes never fail the decode.
pub fn finish_cstring(bytes: Vec<u8>) -> (r: Decoded)
    ensures
        r matches Decoded::Str(s) && s@ == lossy_utf8(bytes@),
{
    Decoded::Str(utf8_lossy(&bytes))
}

/// Finishes a string-array read: one byte sequence per element, each decoded
/// with lossy substitution; the result keeps the element count and order.
pub fn finish_string_array(items: Vec<Vec<u8>>) -> (r: Decoded)
    ensures
        r matches Decoded::StringArray(v) && v@.len() == items@.len() && (forall|j: int|
            0 <= j < items@.len() ==> v@[j]@ == lossy_utf8(items@[j]@)),
{
    let mut out: Vec<String> = Vec::new();
    let mut idx: usize = 0;
    while idx < items.len()
        invariant
            idx <= items@.len(),
            out@.len() == idx,
            forall|j: int| 0 <= j < idx ==> out@[j]@ == lossy_utf8(items@[j]@),
        decreases items@.len() - idx,
    {
        let s = utf8_lossy(&items[idx]);
        out.push(s);
        idx = idx + 1;
    }
    Decoded::StringArray(out)
}

/// Finishes a 32-bit integer array read: the elements, copied unchanged.
pub fn finish_i32_array(values: Vec<i32>) -> (r: Decoded)
    ensures
        r == Decoded::I32Array(values),
{
    Decoded::I32Array(values)
}

/// Finishes a byte-array read by routing the bytes through the buffer safety
/// policy with the flag the request carried.
pub fn finish_byte_array(bytes: Vec<u8>, need_thread_safe: bool) -> (r: Decoded)
    ensures
        need_thread_safe ==> r == Decoded::BufferCopied(bytes),
        !need_thread_safe ==> r == Decoded::BufferView(bytes),
{
    expose_bytes(bytes, need_thread_safe)
}

/// Finishes a 64-bit float array read: each element's bit pattern, copied
/// unchanged and never reinterpreted.
pub fn finish_double_array(bits: Vec<u64>) -> (r: Decoded)
    ensures
        r == Decoded::DoubleArray(bits),
{
    Decoded::DoubleArray(bits)
}

/// Finishes an opaque-handle array read: each dereferenced slot's address,
/// wrapped as a handle; the result keeps the element count and order.
pub fn finish_external_array(addrs: Vec<u64>) -> (r: Decoded)
    ensures
        r matches Decoded::ExternalArray(hs) && hs@.len() == addrs@.len() && (forall|j: int|
            0 <= j < addrs@.len() ==> hs@[j] == (Handle { addr: addrs@[j] })),
{
    let mut out: Vec<Handle> = Vec::new();
    let mut idx: usize = 0;
    while idx < addrs.len()
        invariant
            idx <= addrs@.len(),
            out@.len() == idx,
            forall|j: int| 0 <= j < idx ==> out@[j] == (Handle { addr: addrs@[j] }),
        decreases addrs@.len() - idx,
    {
        out.push(Handle { addr: addrs[idx] });
        idx = idx + 1;
    }
    Decoded::ExternalArray(out)
}

/// Finishes struct handoff: wraps the fields the external materializer
/// produced, unchanged.
pub fn finish_struct(fields: Vec<(String, Decoded)>) -> (r: Decoded)
    ensures
        r == Decoded::Object(fields),
{
    Decoded::Object(fields)
}

} // verus!
