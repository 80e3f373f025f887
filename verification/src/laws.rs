//! The laws the decoder obeys, stated over the spec-level model and proved
//! once for all inputs: which variant each scalar kind yields, the round
//! trips of the word-sized kinds, when decoding fails fatally, and how
//! composites dispatch between the array path and struct handoff.

use vstd::prelude::*;
use crate::decode::DecodeStep;
use crate::decode::ReadRequest;
use crate::decode::spec_decode_step;
use crate::decode::spec_scalar_step;
use crate::decoded::Decoded;
use crate::decoded::FatalError;
use crate::decoded::Handle;
use crate::shape::CompositeShape;
use crate::shape::Shape;
use crate::tags::ElementKind;
use crate::tags::ScalarKind;
use crate::tags::TAG_DOUBLE;
use crate::tags::TAG_EXTERNAL_ARRAY;
use crate::tags::TAG_STRING_ARRAY;
use crate::tags::TAG_U8;
use crate::tags::spec_element_kind_of_tag;
use crate::tags::spec_scalar_kind_of_tag;

verus! {

/// Whether a decode step is the outcome the given scalar kind owes: the
/// finished value of the matching variant for the word-sized kinds, the
/// string read for the string kind. No step is owed for the 64-bit float
/// kind, which never succeeds.
pub open spec fn scalar_outcome_matches(kind: ScalarKind, step: DecodeStep) -> bool {
    match kind {
        ScalarKind::U8 => step matches DecodeStep::Done(Decoded::U8(_)),
        ScalarKind::I32 => step matches DecodeStep::Done(Decoded::I32(_)),
        ScalarKind::I64 => step matches DecodeStep::Done(Decoded::I64(_)),
        ScalarKind::U64 => step matches DecodeStep::Done(Decoded::U64(_)),
        ScalarKind::Boolean => step matches DecodeStep::Done(Decoded::Boolean(_)),
        ScalarKind::Str => step matches DecodeStep::Read(ReadRequest::CString { .. }),
        ScalarKind::External => step matches DecodeStep::Done(Decoded::External(_)),
        ScalarKind::Void => step == DecodeStep::Done(Decoded::Void),
        ScalarKind::Double => false,
    }
}

/// The declared element count an array read request carries; zero for the
/// requests that are not element-counted (string and struct reads).
pub open spec fn request_len(r: ReadRequest) -> usize {
    match r {
        ReadRequest::CString { .. } => 0,
        ReadRequest::StringArray { len, .. } => len,
        ReadRequest::I32Array { len, .. } => len,
        ReadRequest::ByteArray { len, .. } => len,
        ReadRequest::DoubleArray { len, .. } => len,
        ReadRequest::ExternalArray { len, .. } => len,
        ReadRequest::Struct { .. } => 0,
    }
}

/// The element kind an array read request serves, or `None` for the requests
/// that serve no array.
pub open spec fn request_kind(r: ReadRequest) -> Option<ElementKind> {
    match r {
        ReadRequest::CString { .. } => None,
        ReadRequest::StringArray { .. } => Some(ElementKind::StringArray),
        ReadRequest::I32Array { .. } => Some(ElementKind::I32Array),
        ReadRequest::ByteArray { .. } => Some(ElementKind::U8Array),
        ReadRequest::DoubleArray { .. } => Some(ElementKind::DoubleArray),
        ReadRequest::ExternalArray { .. } => Some(ElementKind::ExternalArray),
        ReadRequest::Struct { .. } => None,
    }
}

/// The tag resolvers know exactly the declared tag sets — every tag outside
/// them resolves to no kind, so no unknown tag can silently borrow a kind.
pub proof fn lemma_resolvers_cover_exactly(tag: i32)
    ensures
        spec_scalar_kind_of_tag(tag) is Some <==> TAG_U8 <= tag <= TAG_DOUBLE,
        spec_element_kind_of_tag(tag) is Some <==> TAG_STRING_ARRAY <= tag <= TAG_EXTERNAL_ARRAY,
{
}

/// Distinct tags resolve to distinct kinds: no two scalar tags share a
/// scalar kind, and no two element tags share an element kind.
pub proof fn lemma_resolvers_injective(a: i32, b: i32)
    ensures
        spec_scalar_kind_of_tag(a) is Some && spec_scalar_kind_of_tag(a) == spec_scalar_kind_of_tag(
            b,
        ) ==> a == b,
        spec_element_kind_of_tag(a) is Some && spec_element_kind_of_tag(a)
            == spec_element_kind_of_tag(b) ==> a == b,
{
}

/// Every scalar kind except the 64-bit float decodes every raw word
/// successfully, to the outcome variant matching the kind exactly.
pub proof fn lemma_scalar_variant_matches(kind: ScalarKind, raw: u64)
    requires
        kind != ScalarKind::Double,
    ensures
        spec_scalar_step(kind, raw) matches Ok(step) && scalar_outcome_matches(kind, step),
{
}

/// Round trip for unsigned bytes: a byte encoded as a native word decodes to
/// the same byte.
pub proof fn lemma_round_trip_u8(v: u8)
    ensures
        spec_scalar_step(ScalarKind::U8, v as u64) == Ok::<DecodeStep, FatalError>(
            DecodeStep::Done(Decoded::U8(v)),
        ),
{
    assert((v as u64) as u8 == v) by (bit_vector);
}

/// Round trip for 32-bit signed integers: a value encoded as a native word
/// decodes to the same value.
pub proof fn lemma_round_trip_i32(v: i32)
    ensures
        spec_scalar_step(ScalarKind::I32, v as u64) == Ok::<DecodeStep, FatalError>(
            DecodeStep::Done(Decoded::I32(v)),
        ),
{
    assert((v as u64) as i32 == v) by (bit_vector);
}

/// Round trip for 64-bit signed integers: a value encoded as a native word
/// decodes to the same value.
pub proof fn lemma_round_trip_i64(v: i64)
    ensures
        spec_scalar_step(ScalarKind::I64, v as u64) == Ok::<DecodeStep, FatalError>(
            DecodeStep::Done(Decoded::I64(v)),
        ),
{
    assert((v as u64) as i64 == v) by (bit_vector);
}

/// Round trip for 64-bit unsigned integers: the raw word is the value.
pub proof fn lemma_round_trip_u64(v: u64)
    ensures
        spec_scalar_step(ScalarKind::U64, v) == Ok::<DecodeStep, FatalError>(
            DecodeStep::Done(Decoded::U64(v)),
        ),
{
}

/// Round trip for booleans: false encodes as the zero word and decodes back
/// to false, true encodes as one and decodes back to true; any word whose
/// low 32 bits are nonzero decodes to true.
pub proof fn lemma_round_trip_boolean(v: bool)
    ensures
        spec_scalar_step(ScalarKind::Boolean, if v { 1u64 } else { 0u64 }) == Ok::<
            DecodeStep,
            FatalError,
        >(DecodeStep::Done(Decoded::Boolean(v))),
{
    assert(1u64 as i32 != 0) by (bit_vector);
    assert(0u64 as i32 == 0) by (bit_vector);
}

/// Round trip for opaque handles: the wrapped handle carries the raw pointer
/// address unchanged, so the host can hand it back without loss.
pub proof fn lemma_round_trip_external(addr: u64)
    ensures
        spec_scalar_step(ScalarKind::External, addr) == Ok::<DecodeStep, FatalError>(
            DecodeStep::Done(Decoded::External(Handle { addr })),
        ),
{
}

/// Decoding the 64-bit float kind fails fatally for every raw word, always
/// with the unsupported-shape fault, whether reached through the kind or
/// through a scalar shape carrying the float tag.
pub proof fn lemma_double_always_fatal(raw: u64, need_thread_safe: bool)
    ensures
        spec_scalar_step(ScalarKind::Double, raw) == Err::<DecodeStep, FatalError>(
            FatalError::UnsupportedDouble,
        ),
        spec_decode_step(Shape::Scalar(TAG_DOUBLE), raw, need_thread_safe) == Err::<
            DecodeStep,
            FatalError,
        >(FatalError::UnsupportedDouble),
{
}

/// A scalar shape whose tag names no known scalar kind always fails fatally
/// with the unrecognized-shape fault carrying that tag — never a default.
pub proof fn lemma_unknown_scalar_tag_fatal(tag: i32, raw: u64, need_thread_safe: bool)
    requires
        spec_scalar_kind_of_tag(tag) is None,
    ensures
        spec_decode_step(Shape::Scalar(tag), raw, need_thread_safe) == Err::<
            DecodeStep,
            FatalError,
        >(FatalError::UnrecognizedScalarTag(tag)),
{
}

/// An array shape whose element tag names no known element kind always fails
/// fatally with the unrecognized-shape fault carrying that tag — never a
/// default.
pub proof fn lemma_unknown_element_tag_fatal(c: CompositeShape, raw: u64, need_thread_safe: bool)
    requires
        c.array_len is Some,
        c.element_tag matches Some(t) && spec_element_kind_of_tag(t) is None,
    ensures
        spec_decode_step(Shape::Composite(c), raw, need_thread_safe) == Err::<
            DecodeStep,
            FatalError,
        >(FatalError::UnrecognizedElementTag(c.element_tag.unwrap())),
{
}

/// An array shape that declares a length but no element kind always fails
/// fatally with the missing-element-kind fault.
pub proof fn lemma_missing_element_tag_fatal(c: CompositeShape, raw: u64, need_thread_safe: bool)
    requires
        c.array_len is Some,
        c.element_tag is None,
    ensures
        spec_decode_step(Shape::Composite(c), raw, need_thread_safe) == Err::<
            DecodeStep,
            FatalError,
        >(FatalError::MissingElementTag),
{
}

/// An array shape — a composite with a declared length and a recognized
/// element kind — always dispatches to the array path: the read request is
/// the one of that element kind, its element count is exactly the declared
/// length, and a byte-array request carries the thread-safety flag
/// unchanged.
pub proof fn lemma_array_dispatch(c: CompositeShape, raw: u64, need_thread_safe: bool)
    requires
        c.array_len matches Some(n) && n >= 0,
        c.element_tag matches Some(t) && spec_element_kind_of_tag(t) is Some,
    ensures
        spec_decode_step(Shape::Composite(c), raw, need_thread_safe) matches Ok(step)
            && step matches DecodeStep::Read(req)
            && request_kind(req) == spec_element_kind_of_tag(c.element_tag.unwrap())
            && request_len(req) as int == c.array_len.unwrap() as int
            && (req matches ReadRequest::ByteArray { need_thread_safe: f, .. }
            ==> f == need_thread_safe),
{
    let n = c.array_len.unwrap();
    assert(n as usize as int == n as int) by (bit_vector)
        requires
            n >= 0,
    ;
}

/// A composite shape lacking array metadata always dispatches to struct
/// handoff — never the array path — handing the raw base pointer, the field
/// shapes and the thread-safety flag through unchanged, whatever else the
/// composite holds.
pub proof fn lemma_struct_handoff(c: CompositeShape, raw: u64, need_thread_safe: bool)
    requires
        c.array_len is None,
    ensures
        spec_decode_step(Shape::Composite(c), raw, need_thread_safe) == Ok::<
            DecodeStep,
            FatalError,
        >(
            DecodeStep::Read(ReadRequest::Struct {
                base: raw,
                fields: c.fields,
                need_thread_safe,
            }),
        ),
{
}

} // verus!
