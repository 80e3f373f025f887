//! Integer type tags and their resolution to scalar and array-element kinds.
//!
//! A shape carries a small integer chosen at callback-registration time. The
//! resolvers here map a tag to the kind it names, and report an unknown tag
//! explicitly instead of falling back to any default.

use vstd::prelude::*;

verus! {

/// Tag naming the unsigned-byte scalar kind.
pub const TAG_U8: i32 = 0;
/// Tag naming the 32-bit signed integer scalar kind.
pub const TAG_I32: i32 = 1;
/// Tag naming the 64-bit signed integer scalar kind.
pub const TAG_I64: i32 = 2;
/// Tag naming the 64-bit unsigned integer scalar kind.
pub const TAG_U64: i32 = 3;
/// Tag naming the boolean scalar kind.
pub const TAG_BOOLEAN: i32 = 4;
/// Tag naming the null-terminated string scalar kind.
pub const TAG_STRING: i32 = 5;
/// Tag naming the opaque native-handle scalar kind.
pub const TAG_EXTERNAL: i32 = 6;
/// Tag naming the void scalar kind.
pub const TAG_VOID: i32 = 7;
/// Tag naming the 64-bit float scalar kind (unsupported in this direction).
pub const TAG_DOUBLE: i32 = 8;

/// Tag naming the string-array element kind.
pub const TAG_STRING_ARRAY: i32 = 9;
/// Tag naming the 32-bit signed integer array element kind.
pub const TAG_I32_ARRAY: i32 = 10;
/// Tag naming the byte-array element kind.
pub const TAG_U8_ARRAY: i32 = 11;
/// Tag naming the 64-bit float array element kind.
pub const TAG_DOUBLE_ARRAY: i32 = 12;
/// Tag naming the opaque-handle array element kind.
pub const TAG_EXTERNAL_ARRAY: i32 = 13;

/// The scalar kinds a scalar shape can name.
#[derive(Clone, Copy, Debug, PartialEq, Eq, Structural)]
pub enum ScalarKind {
    U8,
    I32,
    I64,
    U64,
    Boolean,
    Str,
    External,
    Void,
    Double,
}

/// The element kinds an array shape can name.
#[derive(Clone, Copy, Debug, PartialEq, Eq, Structural)]
pub enum ElementKind {
    StringArray,
    I32Array,
    U8Array,
    DoubleArray,
    ExternalArray,
}

/// The scalar kind a tag names, or `None` for an unknown tag.
pub open spec fn spec_scalar_kind_of_tag(tag: i32) -> Option<ScalarKind> {
    if tag == TAG_U8 {
        Some(ScalarKind::U8)
    } else if tag == TAG_I32 {
        Some(ScalarKind::I32)
    } else if tag == TAG_I64 {
        Some(ScalarKind::I64)
    } else if tag == TAG_U64 {
        Some(ScalarKind::U64)
    } else if tag == TAG_BOOLEAN {
        Some(ScalarKind::Boolean)
    } else if tag == TAG_STRING {
        Some(ScalarKind::Str)
    } else if tag == TAG_EXTERNAL {
        Some(ScalarKind::External)
    } else if tag == TAG_VOID {
        Some(ScalarKind::Void)
    } else if tag == TAG_DOUBLE {
        Some(ScalarKind::Double)
    } else {
        None
    }
}

/// The element kind a tag names, or `None` for an unknown tag.
pub open spec fn spec_element_kind_of_tag(tag: i32) -> Option<ElementKind> {
    if tag == TAG_STRING_ARRAY {
        Some(ElementKind::StringArray)
    } else if tag == TAG_I32_ARRAY {
        Some(ElementKind::I32Array)
    } else if tag == TAG_U8_ARRAY {
        Some(ElementKind::U8Array)
    } else if tag == TAG_DOUBLE_ARRAY {
        Some(ElementKind::DoubleArray)
    } else if tag == TAG_EXTERNAL_ARRAY {
        Some(ElementKind::ExternalArray)
    } else {
        None
    }
}

/// Resolves a scalar tag, reporting an unknown tag as `None`.
pub fn scalar_kind_of_tag(tag: i32) -> (r: Option<ScalarKind>)
    ensures
        r == spec_scalar_kind_of_tag(tag),
{
    if tag == TAG_U8 {
        Some(ScalarKind::U8)
    } else if tag == TAG_I32 {
        Some(ScalarKind::I32)
    } else if tag == TAG_I64 {
        Some(ScalarKind::I64)
    } else if tag == TAG_U64 {
        Some(ScalarKind::U64)
    } else if tag == TAG_BOOLEAN {
        Some(ScalarKind::Boolean)
    } else if tag == TAG_STRING {
        Some(ScalarKind::Str)
    } else if tag == TAG_EXTERNAL {
        Some(ScalarKind::External)
    } else if tag == TAG_VOID {
        Some(ScalarKind::Void)
    } else if tag == TAG_DOUBLE {
        Some(ScalarKind::Double)
    } else {
        None
    }
}

/// Resolves an array-element tag, reporting an unknown tag as `None`.
pub fn element_kind_of_tag(tag: i32) -> (r: Option<ElementKind>)
    ensures
        r == spec_element_kind_of_tag(tag),
{
    if tag == TAG_STRING_ARRAY {
        Some(ElementKind::StringArray)
    } else if tag == TAG_I32_ARRAY {
        Some(ElementKind::I32Array)
    } else if tag == TAG_U8_ARRAY {
        Some(ElementKind::U8Array)
    } else if tag == TAG_DOUBLE_ARRAY {
        Some(ElementKind::DoubleArray)
    } else if tag == TAG_EXTERNAL_ARRAY {
        Some(ElementKind::ExternalArray)
    } else {
        None
    }
}

} // verus!
