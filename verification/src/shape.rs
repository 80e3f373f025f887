//! Declared shapes: how a raw native word handed to a callback is to be read.
//!
//! A shape is fixed at callback-registration time and read-only afterwards. A
//! scalar shape carries one integer tag; a composite shape may carry array
//! metadata (a declared length and an element-kind tag) and otherwise
//! describes a struct whose fields are shapes in turn.

use vstd::prelude::*;

verus! {

/// Array metadata and field shapes of a composite shape.
///
/// `array_len` and `element_tag` stand for the optional integer entries of
/// the registration-time description: when `array_len` is present the
/// composite is an array, otherwise it is a struct whose `fields` map field
/// names to nested shapes.
#[derive(Debug, PartialEq)]
pub struct CompositeShape {
    /// Declared element count, when the composite describes an array.
    pub array_len: Option<i32>,
    /// Tag of the array-element kind, when one was declared.
    pub element_tag: Option<i32>,
    /// Field names and shapes, read only by the struct materializer.
    pub fields: Vec<(String, Shape)>,
}

/// Declared interpretation of one raw callback argument.
#[derive(Debug, PartialEq)]
pub enum Shape {
    /// A scalar, named by an integer tag.
    Scalar(i32),
    /// A composite: an array when array metadata is present, else a struct.
    Composite(CompositeShape),
}

impl Shape {
    /// A declared array length, if any, is non-negative.
    ///
    /// A negative length cannot describe any native array; it is ruled out
    /// here rather than checked at decode time, mirroring that the length is
    /// a registration-time invariant the decoder inherits.
    pub open spec fn wf(self) -> bool {
        self matches Shape::Composite(c) ==> (c.array_len matches Some(n) ==> n >= 0)
    }
}

} // verus!
