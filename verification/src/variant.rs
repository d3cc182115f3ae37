//! Values of attributes: a tagged union of scalar kinds and of arrays of them.

use vstd::prelude::*;
use std::sync::Arc;

verus! {

/// A value together with its kind.
///
/// Floating-point kinds hold the IEEE 754 bit pattern of the number, so that a value
/// passes through the library unchanged, bit for bit. An array shares its elements with
/// its clones: a snapshot is kept and queued without the elements being copied.
#[derive(Debug, PartialEq, Eq)]
pub enum Variant {
    Boolean(bool),
    SByte(i8),
    Byte(u8),
    Int16(i16),
    UInt16(u16),
    Int32(i32),
    UInt32(u32),
    Int64(i64),
    UInt64(u64),
    /// The bits of a single-precision number.
    Float(u32),
    /// The bits of a double-precision number.
    Double(u64),
    String(String),
    Array(Arc<Vec<Variant>>),
}

/// Another handle on the elements of an array, made with `Arc::clone` of the standard
/// library: the handle that comes back points to the very same elements.
#[verifier::external_body]
fn share(elements: &Arc<Vec<Variant>>) -> (shared: Arc<Vec<Variant>>)
    ensures
        shared == *elements,
{
    Arc::clone(elements)
}

impl Clone for Variant {
    fn clone(&self) -> (copy: Self)
        ensures
            copy == *self,
    {
        match self {
            Variant::Boolean(v) => Variant::Boolean(*v),
            Variant::SByte(v) => Variant::SByte(*v),
            Variant::Byte(v) => Variant::Byte(*v),
            Variant::Int16(v) => Variant::Int16(*v),
            Variant::UInt16(v) => Variant::UInt16(*v),
            Variant::Int32(v) => Variant::Int32(*v),
            Variant::UInt32(v) => Variant::UInt32(*v),
            Variant::Int64(v) => Variant::Int64(*v),
            Variant::UInt64(v) => Variant::UInt64(*v),
            Variant::Float(v) => Variant::Float(*v),
            Variant::Double(v) => Variant::Double(*v),
            Variant::String(v) => Variant::String(v.clone()),
            Variant::Array(v) => Variant::Array(share(v)),
        }
    }
}

} // verus!
