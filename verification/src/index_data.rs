//! Primitive typing for index (element) data: the tags that tell the driver
//! how wide one index element is.

use vstd::prelude::*;

verus! {

/// The driver-level element kind of one index datum.
#[derive(Clone, Copy, Debug, PartialEq, Eq, Structural)]
pub enum IndexDatumType {
    UnsignedByte,
    UnsignedShort,
}

/// The width in bytes of one index element of the given kind.
pub open spec fn spec_index_size(t: IndexDatumType) -> usize {
    match t {
        IndexDatumType::UnsignedByte => 1usize,
        IndexDatumType::UnsignedShort => 2usize,
    }
}

/// Executable twin of [`spec_index_size`].
pub fn index_size(t: IndexDatumType) -> (n: usize)
    ensures
        n == spec_index_size(t),
{
    match t {
        IndexDatumType::UnsignedByte => 1,
        IndexDatumType::UnsignedShort => 2,
    }
}

/// A scalar type that can serve as one index element.
pub trait IndexDatum {
    /// The driver-level kind this type maps to.
    spec fn spec_datum_type() -> IndexDatumType;

    /// Report the driver-level kind of this index type.
    fn index_datum_type() -> (t: IndexDatumType)
        ensures
            t == Self::spec_datum_type(),
    ;
}

impl IndexDatum for u8 {
    open spec fn spec_datum_type() -> IndexDatumType {
        IndexDatumType::UnsignedByte
    }

    fn index_datum_type() -> (t: IndexDatumType)
        ensures
            t == Self::spec_datum_type(),
    {
        IndexDatumType::UnsignedByte
    }
}

impl IndexDatum for u16 {
    open spec fn spec_datum_type() -> IndexDatumType {
        IndexDatumType::UnsignedShort
    }

    fn index_datum_type() -> (t: IndexDatumType)
        ensures
            t == Self::spec_datum_type(),
    {
        IndexDatumType::UnsignedShort
    }
}

} // verus!
