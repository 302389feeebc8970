//! Primitive typing for vertex data: the compile-time description of one
//! vertex record's named fields and their raw layout.

use vstd::prelude::*;

verus! {

/// The driver-level scalar kind of one component of a vertex attribute.
#[derive(Clone, Copy, Debug, PartialEq, Eq, Structural)]
pub enum AttribDatumType {
    Byte,
    UnsignedByte,
    Short,
    UnsignedShort,
    Fixed,
    Float,
}

/// The shape of one vertex attribute: how many components it has, of which
/// scalar kind, and whether integer values are normalized on fetch.
#[derive(Clone, Copy, Debug, PartialEq, Eq, Structural)]
pub struct VertexAttributeType {
    pub components: u32,
    pub data: AttribDatumType,
    pub normalize: bool,
}

/// One named field of a vertex record: its shape and its position within
/// the record's raw bytes.
#[derive(Clone, Debug)]
pub struct VertexAttribute {
    pub name: String,
    pub ty: VertexAttributeType,
    pub stride: usize,
    pub offset: usize,
}

impl VertexAttribute {
    /// A well-formed attribute has between one and four components, as the
    /// driver's attribute-pointer call demands.
    pub open spec fn wf(&self) -> bool {
        1 <= self.ty.components <= 4
    }
}

/// A vertex record type: a compile-time-typed description of one vertex's
/// raw byte layout and named fields.  Users of the library implement this
/// for their own record types.
pub trait VertexData {
    /// The record's declared fields, in declaration order.
    spec fn spec_attributes() -> Seq<VertexAttribute>;

    /// The size in bytes of one record.
    spec fn spec_vertex_size() -> usize;

    /// Report the record's declared fields, in declaration order.
    fn attributes() -> (v: Vec<VertexAttribute>)
        ensures
            v@ == Self::spec_attributes(),
            forall|i: int| 0 <= i < v@.len() ==> (#[trigger] v@[i]).wf(),
    ;

    /// Report the size in bytes of one record.
    fn vertex_size() -> (n: usize)
        ensures
            n == Self::spec_vertex_size(),
    ;
}

} // verus!
