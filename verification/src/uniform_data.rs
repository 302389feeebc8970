//! Primitive typing for uniform data: the shape tags that select exactly
//! one native uniform call variant, and the traits that map host types to
//! those tags at compile time.

use vstd::prelude::*;

verus! {

/// The scalar kind of a uniform's components.
#[derive(Clone, Copy, Debug, PartialEq, Eq, Structural)]
pub enum UniformPrimitiveType {
    Float,
    Int,
}

/// The shape of one uniform datum: a vector of arity one to four of
/// either scalar kind, or a square floating-point matrix.
#[derive(Clone, Copy, Debug, PartialEq, Eq, Structural)]
pub enum UniformDatumType {
    Vec1(UniformPrimitiveType),
    Vec2(UniformPrimitiveType),
    Vec3(UniformPrimitiveType),
    Vec4(UniformPrimitiveType),
    Matrix2x2,
    Matrix3x3,
    Matrix4x4,
}

/// A scalar type that can be a uniform component.
pub trait UniformPrimitive {
    /// The scalar kind this type maps to.
    spec fn spec_primitive_type() -> UniformPrimitiveType;

    /// Report the scalar kind of this type.
    fn uniform_primitive_type() -> (t: UniformPrimitiveType)
        ensures
            t == Self::spec_primitive_type(),
    ;
}

/// A type whose values are exactly one uniform datum.
pub trait UniformDatum {
    /// The shape this type maps to.
    spec fn spec_datum() -> UniformDatumType;

    /// Report the shape of this type.
    fn datum_type() -> (t: UniformDatumType)
        ensures
            t == Self::spec_datum(),
    ;
}

/// A type whose values can be handed to a uniform-setting call: a shape,
/// and a number of array elements of that shape.
pub trait UniformData {
    /// The shape this type maps to.
    spec fn spec_datum_type() -> UniformDatumType;

    /// How many array elements of the shape this value carries.
    spec fn spec_elements(&self) -> usize;

    /// Report the shape of this type.
    fn uniform_datum_type() -> (t: UniformDatumType)
        ensures
            t == Self::spec_datum_type(),
    ;

    /// Report how many array elements of the shape this value carries.
    fn uniform_elements(&self) -> (n: usize)
        ensures
            n == self.spec_elements(),
    ;
}

impl UniformPrimitive for i32 {
    open spec fn spec_primitive_type() -> UniformPrimitiveType {
        UniformPrimitiveType::Int
    }

    fn uniform_primitive_type() -> (t: UniformPrimitiveType)
        ensures
            t == Self::spec_primitive_type(),
    {
        UniformPrimitiveType::Int
    }
}

impl<T: UniformPrimitive> UniformDatum for T {
    open spec fn spec_datum() -> UniformDatumType {
        UniformDatumType::Vec1(T::spec_primitive_type())
    }

    fn datum_type() -> (t: UniformDatumType)
        ensures
            t == Self::spec_datum(),
    {
        UniformDatumType::Vec1(T::uniform_primitive_type())
    }
}

impl<T: UniformPrimitive> UniformDatum for [T; 1] {
    open spec fn spec_datum() -> UniformDatumType {
        UniformDatumType::Vec1(T::spec_primitive_type())
    }

    fn datum_type() -> (t: UniformDatumType)
        ensures
            t == Self::spec_datum(),
    {
        UniformDatumType::Vec1(T::uniform_primitive_type())
    }
}

impl<T: UniformPrimitive> UniformDatum for [T; 2] {
    open spec fn spec_datum() -> UniformDatumType {
        UniformDatumType::Vec2(T::spec_primitive_type())
    }

    fn datum_type() -> (t: UniformDatumType)
        ensures
            t == Self::spec_datum(),
    {
        UniformDatumType::Vec2(T::uniform_primitive_type())
    }
}

impl<T: UniformPrimitive> UniformDatum for [T; 3] {
    open spec fn spec_datum() -> UniformDatumType {
        UniformDatumType::Vec3(T::spec_primitive_type())
    }

    fn datum_type() -> (t: UniformDatumType)
        ensures
            t == Self::spec_datum(),
    {
        UniformDatumType::Vec3(T::uniform_primitive_type())
    }
}

impl<T: UniformPrimitive> UniformDatum for [T; 4] {
    open spec fn spec_datum() -> UniformDatumType {
        UniformDatumType::Vec4(T::spec_primitive_type())
    }

    fn datum_type() -> (t: UniformDatumType)
        ensures
            t == Self::spec_datum(),
    {
        UniformDatumType::Vec4(T::uniform_primitive_type())
    }
}

impl<T: UniformDatum> UniformData for T {
    open spec fn spec_datum_type() -> UniformDatumType {
        T::spec_datum()
    }

    open spec fn spec_elements(&self) -> usize {
        1usize
    }

    fn uniform_datum_type() -> (t: UniformDatumType)
        ensures
            t == <Self as UniformData>::spec_datum_type(),
    {
        T::datum_type()
    }

    fn uniform_elements(&self) -> (n: usize)
        ensures
            n == self.spec_elements(),
    {
        1
    }
}

} // verus!
