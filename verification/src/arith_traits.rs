//! Numeric traits that the vector and point types are generic over.

use vstd::prelude::*;

verus! {

/// A scalar type that vectors and points can be built from: it is `Copy`,
/// has a default (zero) value and the four arithmetic operators, each of
/// which yields the same type.
///
/// Verus reasons about the operators through the specifications that vstd
/// gives the std operator traits (`add_req`/`add_spec` and so on); every
/// implementation below is a primitive integer, for which vstd states that
/// each operator computes the exact mathematical result whenever that result
/// fits the type.
pub trait Number:
    core::ops::Add<Self, Output = Self>
    + core::ops::Sub<Self, Output = Self>
    + core::ops::Mul<Self, Output = Self>
    + core::ops::Div<Self, Output = Self>
    + Sized
    + Copy
    + Default
{
}

/// A number type with a square root.
pub trait SquareRoot: Number {
    /// The square root of `self`, as the implementing type defines it.
    spec fn sqrt_spec(self) -> Self;

    /// The square root of `self`: always the same value for the same input.
    fn sqrt(self) -> (r: Self)
        ensures
            r == self.sqrt_spec(),
    ;
}

/// An integral number type (it has a remainder operator).
pub trait Integer: Number + core::ops::Rem {}

/// A signed integral number type (it has negation).
pub trait SignedInteger: Integer + core::ops::Neg {}

/// A floating-point number type.
pub trait Float: Number {}

impl Number for u8 {}
impl Integer for u8 {}
impl Number for u16 {}
impl Integer for u16 {}
impl Number for u32 {}
impl Integer for u32 {}
impl Number for u64 {}
impl Integer for u64 {}
impl Number for u128 {}
impl Integer for u128 {}
impl Number for usize {}
impl Integer for usize {}

impl Number for i8 {}
impl Integer for i8 {}
impl SignedInteger for i8 {}
impl Number for i16 {}
impl Integer for i16 {}
impl SignedInteger for i16 {}
impl Number for i32 {}
impl Integer for i32 {}
impl SignedInteger for i32 {}
impl Number for i64 {}
impl Integer for i64 {}
impl SignedInteger for i64 {}
impl Number for i128 {}
impl Integer for i128 {}
impl SignedInteger for i128 {}
impl Number for isize {}
impl Integer for isize {}
impl SignedInteger for isize {}

} // verus!
