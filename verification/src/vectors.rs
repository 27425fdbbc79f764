//! The vector traits and the dot product that every vector type shares.

use vstd::prelude::*;
use vstd::std_specs::ops::AddSpec;
use vstd::std_specs::ops::MulSpec;
use crate::arith_traits::{Number, SquareRoot};

pub use crate::vector2::Vector2;
pub use crate::vector3::Vector3;
pub use crate::vector4::Vector4;

verus! {

/// The dot product of the first `n` components of `a` and `b`, summed from
/// the first component on: `a[0]*b[0] + a[1]*b[1] + ... + a[n-1]*b[n-1]`,
/// each step taken with the scalar type's own `+` and `*`.
pub open spec fn dot_spec<T: Number>(a: Seq<T>, b: Seq<T>, n: int) -> T
    decreases n,
{
    if n <= 1 {
        a[0].mul_spec(b[0])
    } else {
        dot_spec(a, b, n - 1).add_spec(a[n - 1].mul_spec(b[n - 1]))
    }
}

/// Every product and every partial sum of `dot_spec(a, b, n)` is defined for
/// the scalar type (for integers: none of them overflows).
pub open spec fn dot_req<T: Number>(a: Seq<T>, b: Seq<T>, n: int) -> bool {
    &&& forall|k: int| 0 <= k < n ==> (#[trigger] a[k]).mul_req(b[k])
    &&& forall|k: int| 1 <= k < n ==> (#[trigger] dot_spec(a, b, k)).add_req(a[k].mul_spec(b[k]))
}

/// A fixed-size vector of `DIMENSION` scalars.
pub trait Vector:
    Copy
    + Sized
    + core::ops::Index<usize, Output = <Self as Vector>::Scalar>
{
    type Scalar: Number;

    const DIMENSION: usize;

    /// The components of the vector, in order.
    spec fn components(self) -> Seq<Self::Scalar>;

    proof fn lemma_dimension(self)
        ensures
            self.components().len() == Self::DIMENSION,
            2 <= Self::DIMENSION <= 4,
    ;

    /// The component at `index`.
    fn component(&self, index: usize) -> (r: Self::Scalar)
        requires
            index < Self::DIMENSION,
        ensures
            r == self.components()[index as int],
    ;

    /// Replaces the component at `index` with `value`; the others stay as they were.
    fn set_component(&mut self, index: usize, value: Self::Scalar)
        requires
            index < Self::DIMENSION,
        ensures
            final(self).components() == old(self).components().update(index as int, value),
    ;

    /// The components as a vector of scalars, in order.
    fn to_vec(&self) -> (r: Vec<Self::Scalar>)
        ensures
            r@ == self.components(),
    {
        proof {
            self.lemma_dimension();
        }
        let mut out: Vec<Self::Scalar> = Vec::new();
        let mut i: usize = 0;
        while i < Self::DIMENSION
            invariant
                i <= Self::DIMENSION,
                self.components().len() == Self::DIMENSION,
                out@ == self.components().take(i as int),
            decreases Self::DIMENSION - i,
        {
            out.push(self.component(i));
            i = i + 1;
        }
        proof {
            assert(self.components().take(Self::DIMENSION as int) == self.components());
        }
        out
    }

    /// The dot product `self[0]*other[0] + ... + self[N-1]*other[N-1]`.
    fn dot(&self, other: &Self) -> (r: Self::Scalar)
        requires
            Self::Scalar::obeys_add_spec(),
            Self::Scalar::obeys_mul_spec(),
            dot_req(self.components(), other.components(), Self::DIMENSION as int),
        ensures
            r == dot_spec(self.components(), other.components(), Self::DIMENSION as int),
    {
        proof {
            self.lemma_dimension();
            other.lemma_dimension();
        }
        let n = Self::DIMENSION;
        let mut sum = self.component(0) * other.component(0);
        let mut i: usize = 1;
        while i < n
            invariant
                1 <= i <= n,
                n == Self::DIMENSION,
                self.components().len() == n,
                other.components().len() == n,
                Self::Scalar::obeys_add_spec(),
                Self::Scalar::obeys_mul_spec(),
                dot_req(self.components(), other.components(), n as int),
                sum == dot_spec(self.components(), other.components(), i as int),
            decreases n - i,
        {
            let a = self.component(i);
            let b = other.component(i);
            proof {
                assert(self.components()[i as int].mul_req(other.components()[i as int]));
                assert(dot_spec(self.components(), other.components(), i as int).add_req(
                    self.components()[i as int].mul_spec(other.components()[i as int]),
                ));
            }
            sum = sum + a * b;
            i = i + 1;
        }
        sum
    }
}

/// A vector with a cross product.
pub trait Crossable: Vector {
    /// The scalar operations of `self.cross(other)` are all defined.
    spec fn cross_req(self, other: Self) -> bool;

    /// The cross product of `self` and `other`.
    spec fn cross_spec(self, other: Self) -> Self;

    fn cross(&self, other: &Self) -> (r: Self)
        requires
            self.cross_req(*other),
        ensures
            r == self.cross_spec(*other),
    ;
}

/// A vector with a length.
pub trait HasMagnitude: Vector {
    /// The length (Euclidean norm) of the vector.
    fn length(&self) -> Self::Scalar
        requires
            Self::Scalar::obeys_add_spec(),
            Self::Scalar::obeys_mul_spec(),
            dot_req(self.components(), self.components(), Self::DIMENSION as int),
    ;

    /// The squared length: the dot product of the vector with itself.
    fn length_squared(&self) -> (r: Self::Scalar)
        requires
            Self::Scalar::obeys_add_spec(),
            Self::Scalar::obeys_mul_spec(),
            dot_req(self.components(), self.components(), Self::DIMENSION as int),
        ensures
            r == dot_spec(self.components(), self.components(), Self::DIMENSION as int),
    {
        self.dot(self)
    }
}

/// A vector that can be scaled to unit length.
pub trait Normalizable: HasMagnitude {
    fn normalize(&self) -> Self;
}

/// Every vector whose scalar has a square root has a length: the square root
/// of its squared length.
impl<V: Vector> HasMagnitude for V where V::Scalar: SquareRoot {
    fn length(&self) -> (r: V::Scalar)
        ensures
            r == dot_spec(self.components(), self.components(), V::DIMENSION as int).sqrt_spec(),
    {
        self.length_squared().sqrt()
    }
}

} // verus!

verus! {

/// Two-component vector of `i32`.
pub type Int2 = Vector2<i32>;

/// Three-component vector of `i32`.
pub type Int3 = Vector3<i32>;

/// Four-component vector of `i32`.
pub type Int4 = Vector4<i32>;

/// Two-component vector of `u32`.
pub type UInt2 = Vector2<u32>;

/// Three-component vector of `u32`.
pub type UInt3 = Vector3<u32>;

/// Four-component vector of `u32`.
pub type UInt4 = Vector4<u32>;

} // verus!
