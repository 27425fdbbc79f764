//! Three-component vectors.

use vstd::prelude::*;
use vstd::std_specs::ops::{AddSpec, SubSpec, MulSpec, DivSpec};
use vstd::std_specs::ops::{AddSpecImpl, SubSpecImpl, MulSpecImpl, DivSpecImpl};
use vstd::std_specs::convert::FromSpecImpl;
use crate::arith_traits::Number;
use crate::vectors::{Crossable, Vector};

verus! {

/// A vector with components `x`, `y`, `z`.
#[derive(Debug, Clone, Copy, PartialEq, Default)]
pub struct Vector3<T> {
    pub x: T,
    pub y: T,
    pub z: T,
}

impl<T: Number> Vector3<T> {
    /// The components as an array, in order.
    pub fn to_array(&self) -> (r: [T; 3])
        ensures
            r@ == seq![self.x, self.y, self.z],
    {
        [self.x, self.y, self.z]
    }
}

impl<T: Number> core::ops::Index<usize> for Vector3<T> {
    type Output = T;

    /// Component 0 is `x`, 1 is `y`, 2 is `z`; other indices are out of bounds.
    fn index(&self, index: usize) -> (r: &T)
        ensures
            *r == (if index == 0 { self.x } else if index == 1 { self.y } else { self.z }),
    {
        match index {
            0 => &self.x,
            1 => &self.y,
            _ => &self.z,
        }
    }
}

impl<T: Number> vstd::std_specs::core::IndexSpecImpl<usize> for Vector3<T> {
    open spec fn index_req(&self, index: &usize) -> bool {
        *index < 3
    }
}

impl<T: Number> Vector for Vector3<T> {
    type Scalar = T;

    const DIMENSION: usize = 3;

    open spec fn components(self) -> Seq<T> {
        seq![self.x, self.y, self.z]
    }

    proof fn lemma_dimension(self) {
        assert(Self::DIMENSION == 3);
    }

    fn component(&self, index: usize) -> (r: T) {
        if index == 0 { self.x } else if index == 1 { self.y } else { self.z }
    }

    fn set_component(&mut self, index: usize, value: T) {
        if index == 0 {
            self.x = value;
        } else if index == 1 {
            self.y = value;
        } else {
            self.z = value;
        }
    }
}

impl<T: Number> Crossable for Vector3<T> {
    open spec fn cross_req(self, other: Self) -> bool {
        &&& T::obeys_mul_spec()
        &&& T::obeys_sub_spec()
        &&& self.y.mul_req(other.z) && self.z.mul_req(other.y)
        &&& self.z.mul_req(other.x) && self.x.mul_req(other.z)
        &&& self.x.mul_req(other.y) && self.y.mul_req(other.x)
        &&& self.y.mul_spec(other.z).sub_req(self.z.mul_spec(other.y))
        &&& self.z.mul_spec(other.x).sub_req(self.x.mul_spec(other.z))
        &&& self.x.mul_spec(other.y).sub_req(self.y.mul_spec(other.x))
    }

    /// `(y*o.z - z*o.y, z*o.x - x*o.z, x*o.y - y*o.x)`.
    open spec fn cross_spec(self, other: Self) -> Self {
        Vector3 {
            x: self.y.mul_spec(other.z).sub_spec(self.z.mul_spec(other.y)),
            y: self.z.mul_spec(other.x).sub_spec(self.x.mul_spec(other.z)),
            z: self.x.mul_spec(other.y).sub_spec(self.y.mul_spec(other.x)),
        }
    }

    fn cross(&self, other: &Self) -> (r: Self) {
        Self {
            x: self.y * other.z - self.z * other.y,
            y: self.z * other.x - self.x * other.z,
            z: self.x * other.y - self.y * other.x,
        }
    }
}

impl<T: Number> core::ops::Add for Vector3<T> {
    type Output = Self;

    fn add(self, other: Self) -> Self {
        Self { x: self.x + other.x, y: self.y + other.y, z: self.z + other.z }
    }
}

impl<T: Number> AddSpecImpl for Vector3<T> {
    open spec fn obeys_add_spec() -> bool {
        T::obeys_add_spec()
    }

    open spec fn add_req(self, rhs: Self) -> bool {
        self.x.add_req(rhs.x) && self.y.add_req(rhs.y) && self.z.add_req(rhs.z)
    }

    open spec fn add_spec(self, rhs: Self) -> Self {
        Vector3 { x: self.x.add_spec(rhs.x), y: self.y.add_spec(rhs.y), z: self.z.add_spec(rhs.z) }
    }
}

impl<T: Number> core::ops::Sub for Vector3<T> {
    type Output = Self;

    fn sub(self, other: Self) -> Self {
        Self { x: self.x - other.x, y: self.y - other.y, z: self.z - other.z }
    }
}

impl<T: Number> SubSpecImpl for Vector3<T> {
    open spec fn obeys_sub_spec() -> bool {
        T::obeys_sub_spec()
    }

    open spec fn sub_req(self, rhs: Self) -> bool {
        self.x.sub_req(rhs.x) && self.y.sub_req(rhs.y) && self.z.sub_req(rhs.z)
    }

    open spec fn sub_spec(self, rhs: Self) -> Self {
        Vector3 { x: self.x.sub_spec(rhs.x), y: self.y.sub_spec(rhs.y), z: self.z.sub_spec(rhs.z) }
    }
}

impl<T: Number> core::ops::Mul<T> for Vector3<T> {
    type Output = Self;

    fn mul(self, scalar: T) -> Self {
        Self { x: self.x * scalar, y: self.y * scalar, z: self.z * scalar }
    }
}

impl<T: Number> MulSpecImpl<T> for Vector3<T> {
    open spec fn obeys_mul_spec() -> bool {
        T::obeys_mul_spec()
    }

    open spec fn mul_req(self, rhs: T) -> bool {
        self.x.mul_req(rhs) && self.y.mul_req(rhs) && self.z.mul_req(rhs)
    }

    open spec fn mul_spec(self, rhs: T) -> Self {
        Vector3 { x: self.x.mul_spec(rhs), y: self.y.mul_spec(rhs), z: self.z.mul_spec(rhs) }
    }
}

impl<T: Number> core::ops::Div<T> for Vector3<T> {
    type Output = Self;

    fn div(self, scalar: T) -> Self {
        Self { x: self.x / scalar, y: self.y / scalar, z: self.z / scalar }
    }
}

impl<T: Number> DivSpecImpl<T> for Vector3<T> {
    open spec fn obeys_div_spec() -> bool {
        T::obeys_div_spec()
    }

    open spec fn div_req(self, rhs: T) -> bool {
        self.x.div_req(rhs) && self.y.div_req(rhs) && self.z.div_req(rhs)
    }

    open spec fn div_spec(self, rhs: T) -> Self {
        Vector3 { x: self.x.div_spec(rhs), y: self.y.div_spec(rhs), z: self.z.div_spec(rhs) }
    }
}

impl<T: Number> From<[T; 3]> for Vector3<T> {
    fn from(a: [T; 3]) -> Self {
        Self { x: a[0], y: a[1], z: a[2] }
    }
}

impl<T: Number> FromSpecImpl<[T; 3]> for Vector3<T> {
    open spec fn obeys_from_spec() -> bool {
        true
    }

    open spec fn from_spec(a: [T; 3]) -> Self {
        Vector3 { x: a@[0], y: a@[1], z: a@[2] }
    }
}

} // verus!
