//! Four-component vectors.

use vstd::prelude::*;
use vstd::std_specs::ops::{AddSpec, SubSpec, MulSpec, DivSpec};
use vstd::std_specs::ops::{AddSpecImpl, SubSpecImpl, MulSpecImpl, DivSpecImpl};
use vstd::std_specs::convert::FromSpecImpl;
use crate::arith_traits::Number;
use crate::vectors::Vector;

verus! {

/// A vector with components `x`, `y`, `z`, `w`.
#[derive(Debug, Clone, Copy, PartialEq, Default)]
pub struct Vector4<T> {
    pub x: T,
    pub y: T,
    pub z: T,
    pub w: T,
}

impl<T: Number> Vector4<T> {
    /// The components as an array, in order.
    pub fn to_array(&self) -> (r: [T; 4])
        ensures
            r@ == seq![self.x, self.y, self.z, self.w],
    {
        [self.x, self.y, self.z, self.w]
    }
}

impl<T: Number> core::ops::Index<usize> for Vector4<T> {
    type Output = T;

    /// Component 0 is `x`, 1 is `y`, 2 is `z`, 3 is `w`; other indices are out of bounds.
    fn index(&self, index: usize) -> (r: &T)
        ensures
            *r == (if index == 0 { self.x } else if index == 1 { self.y } else if index == 2 { self.z } else { self.w }),
    {
        match index {
            0 => &self.x,
            1 => &self.y,
            2 => &self.z,
            _ => &self.w,
        }
    }
}

impl<T: Number> vstd::std_specs::core::IndexSpecImpl<usize> for Vector4<T> {
    open spec fn index_req(&self, index: &usize) -> bool {
        *index < 4
    }
}

impl<T: Number> Vector for Vector4<T> {
    type Scalar = T;

    const DIMENSION: usize = 4;

    open spec fn components(self) -> Seq<T> {
        seq![self.x, self.y, self.z, self.w]
    }

    proof fn lemma_dimension(self) {
        assert(Self::DIMENSION == 4);
    }

    fn component(&self, index: usize) -> (r: T) {
        if index == 0 { self.x } else if index == 1 { self.y } else if index == 2 { self.z } else { self.w }
    }

    fn set_component(&mut self, index: usize, value: T) {
        if index == 0 {
            self.x = value;
        } else if index == 1 {
            self.y = value;
        } else if index == 2 {
            self.z = value;
        } else {
            self.w = value;
        }
    }
}

impl<T: Number> core::ops::Add for Vector4<T> {
    type Output = Self;

    fn add(self, other: Self) -> Self {
        Self { x: self.x + other.x, y: self.y + other.y, z: self.z + other.z, w: self.w + other.w }
    }
}

impl<T: Number> AddSpecImpl for Vector4<T> {
    open spec fn obeys_add_spec() -> bool {
        T::obeys_add_spec()
    }

    open spec fn add_req(self, rhs: Self) -> bool {
        self.x.add_req(rhs.x) && self.y.add_req(rhs.y) && self.z.add_req(rhs.z) && self.w.add_req(rhs.w)
    }

    open spec fn add_spec(self, rhs: Self) -> Self {
        Vector4 { x: self.x.add_spec(rhs.x), y: self.y.add_spec(rhs.y), z: self.z.add_spec(rhs.z), w: self.w.add_spec(rhs.w) }
    }
}

impl<T: Number> core::ops::Sub for Vector4<T> {
    type Output = Self;

    fn sub(self, other: Self) -> Self {
        Self { x: self.x - other.x, y: self.y - other.y, z: self.z - other.z, w: self.w - other.w }
    }
}

impl<T: Number> SubSpecImpl for Vector4<T> {
    open spec fn obeys_sub_spec() -> bool {
        T::obeys_sub_spec()
    }

    open spec fn sub_req(self, rhs: Self) -> bool {
        self.x.sub_req(rhs.x) && self.y.sub_req(rhs.y) && self.z.sub_req(rhs.z) && self.w.sub_req(rhs.w)
    }

    open spec fn sub_spec(self, rhs: Self) -> Self {
        Vector4 { x: self.x.sub_spec(rhs.x), y: self.y.sub_spec(rhs.y), z: self.z.sub_spec(rhs.z), w: self.w.sub_spec(rhs.w) }
    }
}

impl<T: Number> core::ops::Mul<T> for Vector4<T> {
    type Output = Self;

    fn mul(self, scalar: T) -> Self {
        Self { x: self.x * scalar, y: self.y * scalar, z: self.z * scalar, w: self.w * scalar }
    }
}

impl<T: Number> MulSpecImpl<T> for Vector4<T> {
    open spec fn obeys_mul_spec() -> bool {
        T::obeys_mul_spec()
    }

    open spec fn mul_req(self, rhs: T) -> bool {
        self.x.mul_req(rhs) && self.y.mul_req(rhs) && self.z.mul_req(rhs) && self.w.mul_req(rhs)
    }

    open spec fn mul_spec(self, rhs: T) -> Self {
        Vector4 { x: self.x.mul_spec(rhs), y: self.y.mul_spec(rhs), z: self.z.mul_spec(rhs), w: self.w.mul_spec(rhs) }
    }
}

impl<T: Number> core::ops::Div<T> for Vector4<T> {
    type Output = Self;

    fn div(self, scalar: T) -> Self {
        Self { x: self.x / scalar, y: self.y / scalar, z: self.z / scalar, w: self.w / scalar }
    }
}

impl<T: Number> DivSpecImpl<T> for Vector4<T> {
    open spec fn obeys_div_spec() -> bool {
        T::obeys_div_spec()
    }

    open spec fn div_req(self, rhs: T) -> bool {
        self.x.div_req(rhs) && self.y.div_req(rhs) && self.z.div_req(rhs) && self.w.div_req(rhs)
    }

    open spec fn div_spec(self, rhs: T) -> Self {
        Vector4 { x: self.x.div_spec(rhs), y: self.y.div_spec(rhs), z: self.z.div_spec(rhs), w: self.w.div_spec(rhs) }
    }
}

impl<T: Number> From<[T; 4]> for Vector4<T> {
    fn from(a: [T; 4]) -> Self {
        Self { x: a[0], y: a[1], z: a[2], w: a[3] }
    }
}

impl<T: Number> FromSpecImpl<[T; 4]> for Vector4<T> {
    open spec fn obeys_from_spec() -> bool {
        true
    }

    open spec fn from_spec(a: [T; 4]) -> Self {
        Vector4 { x: a@[0], y: a@[1], z: a@[2], w: a@[3] }
    }
}

} // verus!
