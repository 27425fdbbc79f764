//! Two-component vectors.

use vstd::prelude::*;
use vstd::std_specs::ops::{AddSpec, SubSpec, MulSpec, DivSpec};
use vstd::std_specs::ops::{AddSpecImpl, SubSpecImpl, MulSpecImpl, DivSpecImpl};
use vstd::std_specs::convert::FromSpecImpl;
use crate::arith_traits::Number;
use crate::vectors::Vector;

verus! {

/// A vector with components `x`, `y`.
#[derive(Debug, Clone, Copy, PartialEq, Default)]
pub struct Vector2<T> {
    pub x: T,
    pub y: T,
}

impl<T: Number> Vector2<T> {
    /// The components as an array, in order.
    pub fn to_array(&self) -> (r: [T; 2])
        ensures
            r@ == seq![self.x, self.y],
    {
        [self.x, self.y]
    }
}

impl<T: Number> core::ops::Index<usize> for Vector2<T> {
    type Output = T;

    /// Component 0 is `x`, 1 is `y`; other indices are out of bounds.
    fn index(&self, index: usize) -> (r: &T)
        ensures
            *r == (if index == 0 { self.x } else { self.y }),
    {
        match index {
            0 => &self.x,
            _ => &self.y,
        }
    }
}

impl<T: Number> vstd::std_specs::core::IndexSpecImpl<usize> for Vector2<T> {
    open spec fn index_req(&self, index: &usize) -> bool {
        *index < 2
    }
}

impl<T: Number> Vector for Vector2<T> {
    type Scalar = T;

    const DIMENSION: usize = 2;

    open spec fn components(self) -> Seq<T> {
        seq![self.x, self.y]
    }

    proof fn lemma_dimension(self) {
        assert(Self::DIMENSION == 2);
    }

    fn component(&self, index: usize) -> (r: T) {
        if index == 0 { self.x } else { self.y }
    }

    fn set_component(&mut self, index: usize, value: T) {
        if index == 0 {
            self.x = value;
        } else {
            self.y = value;
        }
    }
}

impl<T: Number> core::ops::Add for Vector2<T> {
    type Output = Self;

    fn add(self, other: Self) -> Self {
        Self { x: self.x + other.x, y: self.y + other.y }
    }
}

impl<T: Number> AddSpecImpl for Vector2<T> {
    open spec fn obeys_add_spec() -> bool {
        T::obeys_add_spec()
    }

    open spec fn add_req(self, rhs: Self) -> bool {
        self.x.add_req(rhs.x) && self.y.add_req(rhs.y)
    }

    open spec fn add_spec(self, rhs: Self) -> Self {
        Vector2 { x: self.x.add_spec(rhs.x), y: self.y.add_spec(rhs.y) }
    }
}

impl<T: Number> core::ops::Sub for Vector2<T> {
    type Output = Self;

    fn sub(self, other: Self) -> Self {
        Self { x: self.x - other.x, y: self.y - other.y }
    }
}

impl<T: Number> SubSpecImpl for Vector2<T> {
    open spec fn obeys_sub_spec() -> bool {
        T::obeys_sub_spec()
    }

    open spec fn sub_req(self, rhs: Self) -> bool {
        self.x.sub_req(rhs.x) && self.y.sub_req(rhs.y)
    }

    open spec fn sub_spec(self, rhs: Self) -> Self {
        Vector2 { x: self.x.sub_spec(rhs.x), y: self.y.sub_spec(rhs.y) }
    }
}

impl<T: Number> core::ops::Mul<T> for Vector2<T> {
    type Output = Self;

    fn mul(self, scalar: T) -> Self {
        Self { x: self.x * scalar, y: self.y * scalar }
    }
}

impl<T: Number> MulSpecImpl<T> for Vector2<T> {
    open spec fn obeys_mul_spec() -> bool {
        T::obeys_mul_spec()
    }

    open spec fn mul_req(self, rhs: T) -> bool {
        self.x.mul_req(rhs) && self.y.mul_req(rhs)
    }

    open spec fn mul_spec(self, rhs: T) -> Self {
        Vector2 { x: self.x.mul_spec(rhs), y: self.y.mul_spec(rhs) }
    }
}

impl<T: Number> core::ops::Div<T> for Vector2<T> {
    type Output = Self;

    fn div(self, scalar: T) -> Self {
        Self { x: self.x / scalar, y: self.y / scalar }
    }
}

impl<T: Number> DivSpecImpl<T> for Vector2<T> {
    open spec fn obeys_div_spec() -> bool {
        T::obeys_div_spec()
    }

    open spec fn div_req(self, rhs: T) -> bool {
        self.x.div_req(rhs) && self.y.div_req(rhs)
    }

    open spec fn div_spec(self, rhs: T) -> Self {
        Vector2 { x: self.x.div_spec(rhs), y: self.y.div_spec(rhs) }
    }
}

impl<T: Number> From<[T; 2]> for Vector2<T> {
    fn from(a: [T; 2]) -> Self {
        Self { x: a[0], y: a[1] }
    }
}

impl<T: Number> FromSpecImpl<[T; 2]> for Vector2<T> {
    open spec fn obeys_from_spec() -> bool {
        true
    }

    open spec fn from_spec(a: [T; 2]) -> Self {
        Vector2 { x: a@[0], y: a@[1] }
    }
}

} // verus!
