//! Points in two and three dimensions, and their relation to vectors.

use vstd::prelude::*;
use vstd::std_specs::ops::{AddSpec, SubSpec};
use vstd::std_specs::ops::{AddSpecImpl, SubSpecImpl};
use vstd::std_specs::convert::FromSpecImpl;
pub use crate::arith_traits::{Float, Integer, Number, SignedInteger, SquareRoot};
pub use crate::vectors::{Vector2, Vector3};

verus! {

/// A point with coordinates `x`, `y`.
#[derive(Debug, Clone, Copy, PartialEq, Default)]
pub struct Point2<T> {
    pub x: T,
    pub y: T,
}

impl<T> Point2<T> {
    /// The position vector of the point: the vector from the origin to it.
    pub open spec fn as_vector(self) -> Vector2<T> {
        Vector2 { x: self.x, y: self.y }
    }
}

impl<T: Number> Point2<T> {
    /// The vector with the same coordinates as the point.
    pub fn to_vector(self) -> (r: Vector2<T>)
        ensures
            r == self.as_vector(),
    {
        Vector2 { x: self.x, y: self.y }
    }
}

impl<T: Number> core::ops::Sub for Point2<T> {
    type Output = Vector2<T>;

    /// The vector from `other` to `self`.
    fn sub(self, other: Self) -> Vector2<T> {
        Vector2 { x: self.x - other.x, y: self.y - other.y }
    }
}

impl<T: Number> SubSpecImpl for Point2<T> {
    open spec fn obeys_sub_spec() -> bool {
        T::obeys_sub_spec()
    }

    open spec fn sub_req(self, rhs: Self) -> bool {
        self.x.sub_req(rhs.x) && self.y.sub_req(rhs.y)
    }

    open spec fn sub_spec(self, rhs: Self) -> Vector2<T> {
        Vector2 { x: self.x.sub_spec(rhs.x), y: self.y.sub_spec(rhs.y) }
    }
}

impl<T: Number> core::ops::Add<Vector2<T>> for Point2<T> {
    type Output = Self;

    /// The point reached by moving `self` by `vector`.
    fn add(self, vector: Vector2<T>) -> Self {
        Self { x: self.x + vector.x, y: self.y + vector.y }
    }
}

impl<T: Number> AddSpecImpl<Vector2<T>> for Point2<T> {
    open spec fn obeys_add_spec() -> bool {
        T::obeys_add_spec()
    }

    open spec fn add_req(self, rhs: Vector2<T>) -> bool {
        self.x.add_req(rhs.x) && self.y.add_req(rhs.y)
    }

    open spec fn add_spec(self, rhs: Vector2<T>) -> Self {
        Point2 { x: self.x.add_spec(rhs.x), y: self.y.add_spec(rhs.y) }
    }
}

impl<T: Number> From<Vector2<T>> for Point2<T> {
    fn from(vector: Vector2<T>) -> Self {
        Self { x: vector.x, y: vector.y }
    }
}

impl<T: Number> FromSpecImpl<Vector2<T>> for Point2<T> {
    open spec fn obeys_from_spec() -> bool {
        true
    }

    open spec fn from_spec(vector: Vector2<T>) -> Self {
        Point2 { x: vector.x, y: vector.y }
    }
}

impl<T: Number> From<[T; 2]> for Point2<T> {
    fn from(a: [T; 2]) -> Self {
        Self { x: a[0], y: a[1] }
    }
}

impl<T: Number> FromSpecImpl<[T; 2]> for Point2<T> {
    open spec fn obeys_from_spec() -> bool {
        true
    }

    open spec fn from_spec(a: [T; 2]) -> Self {
        Point2 { x: a@[0], y: a@[1] }
    }
}

/// A point with coordinates `x`, `y`, `z`.
#[derive(Debug, Clone, Copy, PartialEq, Default)]
pub struct Point3<T> {
    pub x: T,
    pub y: T,
    pub z: T,
}

impl<T> Point3<T> {
    /// The position vector of the point: the vector from the origin to it.
    pub open spec fn as_vector(self) -> Vector3<T> {
        Vector3 { x: self.x, y: self.y, z: self.z }
    }
}

impl<T: Number> Point3<T> {
    /// The vector with the same coordinates as the point.
    pub fn to_vector(self) -> (r: Vector3<T>)
        ensures
            r == self.as_vector(),
    {
        Vector3 { x: self.x, y: self.y, z: self.z }
    }
}

impl<T: Number> core::ops::Sub for Point3<T> {
    type Output = Vector3<T>;

    /// The vector from `other` to `self`.
    fn sub(self, other: Self) -> Vector3<T> {
        Vector3 { x: self.x - other.x, y: self.y - other.y, z: self.z - other.z }
    }
}

impl<T: Number> SubSpecImpl for Point3<T> {
    open spec fn obeys_sub_spec() -> bool {
        T::obeys_sub_spec()
    }

    open spec fn sub_req(self, rhs: Self) -> bool {
        self.x.sub_req(rhs.x) && self.y.sub_req(rhs.y) && self.z.sub_req(rhs.z)
    }

    open spec fn sub_spec(self, rhs: Self) -> Vector3<T> {
        Vector3 { x: self.x.sub_spec(rhs.x), y: self.y.sub_spec(rhs.y), z: self.z.sub_spec(rhs.z) }
    }
}

impl<T: Number> core::ops::Add<Vector3<T>> for Point3<T> {
    type Output = Self;

    /// The point reached by moving `self` by `vector`.
    fn add(self, vector: Vector3<T>) -> Self {
        Self { x: self.x + vector.x, y: self.y + vector.y, z: self.z + vector.z }
    }
}

impl<T: Number> AddSpecImpl<Vector3<T>> for Point3<T> {
    open spec fn obeys_add_spec() -> bool {
        T::obeys_add_spec()
    }

    open spec fn add_req(self, rhs: Vector3<T>) -> bool {
        self.x.add_req(rhs.x) && self.y.add_req(rhs.y) && self.z.add_req(rhs.z)
    }

    open spec fn add_spec(self, rhs: Vector3<T>) -> Self {
        Point3 { x: self.x.add_spec(rhs.x), y: self.y.add_spec(rhs.y), z: self.z.add_spec(rhs.z) }
    }
}

impl<T: Number> From<Vector3<T>> for Point3<T> {
    fn from(vector: Vector3<T>) -> Self {
        Self { x: vector.x, y: vector.y, z: vector.z }
    }
}

impl<T: Number> FromSpecImpl<Vector3<T>> for Point3<T> {
    open spec fn obeys_from_spec() -> bool {
        true
    }

    open spec fn from_spec(vector: Vector3<T>) -> Self {
        Point3 { x: vector.x, y: vector.y, z: vector.z }
    }
}

impl<T: Number> From<[T; 3]> for Point3<T> {
    fn from(a: [T; 3]) -> Self {
        Self { x: a[0], y: a[1], z: a[2] }
    }
}

impl<T: Number> FromSpecImpl<[T; 3]> for Point3<T> {
    open spec fn obeys_from_spec() -> bool {
        true
    }

    open spec fn from_spec(a: [T; 3]) -> Self {
        Point3 { x: a@[0], y: a@[1], z: a@[2] }
    }
}

} // verus!
