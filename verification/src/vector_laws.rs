//! Algebraic laws of the vector and point operations.
//!
//! The laws that speak of arithmetic are stated for the integer vectors the
//! library names (`Int2`, `Int3`, `UInt3`, ...): for those, every operator
//! computes the exact mathematical result whenever its `*_req` holds.

use vstd::prelude::*;
use vstd::std_specs::ops::{AddSpec, SubSpec, MulSpec, DivSpec};
use vstd::std_specs::convert::FromSpec;
use crate::arith_traits::Number;
use crate::point::{Point2, Point3};
use crate::vectors::{dot_req, dot_spec, Crossable, Vector, Vector2, Vector3, Vector4};

verus! {

/// Converting a vector to a point and back gives the vector; converting a
/// point to its vector and back gives the point.
pub proof fn lemma_point2_vector_round_trip<T: Number>(v: Vector2<T>, p: Point2<T>)
    ensures
        <Point2<T> as FromSpec<Vector2<T>>>::from_spec(v).as_vector() == v,
        <Point2<T> as FromSpec<Vector2<T>>>::from_spec(p.as_vector()) == p,
{
}

/// Converting a vector to a point and back gives the vector; converting a
/// point to its vector and back gives the point.
pub proof fn lemma_point3_vector_round_trip<T: Number>(v: Vector3<T>, p: Point3<T>)
    ensures
        <Point3<T> as FromSpec<Vector3<T>>>::from_spec(v).as_vector() == v,
        <Point3<T> as FromSpec<Vector3<T>>>::from_spec(p.as_vector()) == p,
{
}

/// Moving a point by a vector and taking the difference with the start
/// point gives the vector back: `(p + v) - p == v`.
pub proof fn lemma_point2_translate_then_subtract(p: Point2<i32>, v: Vector2<i32>)
    requires
        p.add_req(v),
    ensures
        p.add_spec(v).sub_req(p),
        p.add_spec(v).sub_spec(p) == v,
{
}

/// Moving a point by a vector and taking the difference with the start
/// point gives the vector back: `(p + v) - p == v`.
pub proof fn lemma_point3_translate_then_subtract(p: Point3<i32>, v: Vector3<i32>)
    requires
        p.add_req(v),
    ensures
        p.add_spec(v).sub_req(p),
        p.add_spec(v).sub_spec(p) == v,
{
}

/// Moving `q` by the difference `p - q` reaches `p`: `q + (p - q) == p`.
pub proof fn lemma_point3_difference_reaches(p: Point3<i32>, q: Point3<i32>)
    requires
        p.sub_req(q),
    ensures
        q.add_req(p.sub_spec(q)),
        q.add_spec(p.sub_spec(q)) == p,
{
}

/// Vector addition is commutative, and subtracting what was added undoes it.
pub proof fn lemma_vector3_add_commutes_and_sub_undoes(a: Vector3<i32>, b: Vector3<i32>)
    requires
        a.add_req(b),
    ensures
        b.add_req(a),
        a.add_spec(b) == b.add_spec(a),
        a.add_spec(b).sub_req(b),
        a.add_spec(b).sub_spec(b) == a,
{
}

/// The dot product is symmetric: `a . b == b . a`.
pub proof fn lemma_dot_symmetric(a: Seq<i32>, b: Seq<i32>, n: int)
    requires
        1 <= n <= a.len(),
        n <= b.len(),
        dot_req(a, b, n),
    ensures
        dot_req(b, a, n),
        dot_spec(a, b, n) == dot_spec(b, a, n),
    decreases n,
{
    if n > 1 {
        assert(dot_req(a, b, n - 1));
        lemma_dot_symmetric(a, b, n - 1);
        assert(a[n - 1] * b[n - 1] == b[n - 1] * a[n - 1]) by (nonlinear_arith);
        assert forall|k: int| 1 <= k < n implies (#[trigger] dot_spec(b, a, k)).add_req(
            b[k].mul_spec(a[k]),
        ) by {
            assert(dot_req(a, b, k + 1));
            lemma_dot_symmetric(a, b, k);
            assert(a[k] * b[k] == b[k] * a[k]) by (nonlinear_arith);
            assert(dot_spec(a, b, k).add_req(a[k].mul_spec(b[k])));
        }
        assert forall|k: int| 0 <= k < n implies (#[trigger] b[k]).mul_req(a[k]) by {
            assert(a[k].mul_req(b[k]));
            assert(a[k] * b[k] == b[k] * a[k]) by (nonlinear_arith);
        }
    } else {
        assert(a[0].mul_req(b[0]));
        assert(a[0] * b[0] == b[0] * a[0]) by (nonlinear_arith);
    }
}

/// The squared length of an integer vector is never negative.
pub proof fn lemma_dot_self_nonnegative(a: Seq<i32>, n: int)
    requires
        1 <= n <= a.len(),
        dot_req(a, a, n),
    ensures
        dot_spec(a, a, n) >= 0,
    decreases n,
{
    assert(a[n - 1] * a[n - 1] >= 0) by (nonlinear_arith);
    if n > 1 {
        lemma_dot_self_nonnegative(a, n - 1);
        assert(a[n - 1].mul_req(a[n - 1]));
        assert(dot_spec(a, a, n - 1).add_req(a[n - 1].mul_spec(a[n - 1])));
    } else {
        assert(a[0].mul_req(a[0]));
    }
}

/// The cross product is anti-commutative: `b x a == -(a x b)`.
pub proof fn lemma_cross_anticommutative(a: Vector3<i32>, b: Vector3<i32>)
    requires
        a.cross_req(b),
        b.cross_req(a),
    ensures
        b.cross_spec(a).x == -a.cross_spec(b).x,
        b.cross_spec(a).y == -a.cross_spec(b).y,
        b.cross_spec(a).z == -a.cross_spec(b).z,
{
    assert(a.y * b.z == b.z * a.y && a.z * b.y == b.y * a.z) by (nonlinear_arith);
    assert(a.z * b.x == b.x * a.z && a.x * b.z == b.z * a.x) by (nonlinear_arith);
    assert(a.x * b.y == b.y * a.x && a.y * b.x == b.x * a.y) by (nonlinear_arith);
}

/// The cross product of a vector with itself is the zero vector.
pub proof fn lemma_cross_self_zero(a: Vector3<i32>)
    requires
        a.cross_req(a),
    ensures
        a.cross_spec(a) == (Vector3::<i32> { x: 0, y: 0, z: 0 }),
{
    assert(a.y * a.z == a.z * a.y && a.z * a.x == a.x * a.z && a.x * a.y == a.y * a.x)
        by (nonlinear_arith);
}

/// The cross product is orthogonal to both of its operands:
/// `a . (a x b) == 0` and `b . (a x b) == 0`.
pub proof fn lemma_cross_orthogonal(a: Vector3<i32>, b: Vector3<i32>)
    requires
        a.cross_req(b),
        dot_req(a.components(), a.cross_spec(b).components(), 3),
        dot_req(b.components(), a.cross_spec(b).components(), 3),
    ensures
        dot_spec(a.components(), a.cross_spec(b).components(), 3) == 0,
        dot_spec(b.components(), a.cross_spec(b).components(), 3) == 0,
{
    let c = a.cross_spec(b);
    let (ax, ay, az, bx, by, bz) = (a.x as int, a.y as int, a.z as int, b.x as int, b.y as int, b.z as int);
    assert(c.x == ay * bz - az * by);
    assert(c.y == az * bx - ax * bz);
    assert(c.z == ax * by - ay * bx);
    assert(ax * (ay * bz - az * by) + ay * (az * bx - ax * bz) + az * (ax * by - ay * bx) == 0)
        by (nonlinear_arith);
    assert(bx * (ay * bz - az * by) + by * (az * bx - ax * bz) + bz * (ax * by - ay * bx) == 0)
        by (nonlinear_arith);
    let sa = a.components();
    let sb = b.components();
    let sc = c.components();
    assert(sa[0].mul_req(sc[0]) && sa[1].mul_req(sc[1]) && sa[2].mul_req(sc[2]));
    assert(dot_spec(sa, sc, 2).add_req(sa[2].mul_spec(sc[2])));
    assert(dot_spec(sa, sc, 1).add_req(sa[1].mul_spec(sc[1])));
    assert(sb[0].mul_req(sc[0]) && sb[1].mul_req(sc[1]) && sb[2].mul_req(sc[2]));
    assert(dot_spec(sb, sc, 2).add_req(sb[2].mul_spec(sc[2])));
    assert(dot_spec(sb, sc, 1).add_req(sb[1].mul_spec(sc[1])));
}

/// Scaling an unsigned vector by a nonzero scalar and dividing by the same
/// scalar gives the vector back: `(v * s) / s == v`.
pub proof fn lemma_scale_then_divide(v: Vector3<u32>, s: u32)
    requires
        s != 0,
        v.mul_req(s),
    ensures
        v.mul_spec(s).div_req(s),
        v.mul_spec(s).div_spec(s) == v,
{
    assert((v.x * s) / (s as int) == v.x) by (nonlinear_arith)
        requires s != 0;
    assert((v.y * s) / (s as int) == v.y) by (nonlinear_arith)
        requires s != 0;
    assert((v.z * s) / (s as int) == v.z) by (nonlinear_arith)
        requires s != 0;
}

/// The components of a `Vector2` are its fields in order: `x`, `y`.
pub proof fn lemma_vector2_components_in_order<T: Number>(v: Vector2<T>)
    ensures
        v.components().len() == 2,
        v.components()[0] == v.x,
        v.components()[1] == v.y,
{
}

/// Adding, subtracting and scaling `Vector2`s works component by component:
/// each component of the result comes from the same component of the
/// operands, with the integers' own `+`, `-` and `*`.
pub proof fn lemma_vector2_ops_componentwise(a: Vector2<i32>, b: Vector2<i32>, s: i32)
    ensures
        a.add_req(b) ==> forall|k: int|
            0 <= k < 2 ==> #[trigger] a.add_spec(b).components()[k] == a.components()[k] + b.components()[k],
        a.sub_req(b) ==> forall|k: int|
            0 <= k < 2 ==> #[trigger] a.sub_spec(b).components()[k] == a.components()[k] - b.components()[k],
        a.mul_req(s) ==> forall|k: int|
            0 <= k < 2 ==> #[trigger] a.mul_spec(s).components()[k] == a.components()[k] * s,
{
}

/// Dividing a `Vector2` by a scalar divides each component by it, each component
/// of the result coming from the same component of the vector.
pub proof fn lemma_vector2_div_componentwise(v: Vector2<u32>, d: u32)
    ensures
        v.div_req(d) ==> forall|k: int|
            0 <= k < 2 ==> #[trigger] v.div_spec(d).components()[k] == v.components()[k] / d,
{
}

/// The components of a `Vector3` are its fields in order: `x`, `y`, `z`.
pub proof fn lemma_vector3_components_in_order<T: Number>(v: Vector3<T>)
    ensures
        v.components().len() == 3,
        v.components()[0] == v.x,
        v.components()[1] == v.y,
        v.components()[2] == v.z,
{
}

/// Adding, subtracting and scaling `Vector3`s works component by component:
/// each component of the result comes from the same component of the
/// operands, with the integers' own `+`, `-` and `*`.
pub proof fn lemma_vector3_ops_componentwise(a: Vector3<i32>, b: Vector3<i32>, s: i32)
    ensures
        a.add_req(b) ==> forall|k: int|
            0 <= k < 3 ==> #[trigger] a.add_spec(b).components()[k] == a.components()[k] + b.components()[k],
        a.sub_req(b) ==> forall|k: int|
            0 <= k < 3 ==> #[trigger] a.sub_spec(b).components()[k] == a.components()[k] - b.components()[k],
        a.mul_req(s) ==> forall|k: int|
            0 <= k < 3 ==> #[trigger] a.mul_spec(s).components()[k] == a.components()[k] * s,
{
}

/// Dividing a `Vector3` by a scalar divides each component by it, each component
/// of the result coming from the same component of the vector.
pub proof fn lemma_vector3_div_componentwise(v: Vector3<u32>, d: u32)
    ensures
        v.div_req(d) ==> forall|k: int|
            0 <= k < 3 ==> #[trigger] v.div_spec(d).components()[k] == v.components()[k] / d,
{
}

/// The components of a `Vector4` are its fields in order: `x`, `y`, `z`, `w`.
pub proof fn lemma_vector4_components_in_order<T: Number>(v: Vector4<T>)
    ensures
        v.components().len() == 4,
        v.components()[0] == v.x,
        v.components()[1] == v.y,
        v.components()[2] == v.z,
        v.components()[3] == v.w,
{
}

/// Adding, subtracting and scaling `Vector4`s works component by component:
/// each component of the result comes from the same component of the
/// operands, with the integers' own `+`, `-` and `*`.
pub proof fn lemma_vector4_ops_componentwise(a: Vector4<i32>, b: Vector4<i32>, s: i32)
    ensures
        a.add_req(b) ==> forall|k: int|
            0 <= k < 4 ==> #[trigger] a.add_spec(b).components()[k] == a.components()[k] + b.components()[k],
        a.sub_req(b) ==> forall|k: int|
            0 <= k < 4 ==> #[trigger] a.sub_spec(b).components()[k] == a.components()[k] - b.components()[k],
        a.mul_req(s) ==> forall|k: int|
            0 <= k < 4 ==> #[trigger] a.mul_spec(s).components()[k] == a.components()[k] * s,
{
}

/// Dividing a `Vector4` by a scalar divides each component by it, each component
/// of the result coming from the same component of the vector.
pub proof fn lemma_vector4_div_componentwise(v: Vector4<u32>, d: u32)
    ensures
        v.div_req(d) ==> forall|k: int|
            0 <= k < 4 ==> #[trigger] v.div_spec(d).components()[k] == v.components()[k] / d,
{
}

/// Vector addition is commutative, and subtracting what was added undoes it.
pub proof fn lemma_vector2_add_commutes_and_sub_undoes(a: Vector2<i32>, b: Vector2<i32>)
    requires
        a.add_req(b),
    ensures
        b.add_req(a),
        a.add_spec(b) == b.add_spec(a),
        a.add_spec(b).sub_req(b),
        a.add_spec(b).sub_spec(b) == a,
{
}

/// Scaling an unsigned vector by a nonzero scalar and dividing by the same
/// scalar gives the vector back: `(v * s) / s == v`.
pub proof fn lemma_vector2_scale_then_divide(v: Vector2<u32>, s: u32)
    requires
        s != 0,
        v.mul_req(s),
    ensures
        v.mul_spec(s).div_req(s),
        v.mul_spec(s).div_spec(s) == v,
{
    assert((v.x * s) / (s as int) == v.x) by (nonlinear_arith)
        requires s != 0;
    assert((v.y * s) / (s as int) == v.y) by (nonlinear_arith)
        requires s != 0;
}

/// Vector addition is commutative, and subtracting what was added undoes it.
pub proof fn lemma_vector4_add_commutes_and_sub_undoes(a: Vector4<i32>, b: Vector4<i32>)
    requires
        a.add_req(b),
    ensures
        b.add_req(a),
        a.add_spec(b) == b.add_spec(a),
        a.add_spec(b).sub_req(b),
        a.add_spec(b).sub_spec(b) == a,
{
}

/// Scaling an unsigned vector by a nonzero scalar and dividing by the same
/// scalar gives the vector back: `(v * s) / s == v`.
pub proof fn lemma_vector4_scale_then_divide(v: Vector4<u32>, s: u32)
    requires
        s != 0,
        v.mul_req(s),
    ensures
        v.mul_spec(s).div_req(s),
        v.mul_spec(s).div_spec(s) == v,
{
    assert((v.x * s) / (s as int) == v.x) by (nonlinear_arith)
        requires s != 0;
    assert((v.y * s) / (s as int) == v.y) by (nonlinear_arith)
        requires s != 0;
    assert((v.z * s) / (s as int) == v.z) by (nonlinear_arith)
        requires s != 0;
    assert((v.w * s) / (s as int) == v.w) by (nonlinear_arith)
        requires s != 0;
}

/// A `Point2` built from an array has the array's elements as its
/// coordinates, in order; one built from a vector has the vector's
/// components as its coordinates; and the position vector of a point has the
/// point's coordinates as its components.
pub proof fn lemma_point2_conversions_keep_coordinates<T: Number>(a: [T; 2], v: Vector2<T>, p: Point2<T>)
    ensures
        <Point2<T> as FromSpec<[T; 2]>>::from_spec(a).x == a@[0],
        <Point2<T> as FromSpec<[T; 2]>>::from_spec(a).y == a@[1],
        <Point2<T> as FromSpec<[T; 2]>>::from_spec(a).as_vector() == <Vector2<T> as FromSpec<[T; 2]>>::from_spec(a),
        <Point2<T> as FromSpec<Vector2<T>>>::from_spec(v).x == v.x,
        <Point2<T> as FromSpec<Vector2<T>>>::from_spec(v).y == v.y,
        p.as_vector().x == p.x,
        p.as_vector().y == p.y,
{
}

/// The difference of two points and the translation of a point by a vector
/// work coordinate by coordinate: `(p - q).x == p.x - q.x`, `(p + v).x ==
/// p.x + v.x`, and likewise for every other coordinate.
pub proof fn lemma_point2_ops_coordinatewise(p: Point2<i32>, q: Point2<i32>, v: Vector2<i32>)
    ensures
        p.sub_req(q) ==> {
            &&& p.sub_spec(q).x == p.x - q.x
            &&& p.sub_spec(q).y == p.y - q.y
        },
        p.add_req(v) ==> {
            &&& p.add_spec(v).x == p.x + v.x
            &&& p.add_spec(v).y == p.y + v.y
        },
{
}

/// A `Point3` built from an array has the array's elements as its
/// coordinates, in order; one built from a vector has the vector's
/// components as its coordinates; and the position vector of a point has the
/// point's coordinates as its components.
pub proof fn lemma_point3_conversions_keep_coordinates<T: Number>(a: [T; 3], v: Vector3<T>, p: Point3<T>)
    ensures
        <Point3<T> as FromSpec<[T; 3]>>::from_spec(a).x == a@[0],
        <Point3<T> as FromSpec<[T; 3]>>::from_spec(a).y == a@[1],
        <Point3<T> as FromSpec<[T; 3]>>::from_spec(a).z == a@[2],
        <Point3<T> as FromSpec<[T; 3]>>::from_spec(a).as_vector() == <Vector3<T> as FromSpec<[T; 3]>>::from_spec(a),
        <Point3<T> as FromSpec<Vector3<T>>>::from_spec(v).x == v.x,
        <Point3<T> as FromSpec<Vector3<T>>>::from_spec(v).y == v.y,
        <Point3<T> as FromSpec<Vector3<T>>>::from_spec(v).z == v.z,
        p.as_vector().x == p.x,
        p.as_vector().y == p.y,
        p.as_vector().z == p.z,
{
}

/// The difference of two points and the translation of a point by a vector
/// work coordinate by coordinate: `(p - q).x == p.x - q.x`, `(p + v).x ==
/// p.x + v.x`, and likewise for every other coordinate.
pub proof fn lemma_point3_ops_coordinatewise(p: Point3<i32>, q: Point3<i32>, v: Vector3<i32>)
    ensures
        p.sub_req(q) ==> {
            &&& p.sub_spec(q).x == p.x - q.x
            &&& p.sub_spec(q).y == p.y - q.y
            &&& p.sub_spec(q).z == p.z - q.z
        },
        p.add_req(v) ==> {
            &&& p.add_spec(v).x == p.x + v.x
            &&& p.add_spec(v).y == p.y + v.y
            &&& p.add_spec(v).z == p.z + v.z
        },
{
}

/// A `Vector2` built from an array has the array's elements as its components,
/// in order.
pub proof fn lemma_vector2_from_array<T: Number>(a: [T; 2])
    ensures
        <Vector2<T> as FromSpec<[T; 2]>>::from_spec(a).x == a@[0],
        <Vector2<T> as FromSpec<[T; 2]>>::from_spec(a).y == a@[1],
{
}

/// A `Vector3` built from an array has the array's elements as its components,
/// in order.
pub proof fn lemma_vector3_from_array<T: Number>(a: [T; 3])
    ensures
        <Vector3<T> as FromSpec<[T; 3]>>::from_spec(a).x == a@[0],
        <Vector3<T> as FromSpec<[T; 3]>>::from_spec(a).y == a@[1],
        <Vector3<T> as FromSpec<[T; 3]>>::from_spec(a).z == a@[2],
{
}

/// A `Vector4` built from an array has the array's elements as its components,
/// in order.
pub proof fn lemma_vector4_from_array<T: Number>(a: [T; 4])
    ensures
        <Vector4<T> as FromSpec<[T; 4]>>::from_spec(a).x == a@[0],
        <Vector4<T> as FromSpec<[T; 4]>>::from_spec(a).y == a@[1],
        <Vector4<T> as FromSpec<[T; 4]>>::from_spec(a).z == a@[2],
        <Vector4<T> as FromSpec<[T; 4]>>::from_spec(a).w == a@[3],
{
}

/// The cross product of two integer vectors, coordinate by coordinate:
/// `(a x b) = (a.y*b.z - a.z*b.y, a.z*b.x - a.x*b.z, a.x*b.y - a.y*b.x)`.
pub proof fn lemma_cross_coordinates(a: Vector3<i32>, b: Vector3<i32>)
    requires
        a.cross_req(b),
    ensures
        a.cross_spec(b).x == a.y * b.z - a.z * b.y,
        a.cross_spec(b).y == a.z * b.x - a.x * b.z,
        a.cross_spec(b).z == a.x * b.y - a.y * b.x,
{
}

/// The dot product of two integer `Vector2`s is `a.x*b.x + a.y*b.y`.
pub proof fn lemma_vector2_dot_sum(a: Vector2<i32>, b: Vector2<i32>)
    requires
        dot_req(a.components(), b.components(), 2),
    ensures
        dot_spec(a.components(), b.components(), 2) == a.x * b.x + a.y * b.y,
{
    let (sa, sb) = (a.components(), b.components());
    assert(sa[0].mul_req(sb[0]) && sa[1].mul_req(sb[1]));
    assert(dot_spec(sa, sb, 1).add_req(sa[1].mul_spec(sb[1])));
}

/// The dot product of two integer `Vector3`s is `a.x*b.x + a.y*b.y + a.z*b.z`.
pub proof fn lemma_vector3_dot_sum(a: Vector3<i32>, b: Vector3<i32>)
    requires
        dot_req(a.components(), b.components(), 3),
    ensures
        dot_spec(a.components(), b.components(), 3) == a.x * b.x + a.y * b.y + a.z * b.z,
{
    let (sa, sb) = (a.components(), b.components());
    assert(sa[0].mul_req(sb[0]) && sa[1].mul_req(sb[1]) && sa[2].mul_req(sb[2]));
    assert(dot_spec(sa, sb, 1).add_req(sa[1].mul_spec(sb[1])));
    assert(dot_spec(sa, sb, 2).add_req(sa[2].mul_spec(sb[2])));
}

/// The dot product of two integer `Vector4`s is
/// `a.x*b.x + a.y*b.y + a.z*b.z + a.w*b.w`.
pub proof fn lemma_vector4_dot_sum(a: Vector4<i32>, b: Vector4<i32>)
    requires
        dot_req(a.components(), b.components(), 4),
    ensures
        dot_spec(a.components(), b.components(), 4) == a.x * b.x + a.y * b.y + a.z * b.z + a.w * b.w,
{
    let (sa, sb) = (a.components(), b.components());
    assert(sa[0].mul_req(sb[0]) && sa[1].mul_req(sb[1]) && sa[2].mul_req(sb[2]) && sa[3].mul_req(sb[3]));
    assert(dot_spec(sa, sb, 1).add_req(sa[1].mul_spec(sb[1])));
    assert(dot_spec(sa, sb, 2).add_req(sa[2].mul_spec(sb[2])));
    assert(dot_spec(sa, sb, 3).add_req(sa[3].mul_spec(sb[3])));
}

} // verus!
