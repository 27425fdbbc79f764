use voxel::point::{Point2, Point3};
use voxel::vectors::{
    Crossable, Int2, Int3, UInt3, Vector, Vector2, Vector3, Vector4,
};

#[test]
fn vector2_add_sub_mul_div() {
    let a = Vector2 { x: 3i32, y: -4 };
    let b = Vector2 { x: 10i32, y: 7 };
    assert_eq!(a + b, Vector2 { x: 13, y: 3 });
    assert_eq!(a - b, Vector2 { x: -7, y: -11 });
    assert_eq!(a * 3, Vector2 { x: 9, y: -12 });
    assert_eq!(b / 3, Vector2 { x: 3, y: 2 });
}

#[test]
fn vector3_ops() {
    let a = Vector3 { x: 1i64, y: 2, z: 3 };
    let b = Vector3 { x: 4i64, y: 5, z: 6 };
    assert_eq!(a + b, Vector3 { x: 5, y: 7, z: 9 });
    assert_eq!(b - a, Vector3 { x: 3, y: 3, z: 3 });
    assert_eq!(a * -2, Vector3 { x: -2, y: -4, z: -6 });
    assert_eq!(b / 2, Vector3 { x: 2, y: 2, z: 3 });
}

#[test]
fn vector4_ops() {
    let a = Vector4 { x: 1u32, y: 2, z: 3, w: 4 };
    let b = Vector4 { x: 8u32, y: 6, z: 4, w: 4 };
    assert_eq!(a + b, Vector4 { x: 9, y: 8, z: 7, w: 8 });
    assert_eq!(b - a, Vector4 { x: 7, y: 4, z: 1, w: 0 });
    assert_eq!(a * 5, Vector4 { x: 5, y: 10, z: 15, w: 20 });
    assert_eq!(b / 4, Vector4 { x: 2, y: 1, z: 1, w: 1 });
}

#[test]
fn signed_division_truncates_toward_zero() {
    let v = Vector2 { x: -7i32, y: 7 };
    assert_eq!(v / 2, Vector2 { x: -3, y: 3 });
}

#[test]
fn dot_products() {
    let a = Vector2 { x: 2i32, y: 3 };
    let b = Vector2 { x: 4i32, y: -5 };
    assert_eq!(a.dot(&b), -7);
    let c = Vector3 { x: 1i32, y: 2, z: 3 };
    let d = Vector3 { x: 4i32, y: 5, z: 6 };
    assert_eq!(c.dot(&d), 32);
    assert_eq!(d.dot(&c), 32);
    let e = Vector4 { x: 1u64, y: 2, z: 3, w: 4 };
    assert_eq!(e.dot(&e), 30);
}

#[test]
fn squared_length_is_nonnegative() {
    let a = Vector3 { x: 3i32, y: -4, z: 12 };
    assert_eq!(a.dot(&a), 169);
    let b: Int2 = Vector2 { x: 0, y: 0 };
    assert_eq!(b.dot(&b), 0);
    let c: Int2 = Vector2 { x: -5, y: -1 };
    assert!(c.dot(&c) >= 0);
}

#[test]
fn cross_product_formula() {
    let x = Vector3 { x: 1i32, y: 0, z: 0 };
    let y = Vector3 { x: 0i32, y: 1, z: 0 };
    assert_eq!(x.cross(&y), Vector3 { x: 0, y: 0, z: 1 });
    let a = Vector3 { x: 2i32, y: 3, z: 4 };
    let b = Vector3 { x: 5i32, y: 6, z: 7 };
    assert_eq!(a.cross(&b), Vector3 { x: -3, y: 6, z: -3 });
}

#[test]
fn cross_product_laws_on_values() {
    let a: Int3 = Vector3 { x: 2, y: -3, z: 5 };
    let b: Int3 = Vector3 { x: -1, y: 4, z: 7 };
    let c = a.cross(&b);
    let d = b.cross(&a);
    assert_eq!(d, Vector3 { x: -c.x, y: -c.y, z: -c.z });
    assert_eq!(a.dot(&c), 0);
    assert_eq!(b.dot(&c), 0);
    assert_eq!(a.cross(&a), Vector3 { x: 0, y: 0, z: 0 });
}

#[test]
fn add_commutes_and_sub_undoes() {
    let a: Int3 = Vector3 { x: 9, y: -2, z: 0 };
    let b: Int3 = Vector3 { x: -4, y: 8, z: 1 };
    assert_eq!(a + b, b + a);
    assert_eq!((a + b) - b, a);
}

#[test]
fn scale_then_divide_unsigned() {
    let v: UInt3 = Vector3 { x: 7, y: 0, z: 123 };
    assert_eq!((v * 9) / 9, v);
}

#[test]
fn indexing_vectors() {
    let v2 = Vector2 { x: 10i32, y: 20 };
    assert_eq!(v2[0], 10);
    assert_eq!(v2[1], 20);
    let v3 = Vector3 { x: 1u8, y: 2, z: 3 };
    assert_eq!((v3[0], v3[1], v3[2]), (1, 2, 3));
    let v4 = Vector4 { x: 5i16, y: 6, z: 7, w: 8 };
    assert_eq!((v4[0], v4[1], v4[2], v4[3]), (5, 6, 7, 8));
}

#[test]
fn set_component_replaces_one_component() {
    let mut v3 = Vector3 { x: 1i32, y: 2, z: 3 };
    v3.set_component(1, 20);
    assert_eq!(v3, Vector3 { x: 1, y: 20, z: 3 });
    let mut v4 = Vector4 { x: 1i32, y: 2, z: 3, w: 4 };
    v4.set_component(3, 40);
    v4.set_component(0, 10);
    assert_eq!(v4, Vector4 { x: 10, y: 2, z: 3, w: 40 });
    let mut v2 = Vector2 { x: 1i32, y: 2 };
    v2.set_component(0, -1);
    assert_eq!(v2, Vector2 { x: -1, y: 2 });
    v2.set_component(1, 7);
    assert_eq!(v2, Vector2 { x: -1, y: 7 });
}

#[test]
fn component_and_to_vec() {
    let v = Vector4 { x: 4i32, y: 3, z: 2, w: 1 };
    assert_eq!(v.component(2), 2);
    assert_eq!(v.to_vec(), vec![4, 3, 2, 1]);
    assert_eq!(<Vector3<i32> as Vector>::DIMENSION, 3);
    assert_eq!(<Vector4<i32> as Vector>::DIMENSION, 4);
    assert_eq!(<Vector2<i32> as Vector>::DIMENSION, 2);
}

#[test]
fn arrays_round_trip() {
    let a = [1i32, 2];
    assert_eq!(Vector2::from(a).to_array(), a);
    let b = [1i32, 2, 3];
    assert_eq!(Vector3::from(b).to_array(), b);
    let c = [1u32, 2, 3, 4];
    assert_eq!(Vector4::from(c).to_array(), c);
    assert_eq!(Vector3::from([7i32, 8, 9]), Vector3 { x: 7, y: 8, z: 9 });
}

#[test]
fn points_and_vectors() {
    let p = Point2 { x: 1i32, y: 2 };
    let q = Point2 { x: 4i32, y: 6 };
    assert_eq!(q - p, Vector2 { x: 3, y: 4 });
    assert_eq!(p + (q - p), q);
    assert_eq!(p.to_vector(), Vector2 { x: 1, y: 2 });
    assert_eq!(Point2::from(Vector2 { x: 5i32, y: 6 }), Point2 { x: 5, y: 6 });
    assert_eq!(Point2::from([8i32, 9]), Point2 { x: 8, y: 9 });

    let r = Point3 { x: 1i32, y: 2, z: 3 };
    let v = Vector3 { x: -1i32, y: 5, z: 10 };
    assert_eq!(r + v, Point3 { x: 0, y: 7, z: 13 });
    assert_eq!((r + v) - r, v);
    assert_eq!(r.to_vector(), Vector3 { x: 1, y: 2, z: 3 });
    assert_eq!(Point3::from(r.to_vector()), r);
    assert_eq!(Point3::from(v).to_vector(), v);
    assert_eq!(Point3::from([1i32, 1, 2]), Point3 { x: 1, y: 1, z: 2 });
}

#[test]
fn defaults_are_zero() {
    assert_eq!(Vector3::<i32>::default(), Vector3 { x: 0, y: 0, z: 0 });
    assert_eq!(Point2::<u32>::default(), Point2 { x: 0, y: 0 });
}
