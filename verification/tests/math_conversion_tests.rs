use assimp::math::{
    Color3D, Color4D, Matrix3x3, Matrix4x4, Quaternion, Scalar, Vector2D, Vector3D,
};

fn s(x: f32) -> Scalar {
    Scalar::from_bits(x.to_bits())
}

fn f(x: Scalar) -> f32 {
    f32::from_bits(x.to_bits())
}

fn scalars<const N: usize>(v: [f32; N]) -> [Scalar; N] {
    v.map(s)
}

fn floats<const N: usize>(v: [Scalar; N]) -> [f32; N] {
    v.map(f)
}

#[test]
fn math_conversion_tests_test_matrix3_conversion() {
    let m1 = cgmath::Matrix3::new(1.0, 2.0, 3.0,
                          4.0, 5.0, 6.0,
                          7.0, 8.0, 9.0);
    let m2 = Matrix3x3::new(s(1.0), s(4.0), s(7.0),
                            s(2.0), s(5.0), s(8.0),
                            s(3.0), s(6.0), s(9.0));

    let cols: [[f32; 3]; 3] = m1.into();
    let m3 = Matrix3x3::from_columns(cols.map(scalars));
    let m4: cgmath::Matrix3<f32> = cgmath::Matrix3::from(m2.to_columns().map(floats));

    assert_eq!(m1, m4);
    assert_eq!(m2, m3);
}

#[test]
fn math_conversion_tests_test_matrix4_conversion() {
    let m1 = cgmath::Matrix4::new(1.0, 2.0, 3.0, 4.0,
                          5.0, 6.0, 7.0, 8.0,
                          9.0, 10.0, 11.0, 12.0,
                          13.0, 14.0, 15.0, 16.0);
    let m2 = Matrix4x4::new(s(1.0), s(5.0), s(9.0), s(13.0),
                            s(2.0), s(6.0), s(10.0), s(14.0),
                            s(3.0), s(7.0), s(11.0), s(15.0),
                            s(4.0), s(8.0), s(12.0), s(16.0));

    let cols: [[f32; 4]; 4] = m1.into();
    let m3 = Matrix4x4::from_columns(cols.map(scalars));
    let m4: cgmath::Matrix4<f32> = cgmath::Matrix4::from(m2.to_columns().map(floats));

    assert_eq!(m1, m4);
    assert_eq!(m2, m3);
}

#[test]
fn test_quaternion_conversion() {

    // cgmath quaternion
    let q1 = cgmath::Quaternion::new(1.0, 2.0, 3.0, 4.0);
    let q2 = Quaternion::new(s(q1.s), s(q1.v.x), s(q1.v.y), s(q1.v.z));
    let q3: cgmath::Quaternion<f32> = cgmath::Quaternion::new(f(q2.w), f(q2.x), f(q2.y), f(q2.z));
    assert_eq!(q1, q3);
    assert_eq!(floats(q2.to_array()), [1.0, 2.0, 3.0, 4.0]);
}

#[test]
fn test_vector2_conversion() {

    // cgmath vector
    let v1 = cgmath::Vector2::new(1.0, 2.0);
    let v2 = Vector2D::new(s(v1.x), s(v1.y));
    let v3: cgmath::Vector2<f32> = cgmath::Vector2::new(f(v2.x), f(v2.y));
    assert_eq!(v1, v3);

    // cgmath point
    let v1 = cgmath::Point2::new(1.0, 2.0);
    let v2 = Vector2D::new(s(v1.x), s(v1.y));
    let v3: cgmath::Point2<f32> = cgmath::Point2::new(f(v2.x), f(v2.y));
    assert_eq!(v1, v3);

    // fixed array type
    let v1 = [1.0, 2.0];
    let v2 = Vector2D::from(scalars(v1));
    let v3: [f32; 2] = floats(v2.to_array());
    assert_eq!(v1, v3);
}

#[test]
fn test_vector3_conversion() {

    // cgmath vector
    let v1 = cgmath::Vector3::new(1.0, 2.0, 3.0);
    let v2 = Vector3D::new(s(v1.x), s(v1.y), s(v1.z));
    let v3: cgmath::Vector3<f32> = cgmath::Vector3::new(f(v2.x), f(v2.y), f(v2.z));
    assert_eq!(v1, v3);

    // cgmath point
    let v1 = cgmath::Point3::new(1.0, 2.0, 3.0);
    let v2 = Vector3D::new(s(v1.x), s(v1.y), s(v1.z));
    let v3: cgmath::Point3<f32> = cgmath::Point3::new(f(v2.x), f(v2.y), f(v2.z));
    assert_eq!(v1, v3);

    // fixed array type
    let v1 = [1.0, 2.0, 3.0];
    let v2 = Vector3D::from(scalars(v1));
    let v3: [f32; 3] = floats(v2.to_array());
    assert_eq!(v1, v3);
}

#[test]
fn test_color3_conversion() {

    // cgmath vector
    let v1 = cgmath::Vector3::new(1.0, 2.0, 3.0);
    let v2 = Color3D::new(s(v1.x), s(v1.y), s(v1.z));
    let v3: cgmath::Vector3<f32> = cgmath::Vector3::new(f(v2.r), f(v2.g), f(v2.b));
    assert_eq!(v1, v3);

    // fixed array type
    let v1 = [1.0, 2.0, 3.0];
    let v2 = Color3D::from(scalars(v1));
    let v3: [f32; 3] = floats(v2.to_array());
    assert_eq!(v1, v3);
}

#[test]
fn test_color4_conversion() {

    // cgmath vector
    let v1 = cgmath::Vector4::new(1.0, 2.0, 3.0, 4.0);
    let v2 = Color4D::new(s(v1.x), s(v1.y), s(v1.z), s(v1.w));
    let v3: cgmath::Vector4<f32> = cgmath::Vector4::new(f(v2.r), f(v2.g), f(v2.b), f(v2.a));
    assert_eq!(v1, v3);

    // fixed array type
    let v1 = [1.0, 2.0, 3.0, 4.0];
    let v2 = Color4D::from(scalars(v1));
    let v3: [f32; 4] = floats(v2.to_array());
    assert_eq!(v1, v3);
}

#[test]
fn scalar_bits() {
    assert_eq!(Scalar::zero().to_bits(), 0.0f32.to_bits());
    assert_eq!(Scalar::one().to_bits(), 1.0f32.to_bits());
    assert_eq!(f(Scalar::from_bits(0x4234_0000)), 45.0);
    assert_eq!(s(-2.5).to_bits(), 0xC020_0000);
    assert_eq!(Scalar { bits: 7 }, Scalar::from_bits(7));
    assert!(s(0.0) != s(-0.0));
}

#[test]
fn vector_components_keep_their_order() {
    let v = Vector3D::from(scalars([1.0, 2.0, 3.0]));
    assert_eq!((f(v.x), f(v.y), f(v.z)), (1.0, 2.0, 3.0));
    let q = Quaternion::from(scalars([1.0, 2.0, 3.0, 4.0]));
    assert_eq!((f(q.w), f(q.x), f(q.y), f(q.z)), (1.0, 2.0, 3.0, 4.0));
    let c = Color4D::from(scalars([0.1, 0.2, 0.3, 0.4]));
    assert_eq!((f(c.r), f(c.g), f(c.b), f(c.a)), (0.1, 0.2, 0.3, 0.4));
    let p = Vector2D::from(scalars([5.0, 6.0]));
    assert_eq!((f(p.x), f(p.y)), (5.0, 6.0));
}
