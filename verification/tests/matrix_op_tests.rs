use affine_algebra::matrices::AffineMatrix;
use affine_algebra::vectors::{Vector3, Vector4};

// cos(1) and sin(1), for rotation layouts over an angle of 1 radian.
const C: f32 = 0.5403023058681398;
const S: f32 = 0.8414709848078965;

fn dot(a: Vector4<f32>, b: Vector4<f32>) -> f32 {
    a.x() * b.x() + a.y() * b.y() + a.z() * b.z() + a.w() * b.w()
}

fn incrementing() -> AffineMatrix<f32> {
    AffineMatrix::from_row_major(vec![
        1.0f32, 2.0, 3.0, 4.0,
        5.0, 6.0, 7.0, 8.0,
        9.0, 10.0, 11.0, 12.0,
        13.0, 14.0, 15.0, 16.0,
    ])
}

#[test]
fn rotation_z_matrix() {
    // the rotation layout for 1 radian about the Z axis
    let rotate = AffineMatrix::rotation_z(0.0f32, 1.0, C, S, -S);

    assert_eq!(rotate.rvec(1), Vector4::new(C, -S, 0.0, 0.0));
    assert_eq!(rotate.rvec(2), Vector4::new(S, C, 0.0, 0.0));
    assert_eq!(rotate.rvec(3), Vector4::new(0.0, 0.0, 1.0, 0.0));
    assert_eq!(rotate.rvec(4), Vector4::new(0.0, 0.0, 0.0, 1.0));
}

#[test]
fn rotation_y_matrix() {
    // the rotation layout for 1 radian about the Y axis
    let rotate = AffineMatrix::rotation_y(0.0f32, 1.0, C, S, -S);

    assert_eq!(rotate.rvec(1), Vector4::new(C, 0.0, S, 0.0));
    assert_eq!(rotate.rvec(2), Vector4::new(0.0, 1.0, 0.0, 0.0));
    assert_eq!(rotate.rvec(3), Vector4::new(-S, 0.0, C, 0.0));
    assert_eq!(rotate.rvec(4), Vector4::new(0.0, 0.0, 0.0, 1.0));
}

#[test]
fn rotation_x_matrix() {
    // the rotation layout for 1 radian about the X axis
    let rotate = AffineMatrix::rotation_x(0.0f32, 1.0, C, S, -S);

    assert_eq!(rotate.rvec(1), Vector4::new(1.0, 0.0, 0.0, 0.0));
    assert_eq!(rotate.rvec(2), Vector4::new(0.0, C, -S, 0.0));
    assert_eq!(rotate.rvec(3), Vector4::new(0.0, S, C, 0.0));
    assert_eq!(rotate.rvec(4), Vector4::new(0.0, 0.0, 0.0, 1.0));
}

#[test]
fn rotation_axis_tour() {
    // A quarter turn has sine 1 and cosine 0, so the tour is exact.
    let i = Vector3::new(1.0f32, 0.0, 0.0);

    // rotate <1,0,0> 1/4 turn about the z axis to get <0,1,0>
    let rz = AffineMatrix::rotation_z(0.0f32, 1.0, 0.0, 1.0, -1.0);
    let j = rz.apply_vec3_with(i, 1.0, dot);
    assert_eq!(j, Vector3::new(0.0, 1.0, 0.0));

    // rotate <0,1,0> 1/4 turn about the x axis to get <0,0,1>
    let rx = AffineMatrix::rotation_x(0.0f32, 1.0, 0.0, 1.0, -1.0);
    let k = rx.apply_vec3_with(j, 1.0, dot);
    assert_eq!(k, Vector3::new(0.0, 0.0, 1.0));

    // rotate <0,0,1> 1/4 turn about the y axis to get <1,0,0>
    let ry = AffineMatrix::rotation_y(0.0f32, 1.0, 0.0, 1.0, -1.0);
    let i2 = ry.apply_vec3_with(k, 1.0, dot);
    assert_eq!(i, i2);
}

#[test]
fn translate() {
    // start at <1,0,0>
    let i = Vector3::new(1.0f32, 0.0, 0.0);

    // move 'left' 1 unit and 'up' 1 unit
    let t = AffineMatrix::translation(0.0f32, 1.0, -1.0, 1.0, 0.0);

    let should_be_j = t.apply_vec3_with(i, 1.0, dot);

    assert_eq!(should_be_j, Vector3::new(0.0, 1.0, 0.0));
}

#[test]
fn primitives_multiply_as_matrices() {
    let i = Vector3::new(1.0f32, 0.0, 0.0);

    // a quarter turn about Z composed with a uniform scale of 2
    let rz = AffineMatrix::rotation_z(0.0f32, 1.0, 0.0, 1.0, -1.0);
    let s2 = AffineMatrix::diagonal(0.0f32, 2.0, 2.0, 2.0, 1.0);
    let t = rz.multiply_with(s2, dot);

    let should_be_2j = t.apply_vec3_with(i, 1.0, dot);

    assert_eq!(should_be_2j, Vector3::new(0.0, 2.0, 0.0));
}

#[test]
fn multiply_identity_is_neutral() {
    let m = incrementing();
    let id = AffineMatrix::diagonal(0.0f32, 1.0, 1.0, 1.0, 1.0);
    assert_eq!(id.multiply_with(m, dot), m);
    assert_eq!(m.multiply_with(id, dot), m);
}

#[test]
fn apply_affine_sums_rows() {
    let m = incrementing();
    let a = m.apply_affine_with(Vector4::new(1.0f32, 1.0, 1.0, 1.0), dot);
    assert_eq!(a, Vector4::new(10.0, 26.0, 42.0, 58.0));
}

#[test]
fn row_major_round_trip() {
    let v = vec![
        1.0f32, 2.0, 3.0, 4.0,
        5.0, 6.0, 7.0, 8.0,
        9.0, 10.0, 11.0, 12.0,
        13.0, 14.0, 15.0, 16.0,
    ];
    let m = AffineMatrix::from_row_major(v.clone());
    assert_eq!(m.as_row_major_vec(), v);
}

#[test]
fn transpose_permutes_row_major() {
    let m = incrementing();
    let t = m.transpose();
    assert_eq!(
        t.as_row_major_vec(),
        vec![
            1.0f32, 5.0, 9.0, 13.0,
            2.0, 6.0, 10.0, 14.0,
            3.0, 7.0, 11.0, 15.0,
            4.0, 8.0, 12.0, 16.0,
        ]
    );
}

#[test]
fn transpose_twice_is_identity() {
    let m = incrementing();
    assert_eq!(m.transpose().transpose(), m);
}

#[test]
fn column_major_ctor_is_transposed_row_major() {
    let v = vec![
        1.0f32, 2.0, 3.0, 4.0,
        5.0, 6.0, 7.0, 8.0,
        9.0, 10.0, 11.0, 12.0,
        13.0, 14.0, 15.0, 16.0,
    ];
    let a = AffineMatrix::from_column_major(v.clone());
    let b = AffineMatrix::from_row_major(v).transpose();
    assert_eq!(a, b);
}

#[test]
fn rvec_and_cvec_extract() {
    let m = incrementing();
    assert_eq!(m.rvec(2), Vector4::new(5.0, 6.0, 7.0, 8.0));
    assert_eq!(m.cvec(2), Vector4::new(2.0, 6.0, 10.0, 14.0));
    assert_eq!(m.rvec(1), Vector4::new(1.0, 2.0, 3.0, 4.0));
    assert_eq!(m.cvec(4), Vector4::new(4.0, 8.0, 12.0, 16.0));
}

#[test]
fn filled_fills_every_slot() {
    let z = AffineMatrix::filled(0.0f32);
    assert_eq!(z.as_row_major_vec(), vec![0.0f32; 16]);
}

#[test]
fn translation_fills_rightmost_column() {
    let t = AffineMatrix::translation(0.0f32, 1.0, 7.0, 8.0, 9.0);
    assert_eq!(t.cvec(4), Vector4::new(7.0, 8.0, 9.0, 1.0));
    assert_eq!(t.cvec(1), Vector4::new(1.0, 0.0, 0.0, 0.0));
}
