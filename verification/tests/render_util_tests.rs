use lib::render_util::{to_matrix3, Matrix3, Transform2D};
use lib::shape_engine::ShapeEngine;

fn mat(v: [f32; 9]) -> Matrix3 {
    Matrix3::from_floats(
        v[0].to_bits(),
        v[1].to_bits(),
        v[2].to_bits(),
        v[3].to_bits(),
        v[4].to_bits(),
        v[5].to_bits(),
        v[6].to_bits(),
        v[7].to_bits(),
        v[8].to_bits(),
    )
}

fn floats(m: &Matrix3) -> [f32; 9] {
    let mut out = [0.0f32; 9];
    for i in 0..9 {
        out[i] = f32::from_bits(m.m[i]);
    }
    out
}

#[test]
fn to_matrix3_extracts_affine_2x3() {
    let m = mat([2.0, 3.0, 5.0, 7.0, 11.0, 13.0, 99.0, 99.0, 99.0]);
    let t = Transform2D::from_matrix(&m);
    let out = to_matrix3(&t);
    assert_eq!(floats(&out), [2.0, 3.0, 5.0, 7.0, 11.0, 13.0, 0.0, 0.0, 1.0]);
}

#[test]
fn to_matrix3_identity_is_identity() {
    let t = Transform2D::new();
    let out = to_matrix3(&t);
    assert_eq!(floats(&out), [1.0, 0.0, 0.0, 0.0, 1.0, 0.0, 0.0, 0.0, 1.0]);
}

#[test]
fn to_matrix3_normalizes_bottom_row() {
    let mut t = Transform2D::new();
    t.matrix.m[6] = 0.5f32.to_bits();
    t.matrix.m[7] = 0.7f32.to_bits();
    t.matrix.m[8] = 2.0f32.to_bits();
    let out = to_matrix3(&t);
    assert_eq!(f32::from_bits(out.m[6]), 0.0);
    assert_eq!(f32::from_bits(out.m[7]), 0.0);
    assert_eq!(f32::from_bits(out.m[8]), 1.0);
}

#[test]
fn to_matrix3_typical_affine() {
    let m = mat([2.0, 0.0, 10.0, 0.0, 3.0, 20.0, 0.0, 0.0, 1.0]);
    let t = Transform2D::from_matrix(&m);
    let out = to_matrix3(&t);
    assert_eq!(out.m, m.m);
}

#[test]
fn transform_elements_read_column_by_column() {
    let t = Transform2D::from_matrix(&mat([1.0, 2.0, 3.0, 4.0, 5.0, 6.0, 7.0, 8.0, 9.0]));
    let order: Vec<f32> = (0..6).map(|i| f32::from_bits(t.get_element(i))).collect();
    assert_eq!(order, vec![1.0, 4.0, 2.0, 5.0, 3.0, 6.0]);
}

#[test]
fn ctor_initializes_fields() {
    let e = ShapeEngine::new(2.5f32.to_bits());
    assert!(!e.is_started);
    assert_eq!(f32::from_bits(e.unit_bits), 2.5);
    assert_eq!(e.catalog_ptr, 0);
    assert_eq!(e.theme_ptr, 0);
    assert!(e.is_enable_xbox);
    assert_eq!(f32::from_bits(e.resolution_bits), 1.0);
}

#[test]
fn setters_modify_fields() {
    let mut e = ShapeEngine::new(1.0f32.to_bits());
    e.set_unit_bits(42.0f32.to_bits());
    e.set_resolution_bits(2.0f32.to_bits());
    e.set_enable_xbox(false);
    assert_eq!(f32::from_bits(e.get_logical_dpi_bits()), 42.0);
    assert_eq!(f32::from_bits(e.get_resolution_bits()), 2.0);
    assert!(!e.is_enable_xbox());
    assert!(!e.is_started());
}
