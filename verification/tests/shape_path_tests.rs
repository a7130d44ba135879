use lib::shape_path::{Path, SizeF};

fn size(w: f32, h: f32) -> SizeF {
    SizeF::new(w.to_bits(), h.to_bits())
}

#[test]
fn layout_basic_fields() {
    let p = Path::new(0, true, size(10.0, 20.0), false, 0.5f32.to_bits());
    assert_eq!(p.style, 0);
    assert!(p.get_stroke_style());
    assert!(!p.get_extrusion_ok());
    assert_eq!(p.size, size(10.0, 20.0));
    assert_eq!(f32::from_bits(p.get_light_bits()), 0.5);
    assert!(p.is_empty());
    assert_eq!(p.get_count(), 0);
}

#[test]
fn create_returns_boxed() {
    let p = Path::create(1, true, size(5.0, 5.0), true, 1.0f32.to_bits());
    assert_eq!(p.style, 1);
    assert!(p.get_stroke_style());
    assert!(p.get_extrusion_ok());
}

#[test]
fn start_adds_one_segment() {
    let mut p = Path::new(0, false, SizeF::default(), false, 0);
    p.start(7);
    assert_eq!(p.get_count(), 1);
    let seg = p.get_at(0).unwrap();
    assert_eq!(seg.style, 0);
    assert_eq!(seg.pos0, 7);
    assert_eq!(seg.pos1, 0);
}

#[test]
fn add_line_appends_line_segment() {
    let mut p = Path::new(0, false, SizeF::default(), false, 0);
    p.start(1);
    p.add_line(2);
    assert_eq!(p.get_count(), 2);
    assert_eq!(p.get_at(0).unwrap().style, 0);
    assert_eq!(p.get_at(1).unwrap().style, 1);
}

#[test]
fn add_bezier_appends_bezier_segment() {
    let mut p = Path::new(0, false, SizeF::default(), false, 0);
    p.add_bezier(11, 22, 33);
    let seg = p.get_at(0).unwrap();
    assert_eq!(seg.style, 3);
    assert_eq!(seg.pos0, 11);
    assert_eq!(seg.pos1, 22);
    assert_eq!(seg.pos2, 33);
}

#[test]
fn close_appends_close_segment() {
    let mut p = Path::new(0, false, SizeF::default(), false, 0);
    p.start(1);
    p.close();
    assert_eq!(p.get_count(), 2);
    let close_seg = p.get_at(1).unwrap();
    assert_eq!(close_seg.style, 4);
    assert_eq!(close_seg.pos0, 0);
}

#[test]
fn rectangle_construction() {
    let mut p = Path::new(0, false, size(10.0, 10.0), false, 0);
    p.start(1);
    p.add_line(2);
    p.add_line(3);
    p.add_line(4);
    p.close();
    assert_eq!(p.get_count(), 5);
    assert_eq!(p.get_at(0).unwrap().style, 0);
    assert_eq!(p.get_at(1).unwrap().style, 1);
    assert_eq!(p.get_at(2).unwrap().style, 1);
    assert_eq!(p.get_at(3).unwrap().style, 1);
    assert_eq!(p.get_at(4).unwrap().style, 4);
    assert!(p.get_at(5).is_none());
}

#[test]
fn set_size_modifies_size() {
    let mut p = Path::new(0, false, size(1.0, 1.0), false, 0);
    p.set_size(size(99.0, 88.0));
    assert_eq!(p.size, size(99.0, 88.0));
    p.set_stroke_style(true);
    assert!(p.get_stroke_style());
    assert_eq!(p.size, size(99.0, 88.0));
}
