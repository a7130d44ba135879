use lib::path::{Path, PathImpl, PointF, Style, Subpath};
use lib::path_util::{
    flatten_path, flatten_path_points, flatten_path_types, render_path_commands,
    ShapePathCommand, TYPE_BEZIER, TYPE_LINE, TYPE_MOVE,
};
use lib::paths::Paths;

fn p(x: f32, y: f32) -> PointF {
    PointF::new(x.to_bits(), y.to_bits())
}

/// The corners (top-left, top-right, bottom-right, bottom-left) of the rectangle at
/// `(x, y)` of size `w` x `h`.
fn corners(x: f32, y: f32, w: f32, h: f32) -> (PointF, PointF, PointF, PointF) {
    (p(x, y), p(x + w, y), p(x + w, y + h), p(x, y + h))
}

fn rect_path(x: f32, y: f32, w: f32, h: f32) -> Path {
    let (tl, tr, br, bl) = corners(x, y, w, h);
    Path::from_rect_corners(tl, tr, br, bl)
}

fn subpaths(path: &Path) -> &Vec<Subpath> {
    &path.get_impl_ptr().subpaths
}

fn make_impl(subs: Vec<Subpath>) -> PathImpl {
    let mut impl_obj = PathImpl::new();
    impl_obj.subpaths = subs;
    impl_obj
}

const ORIGIN_MOVE: Subpath = Subpath::Move {
    p1: PointF { x_bits: 0, y_bits: 0 },
    p2: PointF { x_bits: 0, y_bits: 0 },
};

#[test]
fn default_ctor_matches_raw_initial_state() {
    let path = Path::new();
    assert_eq!(path.style.0, 0);
    assert_eq!(path.stroke_style, 1);
    assert_eq!(path.extrusion_ok, 1);
    assert_eq!(f32::from_bits(path.light_bits), 0.0);
    assert_eq!(path.close_contains, 0);
}

#[test]
fn default_ctor_pathimpl_starts_empty_with_capacity_20() {
    let path = Path::new();
    assert_eq!(subpaths(&path).len(), 0);
    assert!(subpaths(&path).capacity() >= 20);
}

#[test]
fn getters_round_trip_with_default_state() {
    let path = Path::new();
    assert_eq!(path.get_style().0, 0);
    assert!(path.get_stroke_style());
    assert!(path.get_extrusion_ok());
    assert_eq!(f32::from_bits(path.get_light()), 0.0);
    assert!(!path.get_close_contains());
}

#[test]
fn set_style_writes_4_bytes_at_offset_0() {
    let mut path = Path::new();
    path.set_style(Style(0xdeadbeef));
    assert_eq!(path.style.0, 0xdeadbeef);
    assert_eq!(path.get_style().0, 0xdeadbeef);
}

#[test]
fn set_stroke_style_writes_1_byte_at_offset_4() {
    let mut path = Path::new();
    path.set_stroke_style(false);
    assert_eq!(path.stroke_style, 0);
    assert!(!path.get_stroke_style());
    path.set_stroke_style(true);
    assert_eq!(path.stroke_style, 1);
    assert!(path.get_stroke_style());
}

#[test]
fn set_extrusion_ok_writes_1_byte_at_offset_5() {
    let mut path = Path::new();
    path.set_extrusion_ok(false);
    assert_eq!(path.extrusion_ok, 0);
    assert!(!path.get_extrusion_ok());
    assert_eq!(path.stroke_style, 1);
}

#[test]
fn set_light_writes_4_bytes_at_offset_8() {
    let mut path = Path::new();
    path.set_light(3.14_f32.to_bits());
    assert_eq!(f32::from_bits(path.light_bits), 3.14_f32);
    assert_eq!(f32::from_bits(path.get_light()), 3.14_f32);
}

#[test]
fn set_close_contains_writes_1_byte_at_offset_c() {
    let mut path = Path::new();
    path.set_close_contains(true);
    assert_eq!(path.close_contains, 1);
    assert!(path.get_close_contains());
    assert_eq!(f32::from_bits(path.light_bits), 0.0);
}

#[test]
fn setters_do_not_touch_impl_ptr() {
    let mut path = Path::new();
    path.add_line(p(1.0, 1.0), p(2.0, 2.0));
    let before = subpaths(&path).clone();
    path.set_style(Style(1));
    path.set_stroke_style(false);
    path.set_extrusion_ok(false);
    path.set_light(2.5_f32.to_bits());
    path.set_close_contains(true);
    assert_eq!(*subpaths(&path), before);
}

#[test]
fn swap_exchanges_all_5_fields_and_impl_ptr() {
    let mut a = Path::new();
    let mut b = Path::new();
    a.set_style(Style(0xaaaa));
    a.set_stroke_style(false);
    a.set_extrusion_ok(false);
    a.set_light(11.0_f32.to_bits());
    a.set_close_contains(true);
    a.add_line(p(1.0, 1.0), p(2.0, 2.0));

    b.set_style(Style(0xbbbb));
    b.set_stroke_style(true);
    b.set_extrusion_ok(true);
    b.set_light(22.0_f32.to_bits());
    b.set_close_contains(false);
    b.close();

    let a_subpaths = subpaths(&a).clone();
    let b_subpaths = subpaths(&b).clone();
    a.swap(&mut b);

    assert_eq!(a.style.0, 0xbbbb);
    assert_eq!(a.stroke_style, 1);
    assert_eq!(a.extrusion_ok, 1);
    assert_eq!(f32::from_bits(a.light_bits), 22.0);
    assert_eq!(a.close_contains, 0);
    assert_eq!(*subpaths(&a), b_subpaths);

    assert_eq!(b.style.0, 0xaaaa);
    assert_eq!(b.stroke_style, 0);
    assert_eq!(b.extrusion_ok, 0);
    assert_eq!(f32::from_bits(b.light_bits), 11.0);
    assert_eq!(b.close_contains, 1);
    assert_eq!(*subpaths(&b), a_subpaths);
}

#[test]
fn swap_does_not_leak_or_double_free() {
    let mut a = Path::new();
    let mut b = Path::new();
    a.swap(&mut b);
    drop(a);
    drop(b);
}

#[test]
fn dtor_frees_impl_when_non_null() {
    let path = Path::new();
    drop(path);
}

#[test]
fn add_line_to_empty_pushes_start_then_line() {
    let mut impl_data = PathImpl::new();
    impl_data.add_line(p(1.0, 2.0), p(3.0, 4.0));
    assert_eq!(impl_data.subpaths.len(), 2);
    assert_eq!(impl_data.subpaths[0], Subpath::Move { p1: p(0.0, 0.0), p2: p(0.0, 0.0) });
    assert_eq!(impl_data.subpaths[1], Subpath::Line { p1: p(1.0, 2.0), p2: p(3.0, 4.0) });
}

#[test]
fn add_line_to_nonempty_pushes_only_line() {
    let mut impl_data = PathImpl::new();
    impl_data.add_line(p(0.0, 0.0), p(1.0, 0.0));
    impl_data.add_line(p(1.0, 0.0), p(1.0, 1.0));
    assert_eq!(impl_data.subpaths.len(), 3);
    assert_eq!(impl_data.subpaths[2], Subpath::Line { p1: p(1.0, 0.0), p2: p(1.0, 1.0) });
}

#[test]
fn add_close_pushes_close_marker() {
    let mut impl_data = PathImpl::new();
    impl_data.add_close();
    assert_eq!(impl_data.subpaths.len(), 1);
    assert_eq!(impl_data.subpaths[0], Subpath::Close);
}

#[test]
fn subpath_raw_type_field_matches_raw_asm_constants() {
    let z = PointF::default();
    assert_eq!(Subpath::Move { p1: z, p2: z }.raw_type_field(), 0);
    assert_eq!(Subpath::Line { p1: z, p2: z }.raw_type_field(), 2);
    assert_eq!(Subpath::Bezier { p1: z, p2: z, p3: z, p4: z }.raw_type_field(), 0);
    assert_eq!(Subpath::Begin.raw_type_field(), 0);
    assert_eq!(Subpath::Close.raw_type_field(), 0);
}

#[test]
fn pointf_layout_8b_repr_c() {
    assert_eq!(std::mem::size_of::<PointF>(), 8);
    assert_eq!(std::mem::align_of::<PointF>(), 4);
}

#[test]
fn from_rect_f_produces_5_subpaths_start_3lines_close() {
    let path = rect_path(10.0, 20.0, 100.0, 50.0);
    let s = subpaths(&path);
    assert_eq!(s.len(), 5);
    assert_eq!(s[0], ORIGIN_MOVE);
    assert_eq!(s[1], Subpath::Line { p1: p(10.0, 20.0), p2: p(110.0, 20.0) });
    assert_eq!(s[2], Subpath::Line { p1: p(110.0, 20.0), p2: p(110.0, 70.0) });
    assert_eq!(s[3], Subpath::Line { p1: p(110.0, 70.0), p2: p(10.0, 70.0) });
    assert_eq!(s[4], Subpath::Close);
}

#[test]
fn from_rect_f_has_same_meta_default_as_default_ctor() {
    let path = rect_path(0.0, 0.0, 1.0, 1.0);
    assert_eq!(path.style.0, 0);
    assert_eq!(path.stroke_style, 1);
    assert_eq!(path.extrusion_ok, 1);
    assert_eq!(f32::from_bits(path.light_bits), 0.0);
    assert_eq!(path.close_contains, 0);
}

#[test]
fn from_line_f_produces_start_plus_line() {
    let path = Path::from_line_f(p(1.0, 2.0), p(5.0, 8.0));
    let s = subpaths(&path);
    assert_eq!(s.len(), 2);
    assert_eq!(s[0], ORIGIN_MOVE);
    assert_eq!(s[1], Subpath::Line { p1: p(1.0, 2.0), p2: p(5.0, 8.0) });
}

#[test]
fn add_line_appends_start_plus_line_on_empty_path() {
    let mut path = Path::new();
    path.add_line(p(1.0, 2.0), p(3.0, 4.0));
    let s = subpaths(&path);
    assert_eq!(s.len(), 2);
    assert_eq!(s[0], ORIGIN_MOVE);
    assert_eq!(s[1], Subpath::Line { p1: p(1.0, 2.0), p2: p(3.0, 4.0) });
}

#[test]
fn add_polyline_iterates_consecutive_pairs() {
    let mut path = Path::new();
    let points = [p(0.0, 0.0), p(1.0, 0.0), p(1.0, 1.0), p(0.0, 1.0)];
    path.add_polyline(&points);
    let s = subpaths(&path);
    assert_eq!(s.len(), 4);
    assert_eq!(s[0], ORIGIN_MOVE);
    assert_eq!(s[1], Subpath::Line { p1: p(0.0, 0.0), p2: p(1.0, 0.0) });
    assert_eq!(s[2], Subpath::Line { p1: p(1.0, 0.0), p2: p(1.0, 1.0) });
    assert_eq!(s[3], Subpath::Line { p1: p(1.0, 1.0), p2: p(0.0, 1.0) });
}

#[test]
fn add_polyline_with_fewer_than_2_points_is_noop() {
    let mut path = Path::new();
    path.add_polyline(&[]);
    path.add_polyline(&[p(1.0, 1.0)]);
    assert_eq!(subpaths(&path).len(), 0);
}

#[test]
fn add_rect_matches_from_rect_when_called_on_fresh_path() {
    let from = rect_path(5.0, 10.0, 20.0, 30.0);
    let mut added = Path::new();
    let (tl, tr, br, bl) = corners(5.0, 10.0, 20.0, 30.0);
    added.add_rect_corners(tl, tr, br, bl);
    assert_eq!(subpaths(&from), subpaths(&added));
}

#[test]
fn add_rect_appends_to_existing_path() {
    let mut path = Path::new();
    path.add_line(p(0.0, 0.0), p(1.0, 0.0));
    let (tl, tr, br, bl) = corners(2.0, 0.0, 1.0, 1.0);
    path.add_rect_corners(tl, tr, br, bl);
    let s = subpaths(&path);
    assert_eq!(s.len(), 2 + 4);
    assert_eq!(s[5], Subpath::Close);
}

#[test]
fn from_polyline_f_chains_lines() {
    let pts = [p(0.0, 0.0), p(1.0, 0.0), p(1.0, 1.0), p(0.0, 1.0), p(0.0, 0.0)];
    let path = Path::from_polyline_f(&pts);
    let s = subpaths(&path);
    assert_eq!(s.len(), 5);
    assert_eq!(s[0], ORIGIN_MOVE);
    assert_eq!(s[1], Subpath::Line { p1: p(0.0, 0.0), p2: p(1.0, 0.0) });
    assert_eq!(s[4], Subpath::Line { p1: p(0.0, 1.0), p2: p(0.0, 0.0) });
}

#[test]
fn from_polyline_f_empty_and_single_point_produce_empty_path() {
    let p0 = Path::from_polyline_f(&[]);
    let p1 = Path::from_polyline_f(&[p(5.0, 5.0)]);
    assert_eq!(subpaths(&p0).len(), 0);
    assert_eq!(subpaths(&p1).len(), 0);
}

#[test]
fn add_bezier_pushes_one_subpath_no_implicit_start() {
    let mut path = Path::new();
    path.add_bezier(p(0.0, 0.0), p(1.0, 2.0), p(3.0, 4.0), p(5.0, 6.0));
    let s = subpaths(&path);
    assert_eq!(s.len(), 1);
    assert_eq!(
        s[0],
        Subpath::Bezier { p1: p(0.0, 0.0), p2: p(1.0, 2.0), p3: p(3.0, 4.0), p4: p(5.0, 6.0) }
    );
}

#[test]
fn add_bezier_chain_3_step_sliding_window() {
    let mut path = Path::new();
    let pts: Vec<PointF> = (0..7).map(|i| p(i as f32, 0.0)).collect();
    path.add_bezier_chain(&pts);
    let s = subpaths(&path);
    assert_eq!(s.len(), 2);
    assert_eq!(
        s[0],
        Subpath::Bezier { p1: p(0.0, 0.0), p2: p(1.0, 0.0), p3: p(2.0, 0.0), p4: p(3.0, 0.0) }
    );
    assert_eq!(
        s[1],
        Subpath::Bezier { p1: p(3.0, 0.0), p2: p(4.0, 0.0), p3: p(5.0, 0.0), p4: p(6.0, 0.0) }
    );
}

#[test]
fn add_bezier_chain_fewer_than_4_points_is_noop() {
    let mut path = Path::new();
    path.add_bezier_chain(&[]);
    path.add_bezier_chain(&[p(0.0, 0.0); 3]);
    assert_eq!(subpaths(&path).len(), 0);
}

#[test]
fn add_bezier_chain_exactly_4_points_one_bezier() {
    let mut path = Path::new();
    path.add_bezier_chain(&[p(0.0, 0.0), p(1.0, 1.0), p(2.0, 2.0), p(3.0, 3.0)]);
    assert_eq!(subpaths(&path).len(), 1);
}

#[test]
fn close_appends_close_marker() {
    let mut path = Path::new();
    path.add_line(p(0.0, 0.0), p(1.0, 1.0));
    path.close();
    assert_eq!(*subpaths(&path).last().unwrap(), Subpath::Close);
}

#[test]
fn clone_deep_copies_subpaths_and_meta() {
    let mut p1 = rect_path(0.0, 0.0, 10.0, 10.0);
    p1.set_style(Style(0x42));
    p1.set_stroke_style(false);
    p1.set_light(3.0_f32.to_bits());
    let p2 = p1.clone_path();
    assert_eq!(p2.style, Style(0x42));
    assert_eq!(p2.stroke_style, 0);
    assert_eq!(p2.extrusion_ok, 1);
    assert_eq!(f32::from_bits(p2.light_bits), 3.0);
    assert_eq!(subpaths(&p1), subpaths(&p2));
}

#[test]
fn clone_mutation_does_not_affect_original() {
    let p1 = Path::from_line_f(p(0.0, 0.0), p(1.0, 1.0));
    let mut p2 = p1.clone_path();
    p2.add_line(p(5.0, 5.0), p(6.0, 6.0));
    assert_eq!(subpaths(&p1).len(), 2);
    assert_eq!(subpaths(&p2).len(), 3);
}

#[test]
fn outline_is_raw_stub_noop() {
    let mut path = rect_path(0.0, 0.0, 1.0, 1.0);
    let original = subpaths(&path).clone();
    path.outline();
    assert_eq!(*subpaths(&path), original);
}

#[test]
fn expand_is_raw_stub_returns_none() {
    let path = rect_path(0.0, 0.0, 1.0, 1.0);
    assert!(path.expand(2.0_f32.to_bits(), true, true, true, 0).is_none());
}

#[test]
fn union_is_raw_stub_noop() {
    let mut path = rect_path(0.0, 0.0, 1.0, 1.0);
    let original = subpaths(&path).clone();
    path.union(0.5_f32.to_bits());
    assert_eq!(*subpaths(&path), original);
}

#[test]
fn flatten_currently_placeholder_noop() {
    let mut path = Path::from_line_f(p(0.0, 0.0), p(1.0, 1.0));
    let len_before = subpaths(&path).len();
    path.flatten();
    assert_eq!(subpaths(&path).len(), len_before);
}

#[test]
fn start_pushes_begin_marker() {
    let mut path = Path::new();
    path.start();
    let s = subpaths(&path);
    assert_eq!(s.len(), 1);
    assert_eq!(s[0], Subpath::Begin);
}

#[test]
fn get_point_count_sums_per_subpath() {
    let mut path = Path::new();
    assert_eq!(path.get_point_count(), 0);
    path.add_line(p(0.0, 0.0), p(1.0, 1.0));
    assert_eq!(path.get_point_count(), 4);
    path.add_bezier(p(0.0, 0.0), p(1.0, 0.0), p(2.0, 0.0), p(3.0, 0.0));
    assert_eq!(path.get_point_count(), 8);
    path.close();
    assert_eq!(path.get_point_count(), 8);
    path.start();
    assert_eq!(path.get_point_count(), 8);
}

#[test]
fn get_points_returns_sequence() {
    let mut path = Path::new();
    path.add_line(p(1.0, 2.0), p(3.0, 4.0));
    let pts = path.get_points();
    assert_eq!(pts, vec![p(0.0, 0.0), p(0.0, 0.0), p(1.0, 2.0), p(3.0, 4.0)]);
    assert_eq!(pts.len(), path.get_point_count());
}

#[test]
fn get_types_returns_subpath_marker_per_entry() {
    let mut path = Path::new();
    path.add_line(p(0.0, 0.0), p(1.0, 1.0));
    path.add_bezier(p(0.0, 0.0), p(1.0, 0.0), p(2.0, 0.0), p(3.0, 0.0));
    path.close();
    path.start();
    assert_eq!(path.get_types(), vec![0, 2, 3, 5, 4]);
}

#[test]
fn from_rect_f_capacity_remains_20_after_5_pushes() {
    let path = rect_path(0.0, 0.0, 1.0, 1.0);
    assert!(subpaths(&path).capacity() >= 20);
}

#[test]
fn flatten_points_empty_returns_empty() {
    let impl_obj = make_impl(vec![]);
    assert_eq!(flatten_path_points(&impl_obj), Vec::<PointF>::new());
}

#[test]
fn flatten_types_empty_returns_empty() {
    let impl_obj = make_impl(vec![]);
    assert_eq!(flatten_path_types(&impl_obj), Vec::<u8>::new());
}

#[test]
fn single_line_emits_start_and_end_points() {
    let impl_obj = make_impl(vec![Subpath::Line { p1: p(1.0, 2.0), p2: p(3.0, 4.0) }]);
    assert_eq!(flatten_path_points(&impl_obj), vec![p(1.0, 2.0), p(3.0, 4.0)]);
}

#[test]
fn single_line_emits_move_then_line_type() {
    let impl_obj = make_impl(vec![Subpath::Line { p1: p(1.0, 2.0), p2: p(3.0, 4.0) }]);
    assert_eq!(flatten_path_types(&impl_obj), vec![TYPE_MOVE, TYPE_LINE]);
}

#[test]
fn single_bezier_emits_four_points() {
    let impl_obj = make_impl(vec![Subpath::Bezier {
        p1: p(0.0, 0.0),
        p2: p(1.0, 1.0),
        p3: p(2.0, 2.0),
        p4: p(3.0, 3.0),
    }]);
    assert_eq!(
        flatten_path_points(&impl_obj),
        vec![p(0.0, 0.0), p(1.0, 1.0), p(2.0, 2.0), p(3.0, 3.0)]
    );
}

#[test]
fn single_bezier_emits_move_then_three_bezier_types() {
    let impl_obj = make_impl(vec![Subpath::Bezier {
        p1: p(0.0, 0.0),
        p2: p(1.0, 1.0),
        p3: p(2.0, 2.0),
        p4: p(3.0, 3.0),
    }]);
    assert_eq!(flatten_path_types(&impl_obj), vec![TYPE_MOVE, TYPE_BEZIER, TYPE_BEZIER, TYPE_BEZIER]);
}

#[test]
fn parallel_arrays_same_length_single_line() {
    let impl_obj = make_impl(vec![Subpath::Line { p1: p(1.0, 2.0), p2: p(3.0, 4.0) }]);
    let (pts, types) = flatten_path(&impl_obj);
    assert_eq!(pts.len(), types.len());
}

#[test]
fn parallel_arrays_same_length_bezier() {
    let impl_obj = make_impl(vec![Subpath::Bezier {
        p1: p(0.0, 0.0),
        p2: p(1.0, 1.0),
        p3: p(2.0, 2.0),
        p4: p(3.0, 3.0),
    }]);
    let (pts, types) = flatten_path(&impl_obj);
    assert_eq!(pts.len(), types.len());
    assert_eq!(pts.len(), 4);
}

#[test]
fn two_lines_flag_stays_set() {
    let impl_obj = make_impl(vec![
        Subpath::Line { p1: p(0.0, 0.0), p2: p(1.0, 1.0) },
        Subpath::Line { p1: p(2.0, 2.0), p2: p(3.0, 3.0) },
    ]);
    assert_eq!(
        flatten_path_points(&impl_obj),
        vec![p(0.0, 0.0), p(1.0, 1.0), p(2.0, 2.0), p(3.0, 3.0)]
    );
}

#[test]
fn two_lines_types_are_alternating() {
    let impl_obj = make_impl(vec![
        Subpath::Line { p1: p(0.0, 0.0), p2: p(1.0, 1.0) },
        Subpath::Line { p1: p(2.0, 2.0), p2: p(3.0, 3.0) },
    ]);
    assert_eq!(flatten_path_types(&impl_obj), vec![TYPE_MOVE, TYPE_LINE, TYPE_MOVE, TYPE_LINE]);
}

#[test]
fn close_pushes_cached_d8_from_previous_line() {
    let impl_obj = make_impl(vec![Subpath::Line { p1: p(5.0, 5.0), p2: p(6.0, 6.0) }, Subpath::Close]);
    assert_eq!(flatten_path_points(&impl_obj), vec![p(5.0, 5.0), p(6.0, 6.0), p(5.0, 5.0)]);
}

#[test]
fn close_emits_line_type_not_move() {
    let impl_obj = make_impl(vec![Subpath::Line { p1: p(1.0, 2.0), p2: p(3.0, 4.0) }, Subpath::Close]);
    assert_eq!(flatten_path_types(&impl_obj), vec![TYPE_MOVE, TYPE_LINE, TYPE_LINE]);
}

#[test]
fn close_before_any_segment_returns_to_origin() {
    let impl_obj = make_impl(vec![Subpath::Close]);
    let (pts, types) = flatten_path(&impl_obj);
    assert_eq!(pts, vec![p(0.0, 0.0)]);
    assert_eq!(types, vec![TYPE_LINE]);
}

#[test]
fn begin_alone_emits_nothing() {
    let impl_obj = make_impl(vec![Subpath::Begin]);
    let (pts, types) = flatten_path(&impl_obj);
    assert!(pts.is_empty());
    assert!(types.is_empty());
}

#[test]
fn begin_resets_flag_before_line() {
    let impl_obj = make_impl(vec![Subpath::Begin, Subpath::Line { p1: p(1.0, 2.0), p2: p(3.0, 4.0) }]);
    let (pts, types) = flatten_path(&impl_obj);
    assert_eq!(pts, vec![p(1.0, 2.0), p(3.0, 4.0)]);
    assert_eq!(types, vec![TYPE_MOVE, TYPE_LINE]);
}

#[test]
fn move_variant_same_as_line() {
    let line = make_impl(vec![Subpath::Line { p1: p(1.0, 2.0), p2: p(3.0, 4.0) }]);
    let mv = make_impl(vec![Subpath::Move { p1: p(1.0, 2.0), p2: p(3.0, 4.0) }]);
    assert_eq!(flatten_path_points(&line), flatten_path_points(&mv));
    assert_eq!(flatten_path_types(&line), flatten_path_types(&mv));
}

#[test]
fn rectangle_via_four_lines_and_close_emits_polygon() {
    let impl_obj = make_impl(vec![
        Subpath::Line { p1: p(0.0, 0.0), p2: p(10.0, 0.0) },
        Subpath::Line { p1: p(10.0, 0.0), p2: p(10.0, 10.0) },
        Subpath::Line { p1: p(10.0, 10.0), p2: p(0.0, 10.0) },
        Subpath::Line { p1: p(0.0, 10.0), p2: p(0.0, 0.0) },
        Subpath::Close,
    ]);
    let (pts, types) = flatten_path(&impl_obj);
    assert_eq!(
        pts,
        vec![
            p(0.0, 0.0),
            p(10.0, 0.0),
            p(10.0, 0.0),
            p(10.0, 10.0),
            p(10.0, 10.0),
            p(0.0, 10.0),
            p(0.0, 10.0),
            p(0.0, 0.0),
            p(0.0, 10.0),
        ]
    );
    assert_eq!(
        types,
        vec![
            TYPE_MOVE, TYPE_LINE, TYPE_MOVE, TYPE_LINE, TYPE_MOVE, TYPE_LINE, TYPE_MOVE, TYPE_LINE,
            TYPE_LINE,
        ]
    );
}

#[test]
fn line_then_bezier_emits_correct_sequence() {
    let impl_obj = make_impl(vec![
        Subpath::Line { p1: p(0.0, 0.0), p2: p(1.0, 0.0) },
        Subpath::Bezier { p1: p(1.0, 0.0), p2: p(2.0, 0.5), p3: p(3.0, 1.5), p4: p(4.0, 2.0) },
    ]);
    let (pts, types) = flatten_path(&impl_obj);
    assert_eq!(
        pts,
        vec![p(0.0, 0.0), p(1.0, 0.0), p(1.0, 0.0), p(2.0, 0.5), p(3.0, 1.5), p(4.0, 2.0)]
    );
    assert_eq!(
        types,
        vec![TYPE_MOVE, TYPE_LINE, TYPE_MOVE, TYPE_BEZIER, TYPE_BEZIER, TYPE_BEZIER]
    );
}

#[test]
fn pointf_emitted_with_exact_bit_pattern() {
    let p1 = p(1.5_f32, 2.5_f32);
    let impl_obj = make_impl(vec![Subpath::Line { p1, p2: p(3.0, 4.0) }]);
    let pts = flatten_path_points(&impl_obj);
    assert_eq!(f32::from_bits(pts[0].x_bits), 1.5);
    assert_eq!(f32::from_bits(pts[0].y_bits), 2.5);
    assert_eq!(pts[0].x_bits, 1.5_f32.to_bits());
    assert_eq!(pts[0].y_bits, 2.5_f32.to_bits());
}

fn commands_of(path: &Path, with_moves: bool) -> Vec<ShapePathCommand> {
    let (pts, types) = flatten_path(path.get_impl_ptr());
    render_path_commands(&pts, &types, with_moves)
}

#[test]
fn empty_src_produces_empty_out() {
    let src = Path::new();
    assert!(commands_of(&src, false).is_empty());
}

#[test]
fn single_line_b1_false_skips_moves_produces_two_lines() {
    let mut src = Path::new();
    src.add_line(p(96.0, 0.0), p(192.0, 0.0));
    let out = commands_of(&src, false);
    assert_eq!(out, vec![ShapePathCommand::Line(p(0.0, 0.0)), ShapePathCommand::Line(p(192.0, 0.0))]);
}

#[test]
fn single_line_b1_true_produces_start_line_start_line() {
    let mut src = Path::new();
    src.add_line(p(96.0, 0.0), p(192.0, 0.0));
    let out = commands_of(&src, true);
    assert_eq!(
        out,
        vec![
            ShapePathCommand::Start(p(0.0, 0.0)),
            ShapePathCommand::Line(p(0.0, 0.0)),
            ShapePathCommand::Start(p(96.0, 0.0)),
            ShapePathCommand::Line(p(192.0, 0.0)),
        ]
    );
}

#[test]
fn empty_render_path_produces_empty_shape_path() {
    let src = Path::new();
    assert!(commands_of(&src, true).is_empty());
}

#[test]
fn bezier_consumes_three_points_at_correct_offsets() {
    let mut src = Path::new();
    src.add_bezier(p(0.0, 0.0), p(96.0, 0.0), p(96.0, 96.0), p(0.0, 96.0));
    let out = commands_of(&src, false);
    assert_eq!(out, vec![ShapePathCommand::Bezier(p(96.0, 0.0), p(96.0, 96.0), p(0.0, 96.0))]);
}

#[test]
fn bezier_with_b1_true_produces_start_plus_bezier() {
    let mut src = Path::new();
    src.add_bezier(p(0.0, 0.0), p(96.0, 0.0), p(96.0, 96.0), p(0.0, 96.0));
    let out = commands_of(&src, true);
    assert_eq!(
        out,
        vec![
            ShapePathCommand::Start(p(0.0, 0.0)),
            ShapePathCommand::Bezier(p(96.0, 0.0), p(96.0, 96.0), p(0.0, 96.0)),
        ]
    );
}

#[test]
fn truncated_bezier_and_unknown_types_are_skipped() {
    let pts = [p(1.0, 1.0), p(2.0, 2.0), p(3.0, 3.0), p(4.0, 4.0)];
    // Type 2 is unknown; the Bezier at index 2 lacks a third point; the high bit is ignored.
    let types = [2u8, 0x81, 3, 3];
    let out = render_path_commands(&pts, &types, true);
    assert_eq!(out, vec![ShapePathCommand::Line(p(2.0, 2.0))]);
}

#[test]
fn default_ctor_all_null() {
    let paths = Paths::new();
    assert_eq!(paths.len(), 0);
    assert_eq!(paths.capacity(), 0);
    assert!(paths.is_empty());
}

#[test]
fn add_path_null_is_noop() {
    let mut paths = Paths::new();
    paths.add_path(0);
    assert_eq!(paths.len(), 0);
    assert_eq!(paths.capacity(), 0);
}

#[test]
fn add_path_single_allocates_and_stores() {
    let mut paths = Paths::new();
    paths.add_path(0x1000);
    assert_eq!(paths.len(), 1);
    assert!(paths.capacity() >= 1);
    assert_eq!(paths.get_at(0), 0x1000);
}

#[test]
fn add_path_multiple_grows_capacity() {
    let mut paths = Paths::new();
    let handles: Vec<usize> = (1..=10).map(|i| i * 0x100).collect();
    let mut caps = Vec::new();
    for &h in &handles {
        paths.add_path(h);
        caps.push(paths.capacity());
    }
    assert_eq!(paths.len(), 10);
    for (i, &h) in handles.iter().enumerate() {
        assert_eq!(paths.get_at(i), h);
    }
    assert_eq!(caps, vec![1, 2, 4, 4, 8, 8, 8, 8, 16, 16]);
}

#[test]
fn from_path_adds_single() {
    let paths = Paths::from_path(0x2000);
    assert_eq!(paths.len(), 1);
    assert_eq!(paths.get_at(0), 0x2000);
}

#[test]
fn from_path_with_null_yields_empty() {
    let paths = Paths::from_path(0);
    assert!(paths.is_empty());
}

#[test]
fn drop_frees_buffer() {
    let mut paths = Paths::new();
    paths.add_path(0x3000);
    assert!(!paths.is_empty());
    drop(paths);
}
