use lib::brush::{Brush, BrushType};
use lib::color::Color;
use lib::pen::{
    ArrowSizeStyle, ArrowStyle, DashStyle, LineCapStyle, LineJoinStyle, Pen, PenAlignStyle,
    PenCompoundStyle, KEY_DASH, KEY_LINE_CAP,
};

#[test]
fn pen_default_uses_empty_brush() {
    let p = Pen::new_default();
    assert_eq!(p.brush.get_type(), BrushType::Empty);
    assert_eq!(p.get_line_cap_style(), LineCapStyle::Square);
}

#[test]
fn pen_eq_same_fields_returns_true() {
    let p1 = Pen::new_default();
    let p2 = Pen::new_default();
    assert!(p1 == p2);
}

#[test]
fn pen_raw_16b_layout() {
    assert_eq!(std::mem::size_of::<Pen>(), 16);
    assert_eq!(std::mem::align_of::<Pen>(), 8);
}

#[test]
fn pen_default_thickness_is_three_quarter_point() {
    let p = Pen::new_default();
    assert_eq!(p.get_thickness_bits(), (1.0f32 * 0.75 / 72.0).to_bits());
    assert_eq!(p.bag_size(), 1);
    assert_eq!(f32::from_bits(p.get_miter_limit_bits()), 10.0);
}

#[test]
fn pen_eq_different_width_returns_false() {
    let mut p1 = Pen::new_default();
    p1.set_thickness_bits(1.0f32.to_bits());
    let mut p2 = Pen::new_default();
    p2.set_thickness_bits(2.0f32.to_bits());
    assert!(p1 != p2);
}

#[test]
fn pen_setter_round_trips() {
    let mut p = Pen::new_default();
    p.set_thickness_bits(2.5f32.to_bits());
    p.set_pen_compound_style(PenCompoundStyle::ThickThin);
    p.set_dash_style(DashStyle::DashDot);
    p.set_line_cap_style(LineCapStyle::Round);
    p.set_line_join_style(LineJoinStyle::Bevel);
    p.set_miter_limit_bits(15.0f32.to_bits());
    p.set_start_arrow_style(ArrowStyle::Diamond);
    p.set_end_arrow_style(ArrowStyle::Triangle);
    p.set_pen_align_style(PenAlignStyle::Outset);
    assert_eq!(f32::from_bits(p.get_thickness_bits()), 2.5);
    assert_eq!(p.get_pen_compound_style(), PenCompoundStyle::ThickThin);
    assert_eq!(p.get_dash_style(), DashStyle::DashDot);
    assert_eq!(p.get_line_cap_style(), LineCapStyle::Round);
    assert_eq!(p.get_line_join_style(), LineJoinStyle::Bevel);
    assert_eq!(f32::from_bits(p.get_miter_limit_bits()), 15.0);
    assert_eq!(p.get_start_arrow_style(), ArrowStyle::Diamond);
    assert_eq!(p.get_end_arrow_style(), ArrowStyle::Triangle);
    assert_eq!(p.get_pen_align_style(), PenAlignStyle::Outset);
    assert_eq!(p.get_start_arrow_size(), ArrowSizeStyle::Small);
    assert_eq!(p.get_end_arrow_size(), ArrowSizeStyle::Small);
}

#[test]
fn pen_unknown_stored_number_reads_as_default() {
    let mut p = Pen::new_default();
    p.override_enum_at(KEY_DASH, 99);
    assert_eq!(p.get_dash_style(), DashStyle::Solid);
    p.override_enum_at(KEY_LINE_CAP, 7);
    assert_eq!(p.get_line_cap_style(), LineCapStyle::Square);
}

#[test]
fn pen_new_wraps_color_as_solid_brush() {
    let red = Color::from_rgb(0xFF, 0, 0);
    let p = Pen::new(
        red,
        2.0f32.to_bits(),
        PenCompoundStyle::Single,
        DashStyle::Solid,
        LineCapStyle::Round,
        LineJoinStyle::Miter,
        ArrowStyle::NoArrow,
        ArrowSizeStyle::Small,
        ArrowStyle::NoArrow,
        ArrowSizeStyle::Small,
        PenAlignStyle::Center,
    );
    assert_eq!(p.brush.get_type(), BrushType::Solid);
    assert_eq!(f32::from_bits(p.get_thickness_bits()), 2.0);
}

#[test]
fn pen_clone_preserves_all_fields() {
    let red = Color::from_rgb(0xFF, 0, 0);
    let p = Pen::new(
        red,
        3.5f32.to_bits(),
        PenCompoundStyle::Double,
        DashStyle::Dash,
        LineCapStyle::Flat,
        LineJoinStyle::Round,
        ArrowStyle::Triangle,
        ArrowSizeStyle::Large,
        ArrowStyle::Diamond,
        ArrowSizeStyle::Medium,
        PenAlignStyle::Inset,
    );
    let cloned = p.clone();
    assert_eq!(f32::from_bits(cloned.get_thickness_bits()), 3.5);
    assert_eq!(cloned.get_pen_compound_style(), PenCompoundStyle::Double);
    assert_eq!(cloned.get_dash_style(), DashStyle::Dash);
    assert_eq!(cloned.get_line_cap_style(), LineCapStyle::Flat);
    assert_eq!(cloned.get_start_arrow_style(), ArrowStyle::Triangle);
    assert_eq!(cloned.get_end_arrow_size(), ArrowSizeStyle::Medium);
    assert_eq!(cloned.get_pen_align_style(), PenAlignStyle::Inset);
    assert!(cloned == p);
}

#[test]
fn pen_clone_with_color_replaces_brush() {
    let red = Color::from_rgb(0xFF, 0, 0);
    let blue = Color::from_rgb(0, 0, 0xFF);
    let p = Pen::new(
        red,
        1.0f32.to_bits(),
        PenCompoundStyle::default(),
        DashStyle::default(),
        LineCapStyle::default(),
        LineJoinStyle::default(),
        ArrowStyle::default(),
        ArrowSizeStyle::default(),
        ArrowStyle::default(),
        ArrowSizeStyle::default(),
        PenAlignStyle::default(),
    );
    let cloned = p.clone_with_color(&blue);
    assert_eq!(f32::from_bits(cloned.get_thickness_bits()), 1.0);
    match *cloned.brush {
        Brush::Solid(c) => assert_eq!(c.get_rgb().b, 0xFF),
        Brush::Empty => panic!("expected SolidBrush"),
    }
    assert!(cloned != p);
}

#[test]
fn pen_engine_defaults_store_ten_settings() {
    let width = (4.0f32 * 0.75 / 72.0).to_bits();
    let p = Pen::new_with_engine_defaults(width);
    assert_eq!(p.brush.get_type(), BrushType::Empty);
    assert_eq!(p.bag_size(), 10);
    assert_eq!(p.get_thickness_bits(), width);
    assert_eq!(p.get_line_cap_style(), LineCapStyle::Round);
    assert_eq!(p.get_line_join_style(), LineJoinStyle::Round);
    assert_eq!(p.get_start_arrow_size(), ArrowSizeStyle::Small);
    assert_eq!(p.get_end_arrow_size(), ArrowSizeStyle::Small);
    assert_eq!(f32::from_bits(p.get_miter_limit_bits()), 10.0);
}

#[test]
fn pen_without_bag_body_reports_defaults() {
    let mut p = Pen { brush: Box::new(Brush::Empty), bag: lib::property_bag::PropertyBag { ctrl: None } };
    p.set_dash_style(DashStyle::Dot);
    assert_eq!(p.get_dash_style(), DashStyle::Solid);
    assert_eq!(f32::from_bits(p.get_thickness_bits()), 1.0);
    assert_eq!(p.bag_size(), 0);
}
