use lib::color::Color;
use lib::property::{PBool, PColor, PEnum, PFloat, PVec4, Property, PropertyValue};
use lib::state;

#[test]
fn property_raw_layout() {
    assert_eq!(std::mem::size_of::<Property>(), 16);
    assert_eq!(std::mem::align_of::<Property>(), 8);
}

#[test]
fn property_get_set_state() {
    let mut p = Property::new(0);
    assert_eq!(p.get_state(), 0);
    p.set_state(2);
    assert_eq!(p.get_state(), 2);
}

#[test]
fn property_is_enable_matches_raw_semantic() {
    let p0 = Property::new(0);
    let p1 = Property::new(1);
    let p2 = Property::new(2);
    let p3 = Property::new(3);
    let p4 = Property::new(4);
    assert!(!p0.is_enable());
    assert!(p1.is_enable());
    assert!(p2.is_enable());
    assert!(!p3.is_enable());
    assert!(p4.is_enable());
}

#[test]
fn property_eq_special_case_1_eq_2() {
    let p1 = Property::new(1);
    let p2 = Property::new(2);
    assert!(p1.eq_op(&p2));
    assert!(p2.eq_op(&p1));
}

#[test]
fn property_eq_same_state() {
    let p = Property::new(3);
    let q = Property::new(3);
    assert!(p.eq_op(&q));
}

#[test]
fn property_eq_different_state_normal() {
    let p0 = Property::new(0);
    let p3 = Property::new(3);
    assert!(!p0.eq_op(&p3));
    assert!(!p3.eq_op(&p0));
}

#[test]
fn property_lt_state_order() {
    let p0 = Property::new(0);
    let p2 = Property::new(2);
    assert!(p0.lt_op(&p2));
    assert!(!p2.lt_op(&p0));
    assert!(!p0.lt_op(&p0));
}

#[test]
fn pcolor_state_passed_via_property_ctor() {
    let src = Color::from_rgb(1, 2, 3);
    let pc = PColor::new(state::ENABLED_EXPLICIT, &src);
    assert_eq!(pc.get_state(), state::ENABLED_EXPLICIT);
    assert!(pc.base.is_enable());
}

#[test]
fn pcolor_embeds_color_at_offset_0x10() {
    let src = Color::from_rgb(0xAB, 0xCD, 0xEF);
    let pc = PColor::new(0, &src);
    let rgb = pc.color().get_rgb();
    assert_eq!(rgb.r, 0xAB);
    assert_eq!(rgb.g, 0xCD);
    assert_eq!(rgb.b, 0xEF);
}

#[test]
fn pcolor_create_raw_returns_heap_box() {
    let src = Color::from_rgb(0, 0, 0);
    let p = PColor::create_raw(0, &src);
    assert_eq!(p.get_state(), 0);
    drop(p);
}

#[test]
fn pcolor_set_state_round_trip() {
    let src = Color::from_rgb(0, 0, 0);
    let mut pc = PColor::new(0, &src);
    pc.set_state(2);
    assert_eq!(pc.get_state(), 2);
}

#[test]
fn pcolor_eq_same_state_same_color_true() {
    let c1 = Color::from_rgb(1, 2, 3);
    let c2 = Color::from_rgb(1, 2, 3);
    let pc1 = PColor::new(2, &c1);
    let pc2 = PColor::new(2, &c2);
    assert!(pc1.eq_op(&pc2));
}

#[test]
fn pcolor_eq_diff_color_false() {
    let c1 = Color::from_rgb(1, 2, 3);
    let c2 = Color::from_rgb(99, 88, 77);
    let pc1 = PColor::new(2, &c1);
    let pc2 = PColor::new(2, &c2);
    assert!(!pc1.eq_op(&pc2));
}

#[test]
fn pcolor_eq_special_state_1_eq_2() {
    let c = Color::from_rgb(5, 5, 5);
    let c2 = Color::from_rgb(5, 5, 5);
    let pc_s1 = PColor::new(1, &c);
    let pc_s2 = PColor::new(2, &c2);
    assert!(pc_s1.eq_op(&pc_s2));
}

#[test]
fn pcolor_clone_to_heap_yields_independent_copy() {
    let src = Color::from_rgb(10, 20, 30);
    let pc = PColor::new(state::ENABLED_EXPLICIT, &src);
    let cloned = pc.clone_to_heap();
    assert_eq!(cloned.get_state(), pc.get_state());
    assert_eq!(cloned.color.get_rgb().r, 10);
    assert_eq!(cloned.color.get_rgb().g, 20);
    assert_eq!(cloned.color.get_rgb().b, 30);
}

#[test]
fn penum_raw_layout() {
    assert_eq!(std::mem::size_of::<PEnum>(), 16);
    assert_eq!(std::mem::align_of::<PEnum>(), 8);
}

#[test]
fn penum_state_and_value() {
    let pe = PEnum::new(2, 42);
    assert_eq!(pe.get_state(), 2);
    assert_eq!(pe.get_value(), 42);
}

#[test]
fn penum_set_value() {
    let mut pe = PEnum::new(1, 0);
    pe.set_value(99);
    assert_eq!(pe.value, 99);
}

#[test]
fn penum_clone_to_heap_independent() {
    let pe = PEnum::new(2, 7);
    let cloned = pe.clone_to_heap();
    assert_eq!(cloned.get_state(), 2);
    assert_eq!(cloned.get_value(), 7);
}

#[test]
fn pcolor_lt_state_order() {
    let c = Color::from_rgb(0, 0, 0);
    let c2 = Color::from_rgb(0, 0, 0);
    let pc_low = PColor::new(0, &c);
    let pc_high = PColor::new(2, &c2);
    assert!(pc_low.lt_op(&pc_high));
    assert!(!pc_high.lt_op(&pc_low));
}

#[test]
fn pcolor_lt_same_state_orders_by_color() {
    let pc_a = PColor::new(2, &Color::from_rgb(1, 0, 0));
    let pc_b = PColor::new(2, &Color::from_rgb(2, 0, 0));
    assert!(pc_a.lt_op(&pc_b));
    assert!(!pc_b.lt_op(&pc_a));
    assert!(!pc_a.lt_op(&pc_a));
}

#[test]
fn pbool_raw_16b_layout() {
    assert_eq!(std::mem::size_of::<PBool>(), 16);
    assert_eq!(std::mem::align_of::<PBool>(), 8);
}

#[test]
fn pbool_value_round_trip() {
    let p_true = PBool::new(2, true);
    assert_eq!(p_true.get_value(), true);
    assert_eq!(p_true.value, 1);
    let p_false = PBool::new(2, false);
    assert_eq!(p_false.get_value(), false);
    assert_eq!(p_false.value, 0);
}

#[test]
fn pbool_set_value_round_trip() {
    let mut p = PBool::new(2, false);
    p.set_value(true);
    assert!(p.get_value());
    assert_eq!(p.state, 2);
}

#[test]
fn pvec4_raw_32b_layout() {
    assert_eq!(std::mem::size_of::<PVec4>(), 32);
    assert_eq!(std::mem::align_of::<PVec4>(), 8);
}

#[test]
fn pvec4_holds_sixteen_bytes() {
    let bytes: [u8; 16] = [0, 0, 0, 0x3F, 0, 0, 0, 0x3F, 0, 0, 0, 0x3F, 0, 0, 0, 0x3F];
    let p = PVec4::new(2, bytes);
    assert_eq!(p.value, bytes);
    assert_eq!(PropertyValue::Vec4(p).get_value_slot(), 0x3F00_0000);
}

#[test]
fn pfloat_value_round_trip() {
    let mut pf = PFloat::new(2, 0.75f32.to_bits());
    assert_eq!(f32::from_bits(pf.get_value_bits()), 0.75);
    pf.set_value_bits(2.5f32.to_bits());
    assert_eq!(f32::from_bits(pf.value_bits), 2.5);
}

#[test]
fn property_value_set_state_keeps_value() {
    let mut v = PEnum::create_attach_ctrl(1, 5);
    v.set_state(3);
    assert_eq!(v.get_state(), 3);
    assert_eq!(v.get_value_slot(), 5);
    let mut b = PBool::create_attach_ctrl(2, true);
    b.set_state(0);
    assert_eq!(b.get_state(), 0);
    assert_eq!(b.get_value_slot(), 1);
}

#[test]
fn pvec4_from_f32x4_round_trip() {
    let half = 0.5f32.to_bits();
    let p = PVec4::from_u32x4(2, [half; 4]);
    let v = p.as_u32x4();
    assert_eq!(v.map(f32::from_bits), [0.5, 0.5, 0.5, 0.5]);
    let p0 = PVec4::from_u32x4(2, [0.0f32.to_bits(); 4]);
    assert_eq!(p0.as_u32x4().map(f32::from_bits), [0.0, 0.0, 0.0, 0.0]);
    assert_eq!(p0.value, [0u8; 16]);
}

#[test]
fn pvec4_movi_4s_pattern_matches_raw() {
    let p = PVec4::from_u32x4(2, [0.5f32.to_bits(); 4]);
    for lane in 0..4 {
        assert_eq!(p.value[lane * 4], 0x00);
        assert_eq!(p.value[lane * 4 + 1], 0x00);
        assert_eq!(p.value[lane * 4 + 2], 0x00);
        assert_eq!(p.value[lane * 4 + 3], 0x3F);
    }
}

#[test]
fn pvec4_words_are_little_endian() {
    let p = PVec4::from_u32x4(1, [0x0403_0201, 0, 0xFFFF_FFFF, 0x8000_0000]);
    assert_eq!(&p.value[0..4], &[1, 2, 3, 4]);
    assert_eq!(p.as_u32x4(), [0x0403_0201, 0, 0xFFFF_FFFF, 0x8000_0000]);
}
