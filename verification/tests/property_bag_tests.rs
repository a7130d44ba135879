use lib::color::Color;
use lib::property::{PColor, PEnum, PFloat, PropertyValue};
use lib::property_bag::{PropertyBag, PropertyBagImpl};
use lib::property_key::PropertyKey;
use lib::state;
use lib::string_w::CHncStringW;

fn enum_value(v: &PropertyValue) -> u32 {
    match v {
        PropertyValue::Enum(e) => e.value,
        _ => panic!("expected an enumeration property"),
    }
}

#[test]
fn impl_default_state_is_empty() {
    let i = PropertyBagImpl::new_boxed(false);
    assert!(i.is_empty());
    assert_eq!(i.size(), 0);
}

#[test]
fn impl_merged_flag_inverted_per_raw() {
    let i_merged = PropertyBagImpl::new_boxed(true);
    assert_eq!(i_merged.merged_flag_raw(), 0);
    assert!(i_merged.is_merged());
    let i_not = PropertyBagImpl::new_boxed(false);
    assert_eq!(i_not.merged_flag_raw(), 1);
    assert!(!i_not.is_merged());
}

#[test]
fn impl_set_merged_toggles_flag() {
    let mut i = PropertyBagImpl::new_boxed(false);
    assert_eq!(i.merged_flag_raw(), 1);
    i.set_merged(true);
    assert_eq!(i.merged_flag_raw(), 0);
    assert!(i.is_merged());
    i.set_merged(false);
    assert_eq!(i.merged_flag_raw(), 1);
    assert!(!i.is_merged());
}

#[test]
fn impl_clear_on_empty_no_panic() {
    let mut i = PropertyBagImpl::new_boxed(false);
    i.clear();
    assert!(i.is_empty());
}

#[test]
fn bag_raw_layout_size_align() {
    assert_eq!(std::mem::size_of::<PropertyBag>(), 8);
    assert_eq!(std::mem::align_of::<PropertyBag>(), 8);
}

#[test]
fn bag_new_creates_ctrl_with_refcount_1() {
    let bag = PropertyBag::new(false);
    assert!(bag.ctrl.is_some());
    assert_eq!(bag.refcount(), 1);
    assert!(bag.is_empty());
}

#[test]
fn bag_new_merged_flag_passes_to_impl() {
    let bag_m = PropertyBag::new(true);
    assert!(bag_m.impl_ref().unwrap().is_merged());
    let bag_n = PropertyBag::new(false);
    assert!(!bag_n.impl_ref().unwrap().is_merged());
}

#[test]
fn bag_set_merged_forwards_to_impl() {
    let mut bag = PropertyBag::new(false);
    bag.set_merged(true);
    assert!(bag.impl_ref().unwrap().is_merged());
}

#[test]
fn bag_clear_on_empty_no_panic() {
    let mut bag = PropertyBag::new(false);
    bag.clear();
    assert!(bag.is_empty());
}

#[test]
fn bag_drop_releases_ctrl_and_impl() {
    for _ in 0..200 {
        let bag = PropertyBag::new(false);
        drop(bag);
    }
}

#[test]
fn bag_is_empty_when_ctrl_null() {
    let bag = PropertyBag { ctrl: None };
    assert!(bag.is_empty());
}

#[test]
fn contains_empty_returns_false() {
    let i = PropertyBagImpl::new_boxed(false);
    let k = PropertyKey::from_int(0x259);
    assert!(!i.contains(&k));
}

#[test]
fn get_state_empty_returns_zero() {
    let i = PropertyBagImpl::new_boxed(false);
    let k = PropertyKey::from_int(0x259);
    assert_eq!(i.get_state(&k), 0);
}

#[test]
fn find_equal_empty_returns_end() {
    let i = PropertyBagImpl::new_boxed(false);
    assert!(i.find_equal(&PropertyKey::from_int(7)).is_none());
}

#[test]
fn find_equal_single_node_root() {
    let mut i = PropertyBagImpl::new_boxed(false);
    i.attach(&PropertyKey::from_int(100), PEnum::create_attach_ctrl(2, 42));
    let found = i.find_equal(&PropertyKey::from_int(100)).expect("key 100 present");
    assert_eq!(found.get_value_slot(), 42);
    assert!(i.find_equal(&PropertyKey::from_int(99)).is_none());
    assert!(i.find_equal(&PropertyKey::from_int(101)).is_none());
}

#[test]
fn bag_contains_get_state_forward_to_impl() {
    let bag = PropertyBag::new(false);
    let k = PropertyKey::from_int(0x259);
    assert!(!bag.contains(&k));
    assert_eq!(bag.get_state(&k), 0);
    assert!(!bag.is_enable(&k));
}

#[test]
fn bag_set_state_forward_no_effect_on_empty() {
    let mut bag = PropertyBag::new(false);
    let k = PropertyKey::from_int(0x259);
    bag.set_state(&k, 2);
    assert_eq!(bag.get_state(&k), 0);
}

#[test]
fn attach_single_insert_new_key() {
    let mut i = PropertyBagImpl::new_boxed(false);
    let k = PropertyKey::from_int(0x259);
    let r = i.attach(&k, PEnum::create_attach_ctrl(2, 9));
    assert!(r.is_none());
    assert_eq!(i.size(), 1);
    assert!(i.contains(&k));
    assert_eq!(i.get_state(&k), 2);
    assert!(i.is_enable(&k));
}

#[test]
fn attach_multiple_inserts_size_and_get_state() {
    let mut i = PropertyBagImpl::new_boxed(false);
    for idx in [5u32, 1, 4, 2, 3] {
        let k = PropertyKey::from_int(0x100 + idx);
        assert!(i.attach(&k, PEnum::create_attach_ctrl(idx, idx * 10)).is_none());
    }
    assert_eq!(i.size(), 5);
    for idx in 1u32..=5 {
        let k = PropertyKey::from_int(0x100 + idx);
        assert!(i.contains(&k));
        assert_eq!(i.get_state(&k), idx);
        assert_eq!(i.get_value_slot(&k), idx * 10);
    }
}

#[test]
fn attach_then_set_state_round_trip() {
    let mut i = PropertyBagImpl::new_boxed(false);
    let k = PropertyKey::from_int(0x259);
    i.attach(&k, PEnum::create_attach_ctrl(2, 0));
    assert_eq!(i.get_state(&k), 2);
    i.set_state(&k, 7);
    assert_eq!(i.get_state(&k), 7);
}

#[test]
fn attach_clear_restores_empty() {
    let mut i = PropertyBagImpl::new_boxed(false);
    for id in 0..3u32 {
        i.attach(&PropertyKey::from_int(id), PEnum::create_attach_ctrl(2, id));
    }
    assert_eq!(i.size(), 3);
    i.clear();
    assert!(i.is_empty());
    assert_eq!(i.size(), 0);
}

#[test]
fn attach_duplicate_key_replaces_and_returns_old() {
    let mut i = PropertyBagImpl::new_boxed(false);
    let k = PropertyKey::from_int(0x259);
    assert!(i.attach(&k, PEnum::create_attach_ctrl(1, 11)).is_none());
    let returned = i.attach(&k, PEnum::create_attach_ctrl(2, 22)).expect("old value");
    assert_eq!(enum_value(&returned), 11);
    assert_eq!(returned.get_state(), 1);
    assert_eq!(i.size(), 1);
    assert_eq!(i.get_state(&k), 2);
    assert_eq!(i.get_value_slot(&k), 22);
}

#[test]
fn detach_not_found_returns_null() {
    let mut i = PropertyBagImpl::new_boxed(false);
    assert!(i.detach(&PropertyKey::from_int(1)).is_none());
    assert!(i.is_empty());
}

#[test]
fn detach_single_node_empties_tree() {
    let mut i = PropertyBagImpl::new_boxed(false);
    let k = PropertyKey::from_int(0x259);
    i.attach(&k, PEnum::create_attach_ctrl(2, 3));
    assert_eq!(i.size(), 1);
    let r = i.detach(&k).expect("present");
    assert_eq!(enum_value(&r), 3);
    assert_eq!(i.size(), 0);
    assert!(i.is_empty());
    assert!(!i.contains(&k));
}

#[test]
fn detach_stress_50_keys_remove_half() {
    let mut i = PropertyBagImpl::new_boxed(false);
    for kv in 0..50u32 {
        i.attach(&PropertyKey::from_int(kv), PEnum::create_attach_ctrl(kv, kv));
    }
    assert_eq!(i.size(), 50);
    for kv in (0..50u32).step_by(2) {
        assert!(i.detach(&PropertyKey::from_int(kv)).is_some(), "key {} should be present", kv);
    }
    assert_eq!(i.size(), 25);
    for kv in 0..50u32 {
        let k = PropertyKey::from_int(kv);
        if kv % 2 == 1 {
            assert!(i.contains(&k));
            assert_eq!(i.get_state(&k), kv);
        } else {
            assert!(!i.contains(&k));
        }
    }
}

#[test]
fn string_and_int_keys_coexist() {
    let mut bag = PropertyBag::new(false);
    let ks = PropertyKey::from_string(&CHncStringW::from_str("Width"));
    let ki = PropertyKey::from_int(0x2bc);
    bag.attach(&ks, PEnum::create_attach_ctrl(2, 1));
    bag.attach(&ki, PEnum::create_attach_ctrl(3, 2));
    let ks2 = PropertyKey::from_wide_chars(&"Width".encode_utf16().collect::<Vec<u16>>());
    assert_eq!(bag.get_state(&ks2), 2);
    assert_eq!(bag.get_state(&ki), 3);
    assert!(!bag.is_enable(&ki));
    assert_eq!(bag.size(), 2);
}

#[test]
fn pcolor_attach_to_bag_e2e() {
    let mut bag = PropertyBag::new(false);
    let key = PropertyKey::from_int(0x259);
    let color = Color::from_rgb(0xAB, 0xCD, 0xEF);
    let old = bag.attach(&key, PColor::create_attach_ctrl(state::ENABLED_EXPLICIT, &color));
    assert!(old.is_none());
    assert!(bag.contains(&key));
    assert_eq!(bag.get_state(&key), state::ENABLED_EXPLICIT);
    let other = bag.detach(&key).unwrap();
    match other {
        PropertyValue::Color(pc) => {
            let rgb = pc.color.get_rgb();
            assert_eq!((rgb.r, rgb.g, rgb.b), (0xAB, 0xCD, 0xEF));
        },
        _ => panic!("expected a colour property"),
    }
}

#[test]
fn pen_thickness_e2e() {
    let mut bag = PropertyBag::new(false);
    let key = PropertyKey::from_int(0x2bc);
    let old = bag.attach(&key, PFloat::create_attach_ctrl(state::ENABLED_EXPLICIT, 1.5f32.to_bits()));
    assert!(old.is_none());
    assert_eq!(f32::from_bits(bag.get_value_slot(&key)), 1.5);
}

#[test]
fn bag_without_body_ignores_attach() {
    let mut bag = PropertyBag { ctrl: None };
    let k = PropertyKey::from_int(1);
    assert!(bag.attach(&k, PEnum::create_attach_ctrl(2, 2)).is_none());
    assert!(!bag.contains(&k));
    assert_eq!(bag.refcount(), 0);
    assert_eq!(bag.size(), 0);
}

#[test]
fn bag_eq_two_empty_bags_are_equal() {
    let a = PropertyBag::new(false);
    let b = PropertyBag::new(false);
    assert!(a.eq_op(&b));
    assert!(!a.ne_op(&b));
}

#[test]
fn bag_eq_two_null_ctrl_are_equal() {
    let a = PropertyBag { ctrl: None };
    let b = PropertyBag { ctrl: None };
    assert!(a.eq_op(&b));
}

#[test]
fn bag_eq_one_null_ctrl_one_empty_bag_is_equal() {
    let a = PropertyBag::new(false);
    let b = PropertyBag { ctrl: None };
    assert!(!a.eq_op(&b));
}

#[test]
fn bag_eq_different_merged_flag_is_not_equal() {
    let a = PropertyBag::new(false);
    let b = PropertyBag::new(true);
    assert!(!a.eq_op(&b));
}

#[test]
fn bag_ne_op_is_xor_of_eq() {
    let a = PropertyBag::new(false);
    let b = PropertyBag::new(false);
    assert_eq!(a.ne_op(&b), !a.eq_op(&b));
}

#[test]
fn bag_eq_bags_with_equal_properties_are_equal() {
    let mut a = PropertyBag::new(false);
    let mut b = PropertyBag::new(false);
    a.attach(&PropertyKey::from_int(1), PEnum::create_attach_ctrl(2, 1));
    b.attach(&PropertyKey::from_int(1), PEnum::create_attach_ctrl(2, 1));
    assert!(a.eq_op(&b));
    b.attach(&PropertyKey::from_int(2), PEnum::create_attach_ctrl(2, 1));
    assert!(!a.eq_op(&b));
}

#[test]
fn bag_swap_exchanges_bodies() {
    let mut a = PropertyBag::new(false);
    let mut b = PropertyBag::new(true);
    a.attach(&PropertyKey::from_int(9), PEnum::create_attach_ctrl(2, 1));
    a.swap(&mut b);
    assert!(a.impl_ref().unwrap().is_merged());
    assert!(a.is_empty());
    assert!(b.contains(&PropertyKey::from_int(9)));
}

#[test]
fn bag_eq_same_ctrl_ptr_is_equal() {
    let a = PropertyBag::new(false);
    assert!(a.eq_op(&a));
    let mut full = PropertyBag::new(false);
    let _ = full.attach(&PropertyKey::from_int(7), PEnum::create_attach_ctrl(state::ENABLED_EXPLICIT, 3));
    assert!(full.eq_op(&full));
    assert!(!full.ne_op(&full));
}

#[test]
fn bag_eq_compares_entries_key_by_key() {
    let mut a = PropertyBag::new(false);
    let mut b = PropertyBag::new(false);
    let _ = a.attach(&PropertyKey::from_int(7), PEnum::create_attach_ctrl(state::ENABLED_EXPLICIT, 3));
    let _ = b.attach(&PropertyKey::from_int(7), PEnum::create_attach_ctrl(state::ENABLED_DEFAULT, 3));
    assert!(a.eq_op(&b));
    let _ = b.attach(&PropertyKey::from_int(7), PEnum::create_attach_ctrl(state::ENABLED_DEFAULT, 4));
    assert!(!a.eq_op(&b));
    let mut c = PropertyBag::new(false);
    let _ = c.attach(&PropertyKey::from_int(8), PEnum::create_attach_ctrl(state::ENABLED_EXPLICIT, 3));
    assert!(!a.eq_op(&c));
}
