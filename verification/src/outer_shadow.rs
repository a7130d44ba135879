use vstd::prelude::*;
use crate::color::Color;
use crate::property::{PBool, PColor, PEnum, PFloat, Property, PropertyValue};
use crate::property_bag::{PropertyBag, bag_map};
use crate::property_key::{KeyView, PropertyKey};

verus! {

/// Engine class id of an outer shadow effect.
pub const OUTER_SHADOW_VTABLE_RAW_ADDR: usize = 0x77c908;

/// Effect key under which a shape stores its outer shadow.
pub const OUTER_SHADOW_EFFECT_KEY: u32 = 0xbba;

/// Bag key of the shadow colour.
pub const KEY_COLOR: u32 = 0x39e;

/// Bag key of the shadow distance.
pub const KEY_DISTANCE: u32 = 0x3a0;

/// Bag key of the shadow direction, in degrees.
pub const KEY_DEGREE: u32 = 0x3a1;

/// Bag key of the shadow blur radius.
pub const KEY_BLUR: u32 = 0x3a2;

/// Bag key of the shadow flip flag.
pub const KEY_FLIP: u32 = 0x3a8;

/// Bag key of the enumeration every outer shadow carries with value 7.
pub const KEY_DEFAULT_ENUM: u32 = 0x3a3;

/// An outer shadow effect: its settings in a property bag.
#[derive(Debug)]
pub struct OuterShadow {
    pub vtable: usize,
    pub bag: PropertyBag,
}

/// The six properties of an outer shadow built from these arguments.
pub open spec fn outer_shadow_map(
    color: Color,
    distance_bits: u32,
    degree_bits: u32,
    blur_bits: u32,
    flip: bool,
) -> Map<KeyView, PropertyValue> {
    Map::<KeyView, PropertyValue>::empty().insert(
        KeyView::Int(KEY_COLOR),
        PropertyValue::Color(PColor { base: Property { vtable: 0, state: 1, _pad: 0 }, color }),
    ).insert(KeyView::Int(KEY_DISTANCE), PropertyValue::Float(PFloat { vtable: 0, state: 1, value_bits: distance_bits })).insert(
        KeyView::Int(KEY_DEGREE),
        PropertyValue::Float(PFloat { vtable: 0, state: 1, value_bits: degree_bits }),
    ).insert(KeyView::Int(KEY_BLUR), PropertyValue::Float(PFloat { vtable: 0, state: 1, value_bits: blur_bits })).insert(
        KeyView::Int(KEY_FLIP),
        PropertyValue::Bool(PBool { vtable: 0, state: 1, value: if flip { 1u8 } else { 0u8 } }),
    ).insert(KeyView::Int(KEY_DEFAULT_ENUM), PropertyValue::Enum(PEnum { vtable: 0, state: 2, value: 7 }))
}

impl OuterShadow {
    /// An outer shadow of colour `color`, distance, direction and blur given by the bits
    /// of their `f32` values, and flip flag `flip`; all in state 1, plus the enumeration
    /// under `KEY_DEFAULT_ENUM` with value 7 in state 2.
    pub fn new_with_args(
        color: &Color,
        distance_bits: u32,
        degree_bits: u32,
        blur_bits: u32,
        flip: bool,
    ) -> (s: Self)
        ensures
            s.vtable == OUTER_SHADOW_VTABLE_RAW_ADDR,
            s.bag.ctrl matches Some(i) && !i.merged(),
            bag_map(s.bag) == outer_shadow_map(*color, distance_bits, degree_bits, blur_bits, flip),
            bag_map(s.bag).dom().len() == 6,
            bag_map(s.bag)[KeyView::Int(KEY_DISTANCE)] == PropertyValue::Float(
                PFloat { vtable: 0, state: 1, value_bits: distance_bits },
            ),
            bag_map(s.bag)[KeyView::Int(KEY_DEGREE)] == PropertyValue::Float(
                PFloat { vtable: 0, state: 1, value_bits: degree_bits },
            ),
            bag_map(s.bag)[KeyView::Int(KEY_BLUR)] == PropertyValue::Float(
                PFloat { vtable: 0, state: 1, value_bits: blur_bits },
            ),
    {
        let mut shadow = OuterShadow { vtable: OUTER_SHADOW_VTABLE_RAW_ADDR, bag: PropertyBag::new(false) };
        let s1 = crate::state::ENABLED_DEFAULT;
        let _ = shadow.bag.attach(&PropertyKey::from_int(KEY_COLOR), PColor::create_attach_ctrl(s1, color));
        let _ = shadow.bag.attach(&PropertyKey::from_int(KEY_DISTANCE), PFloat::create_attach_ctrl(s1, distance_bits));
        let _ = shadow.bag.attach(&PropertyKey::from_int(KEY_DEGREE), PFloat::create_attach_ctrl(s1, degree_bits));
        let _ = shadow.bag.attach(&PropertyKey::from_int(KEY_BLUR), PFloat::create_attach_ctrl(s1, blur_bits));
        let _ = shadow.bag.attach(&PropertyKey::from_int(KEY_FLIP), PBool::create_attach_ctrl(s1, flip));
        let _ = shadow.bag.attach(
            &PropertyKey::from_int(KEY_DEFAULT_ENUM),
            PEnum::create_attach_ctrl(crate::state::ENABLED_EXPLICIT, 7),
        );
        proof {
            let m = bag_map(shadow.bag);
            assert(m =~= outer_shadow_map(*color, distance_bits, degree_bits, blur_bits, flip));
            assert(m.dom() =~= set![
                KeyView::Int(KEY_COLOR),
                KeyView::Int(KEY_DISTANCE),
                KeyView::Int(KEY_DEGREE),
                KeyView::Int(KEY_BLUR),
                KeyView::Int(KEY_FLIP),
                KeyView::Int(KEY_DEFAULT_ENUM)
            ]);
        }
        shadow
    }

    /// The effect key of an outer shadow.
    pub fn effect_key(&self) -> (k: u32)
        ensures
            k == OUTER_SHADOW_EFFECT_KEY,
    {
        OUTER_SHADOW_EFFECT_KEY
    }

    /// Number of properties in the bag.
    pub fn bag_size(&self) -> (n: u64)
        ensures
            n == bag_map(self.bag).dom().len(),
    {
        self.bag.size() as u64
    }
}

/// Each argument of an outer shadow lands under its own key, as a state-1 property
/// holding exactly that argument (the colour under `KEY_COLOR`, distance, direction and
/// blur bits under `KEY_DISTANCE`, `KEY_DEGREE` and `KEY_BLUR`, the flag under
/// `KEY_FLIP`), and changing one argument changes that key's property only.
pub proof fn law_outer_shadow_keys_hold_their_arguments(
    color: Color,
    distance_bits: u32,
    degree_bits: u32,
    blur_bits: u32,
    flip: bool,
    other_bits: u32,
)
    ensures
        outer_shadow_map(color, distance_bits, degree_bits, blur_bits, flip)[KeyView::Int(KEY_COLOR)]
            == PropertyValue::Color(PColor { base: Property { vtable: 0, state: 1, _pad: 0 }, color }),
        outer_shadow_map(color, distance_bits, degree_bits, blur_bits, flip)[KeyView::Int(KEY_DISTANCE)]
            == PropertyValue::Float(PFloat { vtable: 0, state: 1, value_bits: distance_bits }),
        outer_shadow_map(color, distance_bits, degree_bits, blur_bits, flip)[KeyView::Int(KEY_DEGREE)]
            == PropertyValue::Float(PFloat { vtable: 0, state: 1, value_bits: degree_bits }),
        outer_shadow_map(color, distance_bits, degree_bits, blur_bits, flip)[KeyView::Int(KEY_BLUR)]
            == PropertyValue::Float(PFloat { vtable: 0, state: 1, value_bits: blur_bits }),
        outer_shadow_map(color, distance_bits, degree_bits, blur_bits, flip)[KeyView::Int(KEY_FLIP)]
            == PropertyValue::Bool(PBool { vtable: 0, state: 1, value: if flip { 1u8 } else { 0u8 } }),
        outer_shadow_map(color, distance_bits, other_bits, blur_bits, flip).remove(KeyView::Int(KEY_DEGREE))
            == outer_shadow_map(color, distance_bits, degree_bits, blur_bits, flip).remove(KeyView::Int(KEY_DEGREE)),
        outer_shadow_map(color, distance_bits, degree_bits, other_bits, flip).remove(KeyView::Int(KEY_BLUR))
            == outer_shadow_map(color, distance_bits, degree_bits, blur_bits, flip).remove(KeyView::Int(KEY_BLUR)),
        outer_shadow_map(color, other_bits, degree_bits, blur_bits, flip).remove(KeyView::Int(KEY_DISTANCE))
            == outer_shadow_map(color, distance_bits, degree_bits, blur_bits, flip).remove(KeyView::Int(KEY_DISTANCE)),
{
    let m = outer_shadow_map(color, distance_bits, degree_bits, blur_bits, flip);
    assert(outer_shadow_map(color, distance_bits, other_bits, blur_bits, flip).remove(KeyView::Int(KEY_DEGREE))
        =~= m.remove(KeyView::Int(KEY_DEGREE)));
    assert(outer_shadow_map(color, distance_bits, degree_bits, other_bits, flip).remove(KeyView::Int(KEY_BLUR))
        =~= m.remove(KeyView::Int(KEY_BLUR)));
    assert(outer_shadow_map(color, other_bits, degree_bits, blur_bits, flip).remove(KeyView::Int(KEY_DISTANCE))
        =~= m.remove(KeyView::Int(KEY_DISTANCE)));
}

} // verus!
