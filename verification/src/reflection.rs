use vstd::prelude::*;
use crate::property::{PBool, PFloat, PropertyValue};
use crate::property_bag::{PropertyBag, bag_map};
use crate::property_key::{KeyView, PropertyKey};

verus! {

/// Engine class id of a reflection effect.
pub const REFLECTION_VTABLE_RAW_ADDR: usize = 0x77c7e8;

/// Effect key under which a shape stores its reflection.
pub const REFLECTION_EFFECT_KEY: u32 = 0xbbb;

/// Bag key of the reflection distance.
pub const KEY_DISTANCE: u32 = 0x3a0;

/// Bag key of the reflection direction, in degrees.
pub const KEY_DEGREE: u32 = 0x3a1;

/// Bag key of the reflection blur radius.
pub const KEY_BLUR: u32 = 0x3a2;

/// Bag key of the opacity where the reflection starts.
pub const KEY_OPACITY_START: u32 = 0x3ac;

/// Bag key of the opacity where the reflection ends.
pub const KEY_OPACITY_END: u32 = 0x3ad;

/// Bag key of the reflection fade.
pub const KEY_FADE: u32 = 0x3ae;

/// Bag key of the reflection flip flag.
pub const KEY_FLIP: u32 = 0x3a8;

/// A reflection effect: its settings in a property bag.
#[derive(Debug)]
pub struct Reflection {
    pub vtable: usize,
    pub bag: PropertyBag,
}

/// A floating-point setting in state 1.
pub open spec fn float1(bits: u32) -> PropertyValue {
    PropertyValue::Float(PFloat { vtable: 0, state: 1, value_bits: bits })
}

/// The seven properties of a reflection built from these arguments.
pub open spec fn reflection_map(
    distance_bits: u32,
    degree_bits: u32,
    blur_bits: u32,
    opacity_start_bits: u32,
    opacity_end_bits: u32,
    fade_bits: u32,
    flip: bool,
) -> Map<KeyView, PropertyValue> {
    Map::<KeyView, PropertyValue>::empty().insert(KeyView::Int(KEY_DISTANCE), float1(distance_bits)).insert(
        KeyView::Int(KEY_DEGREE),
        float1(degree_bits),
    ).insert(KeyView::Int(KEY_BLUR), float1(blur_bits)).insert(
        KeyView::Int(KEY_OPACITY_START),
        float1(opacity_start_bits),
    ).insert(KeyView::Int(KEY_OPACITY_END), float1(opacity_end_bits)).insert(
        KeyView::Int(KEY_FADE),
        float1(fade_bits),
    ).insert(
        KeyView::Int(KEY_FLIP),
        PropertyValue::Bool(PBool { vtable: 0, state: 1, value: if flip { 1u8 } else { 0u8 } }),
    )
}

impl Reflection {
    /// A reflection whose six floating-point settings are given by the bits of their
    /// `f32` values, with flip flag `flip`; all in state 1.
    pub fn new_with_args(
        distance_bits: u32,
        degree_bits: u32,
        blur_bits: u32,
        opacity_start_bits: u32,
        opacity_end_bits: u32,
        fade_bits: u32,
        flip: bool,
    ) -> (r: Self)
        ensures
            r.vtable == REFLECTION_VTABLE_RAW_ADDR,
            r.bag.ctrl matches Some(i) && !i.merged(),
            bag_map(r.bag) == reflection_map(
                distance_bits,
                degree_bits,
                blur_bits,
                opacity_start_bits,
                opacity_end_bits,
                fade_bits,
                flip,
            ),
            bag_map(r.bag).dom().len() == 7,
            bag_map(r.bag)[KeyView::Int(KEY_DISTANCE)] == PropertyValue::Float(
                PFloat { vtable: 0, state: 1, value_bits: distance_bits },
            ),
            bag_map(r.bag)[KeyView::Int(KEY_DEGREE)] == PropertyValue::Float(
                PFloat { vtable: 0, state: 1, value_bits: degree_bits },
            ),
            bag_map(r.bag)[KeyView::Int(KEY_BLUR)] == PropertyValue::Float(
                PFloat { vtable: 0, state: 1, value_bits: blur_bits },
            ),
            bag_map(r.bag)[KeyView::Int(KEY_OPACITY_START)] == PropertyValue::Float(
                PFloat { vtable: 0, state: 1, value_bits: opacity_start_bits },
            ),
            bag_map(r.bag)[KeyView::Int(KEY_OPACITY_END)] == PropertyValue::Float(
                PFloat { vtable: 0, state: 1, value_bits: opacity_end_bits },
            ),
            bag_map(r.bag)[KeyView::Int(KEY_FADE)] == PropertyValue::Float(
                PFloat { vtable: 0, state: 1, value_bits: fade_bits },
            ),
    {
        let mut r = Reflection { vtable: REFLECTION_VTABLE_RAW_ADDR, bag: PropertyBag::new(false) };
        let s1 = crate::state::ENABLED_DEFAULT;
        let _ = r.bag.attach(&PropertyKey::from_int(KEY_DISTANCE), PFloat::create_attach_ctrl(s1, distance_bits));
        let _ = r.bag.attach(&PropertyKey::from_int(KEY_DEGREE), PFloat::create_attach_ctrl(s1, degree_bits));
        let _ = r.bag.attach(&PropertyKey::from_int(KEY_BLUR), PFloat::create_attach_ctrl(s1, blur_bits));
        let _ = r.bag.attach(
            &PropertyKey::from_int(KEY_OPACITY_START),
            PFloat::create_attach_ctrl(s1, opacity_start_bits),
        );
        let _ = r.bag.attach(
            &PropertyKey::from_int(KEY_OPACITY_END),
            PFloat::create_attach_ctrl(s1, opacity_end_bits),
        );
        let _ = r.bag.attach(&PropertyKey::from_int(KEY_FADE), PFloat::create_attach_ctrl(s1, fade_bits));
        let _ = r.bag.attach(&PropertyKey::from_int(KEY_FLIP), PBool::create_attach_ctrl(s1, flip));
        proof {
            let m = bag_map(r.bag);
            assert(m =~= reflection_map(
                distance_bits,
                degree_bits,
                blur_bits,
                opacity_start_bits,
                opacity_end_bits,
                fade_bits,
                flip,
            ));
            assert(m.dom() =~= set![
                KeyView::Int(KEY_DISTANCE),
                KeyView::Int(KEY_DEGREE),
                KeyView::Int(KEY_BLUR),
                KeyView::Int(KEY_OPACITY_START),
                KeyView::Int(KEY_OPACITY_END),
                KeyView::Int(KEY_FADE),
                KeyView::Int(KEY_FLIP)
            ]);
        }
        r
    }

    /// The effect key of a reflection.
    pub fn effect_key(&self) -> (k: u32)
        ensures
            k == REFLECTION_EFFECT_KEY,
    {
        REFLECTION_EFFECT_KEY
    }

    /// Number of properties in the bag.
    pub fn bag_size(&self) -> (n: u64)
        ensures
            n == bag_map(self.bag).dom().len(),
    {
        self.bag.size() as u64
    }
}

/// Each argument of a reflection lands under its own key, as a state-1 property
/// holding exactly that argument, and changing one argument changes that key's
/// property only.
pub proof fn law_reflection_keys_hold_their_arguments(
    distance_bits: u32,
    degree_bits: u32,
    blur_bits: u32,
    opacity_start_bits: u32,
    opacity_end_bits: u32,
    fade_bits: u32,
    flip: bool,
    other_bits: u32,
)
    ensures
        reflection_map(distance_bits, degree_bits, blur_bits, opacity_start_bits, opacity_end_bits, fade_bits, flip)[KeyView::Int(KEY_DISTANCE)] == PropertyValue::Float(PFloat { vtable: 0, state: 1, value_bits: distance_bits }),
        reflection_map(distance_bits, degree_bits, blur_bits, opacity_start_bits, opacity_end_bits, fade_bits, flip)[KeyView::Int(KEY_DEGREE)] == PropertyValue::Float(PFloat { vtable: 0, state: 1, value_bits: degree_bits }),
        reflection_map(distance_bits, degree_bits, blur_bits, opacity_start_bits, opacity_end_bits, fade_bits, flip)[KeyView::Int(KEY_BLUR)] == PropertyValue::Float(PFloat { vtable: 0, state: 1, value_bits: blur_bits }),
        reflection_map(distance_bits, degree_bits, blur_bits, opacity_start_bits, opacity_end_bits, fade_bits, flip)[KeyView::Int(KEY_OPACITY_START)] == PropertyValue::Float(PFloat { vtable: 0, state: 1, value_bits: opacity_start_bits }),
        reflection_map(distance_bits, degree_bits, blur_bits, opacity_start_bits, opacity_end_bits, fade_bits, flip)[KeyView::Int(KEY_OPACITY_END)] == PropertyValue::Float(PFloat { vtable: 0, state: 1, value_bits: opacity_end_bits }),
        reflection_map(distance_bits, degree_bits, blur_bits, opacity_start_bits, opacity_end_bits, fade_bits, flip)[KeyView::Int(KEY_FADE)] == PropertyValue::Float(PFloat { vtable: 0, state: 1, value_bits: fade_bits }),
        reflection_map(distance_bits, degree_bits, blur_bits, opacity_start_bits, opacity_end_bits, fade_bits, flip)[KeyView::Int(KEY_FLIP)] == PropertyValue::Bool(PBool { vtable: 0, state: 1, value: if flip { 1u8 } else { 0u8 } }),
        reflection_map(other_bits, degree_bits, blur_bits, opacity_start_bits, opacity_end_bits, fade_bits, flip).remove(KeyView::Int(KEY_DISTANCE)) == reflection_map(distance_bits, degree_bits, blur_bits, opacity_start_bits, opacity_end_bits, fade_bits, flip).remove(KeyView::Int(KEY_DISTANCE)),
        reflection_map(distance_bits, other_bits, blur_bits, opacity_start_bits, opacity_end_bits, fade_bits, flip).remove(KeyView::Int(KEY_DEGREE)) == reflection_map(distance_bits, degree_bits, blur_bits, opacity_start_bits, opacity_end_bits, fade_bits, flip).remove(KeyView::Int(KEY_DEGREE)),
        reflection_map(distance_bits, degree_bits, other_bits, opacity_start_bits, opacity_end_bits, fade_bits, flip).remove(KeyView::Int(KEY_BLUR)) == reflection_map(distance_bits, degree_bits, blur_bits, opacity_start_bits, opacity_end_bits, fade_bits, flip).remove(KeyView::Int(KEY_BLUR)),
        reflection_map(distance_bits, degree_bits, blur_bits, other_bits, opacity_end_bits, fade_bits, flip).remove(KeyView::Int(KEY_OPACITY_START)) == reflection_map(distance_bits, degree_bits, blur_bits, opacity_start_bits, opacity_end_bits, fade_bits, flip).remove(KeyView::Int(KEY_OPACITY_START)),
        reflection_map(distance_bits, degree_bits, blur_bits, opacity_start_bits, other_bits, fade_bits, flip).remove(KeyView::Int(KEY_OPACITY_END)) == reflection_map(distance_bits, degree_bits, blur_bits, opacity_start_bits, opacity_end_bits, fade_bits, flip).remove(KeyView::Int(KEY_OPACITY_END)),
        reflection_map(distance_bits, degree_bits, blur_bits, opacity_start_bits, opacity_end_bits, other_bits, flip).remove(KeyView::Int(KEY_FADE)) == reflection_map(distance_bits, degree_bits, blur_bits, opacity_start_bits, opacity_end_bits, fade_bits, flip).remove(KeyView::Int(KEY_FADE)),
{
    assert(reflection_map(other_bits, degree_bits, blur_bits, opacity_start_bits, opacity_end_bits, fade_bits, flip).remove(KeyView::Int(KEY_DISTANCE)) =~= reflection_map(distance_bits, degree_bits, blur_bits, opacity_start_bits, opacity_end_bits, fade_bits, flip).remove(KeyView::Int(KEY_DISTANCE)));
    assert(reflection_map(distance_bits, other_bits, blur_bits, opacity_start_bits, opacity_end_bits, fade_bits, flip).remove(KeyView::Int(KEY_DEGREE)) =~= reflection_map(distance_bits, degree_bits, blur_bits, opacity_start_bits, opacity_end_bits, fade_bits, flip).remove(KeyView::Int(KEY_DEGREE)));
    assert(reflection_map(distance_bits, degree_bits, other_bits, opacity_start_bits, opacity_end_bits, fade_bits, flip).remove(KeyView::Int(KEY_BLUR)) =~= reflection_map(distance_bits, degree_bits, blur_bits, opacity_start_bits, opacity_end_bits, fade_bits, flip).remove(KeyView::Int(KEY_BLUR)));
    assert(reflection_map(distance_bits, degree_bits, blur_bits, other_bits, opacity_end_bits, fade_bits, flip).remove(KeyView::Int(KEY_OPACITY_START)) =~= reflection_map(distance_bits, degree_bits, blur_bits, opacity_start_bits, opacity_end_bits, fade_bits, flip).remove(KeyView::Int(KEY_OPACITY_START)));
    assert(reflection_map(distance_bits, degree_bits, blur_bits, opacity_start_bits, other_bits, fade_bits, flip).remove(KeyView::Int(KEY_OPACITY_END)) =~= reflection_map(distance_bits, degree_bits, blur_bits, opacity_start_bits, opacity_end_bits, fade_bits, flip).remove(KeyView::Int(KEY_OPACITY_END)));
    assert(reflection_map(distance_bits, degree_bits, blur_bits, opacity_start_bits, opacity_end_bits, other_bits, flip).remove(KeyView::Int(KEY_FADE)) =~= reflection_map(distance_bits, degree_bits, blur_bits, opacity_start_bits, opacity_end_bits, fade_bits, flip).remove(KeyView::Int(KEY_FADE)));
}

} // verus!
