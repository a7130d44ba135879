use vstd::prelude::*;
use crate::color::{Color, same_color, color_before, le_u32, le_u32_of, u32_le_bytes};

verus! {

/// Property equality on states: equal states, and the two enabled states 1 and 2
/// taken as one.
pub open spec fn state_eq(a: u32, b: u32) -> bool {
    a == b || (a == 1 && b == 2) || (a == 2 && b == 1)
}

/// A state counts as enabled unless it is the default (0) or disabled (3).
pub open spec fn state_enabled(s: u32) -> bool {
    s != crate::state::DEFAULT && s != crate::state::DISABLED
}

/// Common part of every property: its state.
///
/// `vtable` names the engine class of the object; properties built here leave it 0.
#[derive(Clone, Copy, Debug)]
pub struct Property {
    pub vtable: usize,
    pub state: u32,
    pub _pad: u32,
}

impl Property {
    /// A property in state `state`.
    pub fn new(state: u32) -> (p: Self)
        ensures
            p.state == state,
            p.vtable == 0,
            p._pad == 0,
    {
        Property { vtable: 0, state, _pad: 0 }
    }

    /// The state.
    pub fn get_state(&self) -> (s: u32)
        ensures
            s == self.state,
    {
        self.state
    }

    /// Replaces the state; nothing else changes.
    pub fn set_state(&mut self, new_state: u32)
        ensures
            final(self).state == new_state,
            final(self).vtable == old(self).vtable,
            final(self)._pad == old(self)._pad,
    {
        self.state = new_state;
    }

    /// Whether the state is neither default (0) nor disabled (3).
    pub fn is_enable(&self) -> (r: bool)
        ensures
            r == state_enabled(self.state),
    {
        self.state != crate::state::DEFAULT && self.state != crate::state::DISABLED
    }

    /// Property equality: equal states, 1 and 2 counting as equal.
    pub fn eq_op(&self, other: &Property) -> (r: bool)
        ensures
            r == state_eq(self.state, other.state),
    {
        let a = self.state;
        let b = other.state;
        if a == 1 && b == 2 {
            return true;
        }
        if a == 2 && b == 1 {
            return true;
        }
        a == b
    }

    /// Property order: by state.
    pub fn lt_op(&self, other: &Property) -> (r: bool)
        ensures
            r == (self.state < other.state),
    {
        self.state < other.state
    }
}

/// A colour property.
#[derive(Clone, Copy, Debug)]
pub struct PColor {
    pub base: Property,
    pub color: Color,
}

impl PColor {
    /// A colour property in state `state` holding a copy of `src`.
    pub fn new(state: u32, src: &Color) -> (p: Self)
        ensures
            p.base.state == state,
            p.base.vtable == 0,
            p.base._pad == 0,
            p.color == *src,
    {
        PColor { base: Property::new(state), color: *src }
    }

    /// The same as `new`, on the heap.
    pub fn create_raw(state: u32, src: &Color) -> (p: Box<PColor>)
        ensures
            p.base.state == state,
            p.base._pad == 0,
            p.color == *src,
    {
        Box::new(Self::new(state, src))
    }

    /// The colour, ready to be attached to a property bag.
    pub fn create_attach_ctrl(state: u32, color: &Color) -> (v: PropertyValue)
        ensures
            v == PropertyValue::Color(
                PColor { base: Property { vtable: 0, state, _pad: 0 }, color: *color },
            ),
    {
        PropertyValue::Color(Self::new(state, color))
    }

    /// The colour.
    pub fn color(&self) -> (c: &Color)
        ensures
            *c == self.color,
    {
        &self.color
    }

    /// The state.
    pub fn get_state(&self) -> (s: u32)
        ensures
            s == self.base.state,
    {
        self.base.get_state()
    }

    /// Replaces the state; the colour is unchanged.
    pub fn set_state(&mut self, s: u32)
        ensures
            final(self).base.state == s,
            final(self).base.vtable == old(self).base.vtable,
            final(self).base._pad == old(self).base._pad,
            final(self).color == old(self).color,
    {
        self.base.set_state(s);
    }

    /// Equal states (1 and 2 counting as equal) and equal colours.
    pub fn eq_op(&self, other: &PColor) -> (r: bool)
        ensures
            r == (state_eq(self.base.state, other.base.state) && same_color(
                self.color,
                other.color,
            )),
    {
        if !self.base.eq_op(&other.base) {
            return false;
        }
        self.color.eq_struct(&other.color)
    }

    /// Order by state, then by colour.
    pub fn lt_op(&self, other: &PColor) -> (r: bool)
        ensures
            r == (self.base.state < other.base.state || (self.base.state == other.base.state
                && color_before(self.color, other.color))),
    {
        if self.base.state != other.base.state {
            return self.base.lt_op(&other.base);
        }
        self.color.lt_struct(&other.color)
    }

    /// An independent copy on the heap.
    pub fn clone_to_heap(&self) -> (p: Box<PColor>)
        ensures
            p.base.state == self.base.state,
            p.base._pad == 0,
            p.color == self.color,
    {
        Box::new(PColor { base: Property::new(self.base.state), color: self.color })
    }
}

/// An enumeration-valued property.
#[derive(Clone, Copy, Debug)]
pub struct PEnum {
    pub vtable: usize,
    pub state: u32,
    pub value: u32,
}

impl PEnum {
    /// An enumeration property in state `state` with value `value`.
    pub fn new(state: u32, value: u32) -> (p: Self)
        ensures
            p.state == state,
            p.value == value,
            p.vtable == 0,
    {
        PEnum { vtable: 0, state, value }
    }

    /// The same as `new`, on the heap.
    pub fn create_raw(state: u32, value: u32) -> (p: Box<PEnum>)
        ensures
            p.state == state,
            p.value == value,
            p.vtable == 0,
    {
        Box::new(Self::new(state, value))
    }

    /// The property, ready to be attached to a property bag.
    pub fn create_attach_ctrl(state: u32, value: u32) -> (v: PropertyValue)
        ensures
            v == PropertyValue::Enum(PEnum { vtable: 0, state, value }),
    {
        PropertyValue::Enum(Self::new(state, value))
    }

    /// The state.
    pub fn get_state(&self) -> (s: u32)
        ensures
            s == self.state,
    {
        self.state
    }

    /// The value.
    pub fn get_value(&self) -> (v: u32)
        ensures
            v == self.value,
    {
        self.value
    }

    /// Replaces the state only.
    pub fn set_state(&mut self, s: u32)
        ensures
            *final(self) == (PEnum { state: s, ..*old(self) }),
    {
        self.state = s;
    }

    /// Replaces the value only.
    pub fn set_value(&mut self, v: u32)
        ensures
            *final(self) == (PEnum { value: v, ..*old(self) }),
    {
        self.value = v;
    }

    /// An independent copy on the heap.
    pub fn clone_to_heap(&self) -> (p: Box<PEnum>)
        ensures
            *p == (PEnum { vtable: 0, ..*self }),
    {
        Box::new(PEnum { vtable: 0, state: self.state, value: self.value })
    }
}

/// A floating-point property, holding the IEEE-754 bits of its `f32` value.
#[derive(Clone, Copy, Debug)]
pub struct PFloat {
    pub vtable: usize,
    pub state: u32,
    pub value_bits: u32,
}

impl PFloat {
    /// A floating-point property in state `state` whose value has the bits `value_bits`.
    pub fn new(state: u32, value_bits: u32) -> (p: Self)
        ensures
            p == (PFloat { vtable: 0, state, value_bits }),
    {
        PFloat { vtable: 0, state, value_bits }
    }

    /// The property, ready to be attached to a property bag.
    pub fn create_attach_ctrl(state: u32, value_bits: u32) -> (v: PropertyValue)
        ensures
            v == PropertyValue::Float(PFloat { vtable: 0, state, value_bits }),
    {
        PropertyValue::Float(Self::new(state, value_bits))
    }

    /// The state.
    pub fn get_state(&self) -> (s: u32)
        ensures
            s == self.state,
    {
        self.state
    }

    /// The bits of the value.
    pub fn get_value_bits(&self) -> (v: u32)
        ensures
            v == self.value_bits,
    {
        self.value_bits
    }

    /// Replaces the value only.
    pub fn set_value_bits(&mut self, v: u32)
        ensures
            *final(self) == (PFloat { value_bits: v, ..*old(self) }),
    {
        self.value_bits = v;
    }
}

/// A boolean property; the value is stored as one byte, 1 for true and 0 for false.
#[derive(Clone, Copy, Debug)]
pub struct PBool {
    pub vtable: usize,
    pub state: u32,
    pub value: u8,
}

impl PBool {
    /// A boolean property in state `state` with value `value`.
    pub fn new(state: u32, value: bool) -> (p: Self)
        ensures
            p.vtable == 0,
            p.state == state,
            p.value == (if value { 1u8 } else { 0u8 }),
    {
        PBool { vtable: 0, state, value: if value { 1 } else { 0 } }
    }

    /// The same as `new`, on the heap.
    pub fn create_raw(state: u32, value: bool) -> (p: Box<PBool>)
        ensures
            p.vtable == 0,
            p.state == state,
            p.value == (if value { 1u8 } else { 0u8 }),
    {
        Box::new(Self::new(state, value))
    }

    /// The property, ready to be attached to a property bag.
    pub fn create_attach_ctrl(state: u32, value: bool) -> (v: PropertyValue)
        ensures
            v == PropertyValue::Bool(
                PBool { vtable: 0, state, value: if value { 1u8 } else { 0u8 } },
            ),
    {
        PropertyValue::Bool(Self::new(state, value))
    }

    /// The value: true unless the stored byte is 0.
    pub fn get_value(&self) -> (r: bool)
        ensures
            r == (self.value != 0),
    {
        self.value != 0
    }

    /// Replaces the value only.
    pub fn set_value(&mut self, v: bool)
        ensures
            *final(self) == (PBool { value: if v { 1u8 } else { 0u8 }, ..*old(self) }),
    {
        self.value = if v { 1 } else { 0 };
    }
}

/// A property holding a 16-byte value (four `f32`, four `i32`, a rectangle, ...).
#[derive(Clone, Copy, Debug)]
pub struct PVec4 {
    pub vtable: usize,
    pub state: u32,
    pub value: [u8; 16],
}

impl PVec4 {
    /// A 16-byte property in state `state` with value `value`.
    pub fn new(state: u32, value: [u8; 16]) -> (p: Self)
        ensures
            p == (PVec4 { vtable: 0, state, value }),
    {
        PVec4 { vtable: 0, state, value }
    }

    /// The same as `new`, on the heap.
    pub fn create_raw(state: u32, value: [u8; 16]) -> (p: Box<PVec4>)
        ensures
            *p == (PVec4 { vtable: 0, state, value }),
    {
        Box::new(Self::new(state, value))
    }

    /// A 16-byte property holding four 32-bit words (such as the bits of four `f32`
    /// values), each stored least significant byte first.
    pub fn from_u32x4(state: u32, v: [u32; 4]) -> (p: Self)
        ensures
            p.vtable == 0,
            p.state == state,
            forall|i: int| 0 <= i < 4 ==> le_u32(
                #[trigger] p.value[4 * i],
                p.value[4 * i + 1],
                p.value[4 * i + 2],
                p.value[4 * i + 3],
            ) == v[i],
    {
        let b0 = u32_le_bytes(v[0]);
        let b1 = u32_le_bytes(v[1]);
        let b2 = u32_le_bytes(v[2]);
        let b3 = u32_le_bytes(v[3]);
        let value: [u8; 16] = [
            b0[0], b0[1], b0[2], b0[3],
            b1[0], b1[1], b1[2], b1[3],
            b2[0], b2[1], b2[2], b2[3],
            b3[0], b3[1], b3[2], b3[3],
        ];
        let p = Self::new(state, value);
        assert forall|i: int| 0 <= i < 4 implies le_u32(
            #[trigger] p.value[4 * i],
            p.value[4 * i + 1],
            p.value[4 * i + 2],
            p.value[4 * i + 3],
        ) == v[i] by {
            if i == 0 {
            } else if i == 1 {
            } else if i == 2 {
            } else {
            }
        }
        p
    }

    /// The four 32-bit words of the value, each read least significant byte first.
    pub fn as_u32x4(&self) -> (r: [u32; 4])
        ensures
            forall|i: int| 0 <= i < 4 ==> #[trigger] r[i] == le_u32(
                self.value[4 * i],
                self.value[4 * i + 1],
                self.value[4 * i + 2],
                self.value[4 * i + 3],
            ),
    {
        let mut out: [u32; 4] = [0; 4];
        let mut i: usize = 0;
        while i < 4
            invariant
                i <= 4,
                forall|j: int| 0 <= j < i ==> #[trigger] out[j] == le_u32(
                    self.value[4 * j],
                    self.value[4 * j + 1],
                    self.value[4 * j + 2],
                    self.value[4 * j + 3],
                ),
            decreases 4 - i,
        {
            out[i] = le_u32_of(
                self.value[4 * i],
                self.value[4 * i + 1],
                self.value[4 * i + 2],
                self.value[4 * i + 3],
            );
            i = i + 1;
        }
        out
    }

    /// The property, ready to be attached to a property bag.
    pub fn create_attach_ctrl(state: u32, value: [u8; 16]) -> (v: PropertyValue)
        ensures
            v == PropertyValue::Vec4(PVec4 { vtable: 0, state, value }),
    {
        PropertyValue::Vec4(Self::new(state, value))
    }
}

/// A property as a property bag holds it: one of the concrete property kinds.
#[derive(Clone, Copy, Debug)]
pub enum PropertyValue {
    Color(PColor),
    Enum(PEnum),
    Float(PFloat),
    Bool(PBool),
    Vec4(PVec4),
}

impl PropertyValue {
    /// The state of the property.
    pub open spec fn state(self) -> u32 {
        match self {
            PropertyValue::Color(p) => p.base.state,
            PropertyValue::Enum(p) => p.state,
            PropertyValue::Float(p) => p.state,
            PropertyValue::Bool(p) => p.state,
            PropertyValue::Vec4(p) => p.state,
        }
    }

    /// The property with its state replaced.
    pub open spec fn with_state(self, s: u32) -> PropertyValue {
        match self {
            PropertyValue::Color(p) => PropertyValue::Color(
                PColor { base: Property { state: s, ..p.base }, ..p },
            ),
            PropertyValue::Enum(p) => PropertyValue::Enum(PEnum { state: s, ..p }),
            PropertyValue::Float(p) => PropertyValue::Float(PFloat { state: s, ..p }),
            PropertyValue::Bool(p) => PropertyValue::Bool(PBool { state: s, ..p }),
            PropertyValue::Vec4(p) => PropertyValue::Vec4(PVec4 { state: s, ..p }),
        }
    }

    /// The four bytes that follow the state in every property, read as a little-endian
    /// `u32`: the typed value of enumeration, floating-point and boolean properties.
    pub open spec fn value_slot(self) -> u32 {
        match self {
            PropertyValue::Color(p) => p.base._pad,
            PropertyValue::Enum(p) => p.value,
            PropertyValue::Float(p) => p.value_bits,
            PropertyValue::Bool(p) => p.value as u32,
            PropertyValue::Vec4(p) => crate::color::le_u32(
                p.value[0],
                p.value[1],
                p.value[2],
                p.value[3],
            ) as u32,
        }
    }

    /// The state of the property.
    pub fn get_state(&self) -> (s: u32)
        ensures
            s == self.state(),
    {
        match self {
            PropertyValue::Color(p) => p.base.state,
            PropertyValue::Enum(p) => p.state,
            PropertyValue::Float(p) => p.state,
            PropertyValue::Bool(p) => p.state,
            PropertyValue::Vec4(p) => p.state,
        }
    }

    /// Replaces the state; the kind and value are unchanged.
    pub fn set_state(&mut self, s: u32)
        ensures
            *final(self) == old(self).with_state(s),
            final(self).state() == s,
            final(self).with_state(old(self).state()) == *old(self),
    {
        let v = *self;
        *self = match v {
            PropertyValue::Color(p) => PropertyValue::Color(
                PColor { base: Property { vtable: p.base.vtable, state: s, _pad: p.base._pad }, color: p.color },
            ),
            PropertyValue::Enum(p) => PropertyValue::Enum(PEnum { vtable: p.vtable, state: s, value: p.value }),
            PropertyValue::Float(p) => PropertyValue::Float(
                PFloat { vtable: p.vtable, state: s, value_bits: p.value_bits },
            ),
            PropertyValue::Bool(p) => PropertyValue::Bool(
                PBool { vtable: p.vtable, state: s, value: p.value },
            ),
            PropertyValue::Vec4(p) => PropertyValue::Vec4(
                PVec4 { vtable: p.vtable, state: s, value: p.value },
            ),
        };
    }

    /// The typed value slot (see `value_slot`).
    pub fn get_value_slot(&self) -> (r: u32)
        ensures
            r == self.value_slot(),
    {
        match self {
            PropertyValue::Color(p) => p.base._pad,
            PropertyValue::Enum(p) => p.value,
            PropertyValue::Float(p) => p.value_bits,
            PropertyValue::Bool(p) => p.value as u32,
            PropertyValue::Vec4(p) => crate::color::le_u32_of(p.value[0], p.value[1], p.value[2], p.value[3]),
        }
    }
}

/// Property equality: the same kind, equal states (1 and 2 counting as equal) and
/// equal values (a colour by type and value bytes, a 16-byte value byte by byte).
pub open spec fn property_eq(a: PropertyValue, b: PropertyValue) -> bool {
    match (a, b) {
        (PropertyValue::Color(x), PropertyValue::Color(y)) => state_eq(x.base.state, y.base.state)
            && same_color(x.color, y.color),
        (PropertyValue::Enum(x), PropertyValue::Enum(y)) => state_eq(x.state, y.state) && x.value
            == y.value,
        (PropertyValue::Float(x), PropertyValue::Float(y)) => state_eq(x.state, y.state)
            && x.value_bits == y.value_bits,
        (PropertyValue::Bool(x), PropertyValue::Bool(y)) => state_eq(x.state, y.state) && x.value
            == y.value,
        (PropertyValue::Vec4(x), PropertyValue::Vec4(y)) => state_eq(x.state, y.state) && x.value@
            == y.value@,
        _ => false,
    }
}

fn same_bytes16(a: &[u8; 16], b: &[u8; 16]) -> (r: bool)
    ensures
        r == (a@ == b@),
{
    let mut i: usize = 0;
    while i < 16
        invariant
            i <= 16,
            forall|j: int| 0 <= j < i ==> a@[j] == b@[j],
        decreases 16 - i,
    {
        if a[i] != b[i] {
            return false;
        }
        i = i + 1;
    }
    assert(a@ =~= b@);
    true
}

impl PropertyValue {
    /// Property equality (see `property_eq`).
    pub fn eq_op(&self, other: &PropertyValue) -> (r: bool)
        ensures
            r == property_eq(*self, *other),
    {
        let s1 = self.get_state();
        let s2 = other.get_state();
        let states = (s1 == s2) || (s1 == 1 && s2 == 2) || (s1 == 2 && s2 == 1);
        match (self, other) {
            (PropertyValue::Color(x), PropertyValue::Color(y)) => states && x.color.eq_struct(&y.color),
            (PropertyValue::Enum(x), PropertyValue::Enum(y)) => states && x.value == y.value,
            (PropertyValue::Float(x), PropertyValue::Float(y)) => states && x.value_bits == y.value_bits,
            (PropertyValue::Bool(x), PropertyValue::Bool(y)) => states && x.value == y.value,
            (PropertyValue::Vec4(x), PropertyValue::Vec4(y)) => states && same_bytes16(&x.value, &y.value),
            _ => false,
        }
    }
}

/// Property equality is reflexive and symmetric.
pub proof fn law_property_eq_reflexive_symmetric(a: PropertyValue, b: PropertyValue)
    ensures
        property_eq(a, a),
        property_eq(a, b) == property_eq(b, a),
{
}

/// Setting a property's state changes its state and nothing else: the new state reads
/// back, the kind and the value are kept (a colour keeps its type and value bytes),
/// and setting the old state again gives back the property as it was.
pub proof fn law_with_state_changes_only_state(v: PropertyValue, s: u32)
    ensures
        v.with_state(s).state() == s,
        v.with_state(s).with_state(v.state()) == v,
        v.with_state(s).value_slot() == v.value_slot(),
        v matches PropertyValue::Color(p) ==> (v.with_state(s) matches PropertyValue::Color(q)
            && q.color == p.color && q.color.type_tag == p.color.type_tag && q.color.value@
            == p.color.value@),
        v matches PropertyValue::Enum(p) ==> (v.with_state(s) matches PropertyValue::Enum(q) && q.value
            == p.value),
        v matches PropertyValue::Float(p) ==> (v.with_state(s) matches PropertyValue::Float(q)
            && q.value_bits == p.value_bits),
        v matches PropertyValue::Bool(p) ==> (v.with_state(s) matches PropertyValue::Bool(q) && q.value
            == p.value),
        v matches PropertyValue::Vec4(p) ==> (v.with_state(s) matches PropertyValue::Vec4(q) && q.value
            == p.value),
{
}

} // verus!
