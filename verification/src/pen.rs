use vstd::prelude::*;
use crate::brush::{Brush, BrushType, same_brush};
use crate::color::Color;
use crate::property::PEnum;
use crate::property::PFloat;
use crate::property_bag::{PropertyBag, bag_map};
use crate::property_key::{KeyView, PropertyKey};

verus! {

/// Compound line style of a pen.
#[derive(Clone, Copy, Debug, PartialEq, Eq, Structural, Default)]
pub enum PenCompoundStyle {
    #[default]
    Single,
    Double,
    ThinThick,
    ThickThin,
    TriLine,
}

impl PenCompoundStyle {
    /// The number the engine stores for the value.
    pub open spec fn code(self) -> u32 {
        match self {
            PenCompoundStyle::Single => 0,
            PenCompoundStyle::Double => 1,
            PenCompoundStyle::ThinThick => 2,
            PenCompoundStyle::ThickThin => 3,
            PenCompoundStyle::TriLine => 4,
        }
    }

    /// The value stored as `v`; an unknown number reads as `Single`.
    pub open spec fn from_code(v: u32) -> Self {
        if v == 0 {
            PenCompoundStyle::Single
        } else if v == 1 {
            PenCompoundStyle::Double
        } else if v == 2 {
            PenCompoundStyle::ThinThick
        } else if v == 3 {
            PenCompoundStyle::ThickThin
        } else if v == 4 {
            PenCompoundStyle::TriLine
        } else {
            PenCompoundStyle::Single
        }
    }

    /// The number the engine stores for the value.
    pub fn to_u32(self) -> (r: u32)
        ensures
            r == self.code(),
    {
        match self {
            PenCompoundStyle::Single => 0,
            PenCompoundStyle::Double => 1,
            PenCompoundStyle::ThinThick => 2,
            PenCompoundStyle::ThickThin => 3,
            PenCompoundStyle::TriLine => 4,
        }
    }

    /// The value stored as `v`; an unknown number reads as `Single`.
    pub fn from_u32(v: u32) -> (r: Self)
        ensures
            r == Self::from_code(v),
    {
        match v {
            0 => PenCompoundStyle::Single,
            1 => PenCompoundStyle::Double,
            2 => PenCompoundStyle::ThinThick,
            3 => PenCompoundStyle::ThickThin,
            4 => PenCompoundStyle::TriLine,
            _ => PenCompoundStyle::Single,
        }
    }
}

/// Dash pattern of a pen.
#[derive(Clone, Copy, Debug, PartialEq, Eq, Structural, Default)]
pub enum DashStyle {
    #[default]
    Solid,
    Dot,
    Dash,
    LongDash,
    DashDot,
    LongDashDot,
    LongDashDotDot,
}

impl DashStyle {
    /// The number the engine stores for the value.
    pub open spec fn code(self) -> u32 {
        match self {
            DashStyle::Solid => 0,
            DashStyle::Dot => 1,
            DashStyle::Dash => 2,
            DashStyle::LongDash => 3,
            DashStyle::DashDot => 4,
            DashStyle::LongDashDot => 5,
            DashStyle::LongDashDotDot => 6,
        }
    }

    /// The value stored as `v`; an unknown number reads as `Solid`.
    pub open spec fn from_code(v: u32) -> Self {
        if v == 0 {
            DashStyle::Solid
        } else if v == 1 {
            DashStyle::Dot
        } else if v == 2 {
            DashStyle::Dash
        } else if v == 3 {
            DashStyle::LongDash
        } else if v == 4 {
            DashStyle::DashDot
        } else if v == 5 {
            DashStyle::LongDashDot
        } else if v == 6 {
            DashStyle::LongDashDotDot
        } else {
            DashStyle::Solid
        }
    }

    /// The number the engine stores for the value.
    pub fn to_u32(self) -> (r: u32)
        ensures
            r == self.code(),
    {
        match self {
            DashStyle::Solid => 0,
            DashStyle::Dot => 1,
            DashStyle::Dash => 2,
            DashStyle::LongDash => 3,
            DashStyle::DashDot => 4,
            DashStyle::LongDashDot => 5,
            DashStyle::LongDashDotDot => 6,
        }
    }

    /// The value stored as `v`; an unknown number reads as `Solid`.
    pub fn from_u32(v: u32) -> (r: Self)
        ensures
            r == Self::from_code(v),
    {
        match v {
            0 => DashStyle::Solid,
            1 => DashStyle::Dot,
            2 => DashStyle::Dash,
            3 => DashStyle::LongDash,
            4 => DashStyle::DashDot,
            5 => DashStyle::LongDashDot,
            6 => DashStyle::LongDashDotDot,
            _ => DashStyle::Solid,
        }
    }
}

/// Shape of the ends of an open line.
#[derive(Clone, Copy, Debug, PartialEq, Eq, Structural, Default)]
pub enum LineCapStyle {
    Round,
    #[default]
    Square,
    Flat,
}

impl LineCapStyle {
    /// The number the engine stores for the value.
    pub open spec fn code(self) -> u32 {
        match self {
            LineCapStyle::Round => 0,
            LineCapStyle::Square => 1,
            LineCapStyle::Flat => 2,
        }
    }

    /// The value stored as `v`; an unknown number reads as `Square`.
    pub open spec fn from_code(v: u32) -> Self {
        if v == 0 {
            LineCapStyle::Round
        } else if v == 1 {
            LineCapStyle::Square
        } else if v == 2 {
            LineCapStyle::Flat
        } else {
            LineCapStyle::Square
        }
    }

    /// The number the engine stores for the value.
    pub fn to_u32(self) -> (r: u32)
        ensures
            r == self.code(),
    {
        match self {
            LineCapStyle::Round => 0,
            LineCapStyle::Square => 1,
            LineCapStyle::Flat => 2,
        }
    }

    /// The value stored as `v`; an unknown number reads as `Square`.
    pub fn from_u32(v: u32) -> (r: Self)
        ensures
            r == Self::from_code(v),
    {
        match v {
            0 => LineCapStyle::Round,
            1 => LineCapStyle::Square,
            2 => LineCapStyle::Flat,
            _ => LineCapStyle::Square,
        }
    }
}

/// Shape of the corners where line segments meet.
#[derive(Clone, Copy, Debug, PartialEq, Eq, Structural, Default)]
pub enum LineJoinStyle {
    #[default]
    Miter,
    Round,
    Bevel,
}

impl LineJoinStyle {
    /// The number the engine stores for the value.
    pub open spec fn code(self) -> u32 {
        match self {
            LineJoinStyle::Miter => 0,
            LineJoinStyle::Round => 1,
            LineJoinStyle::Bevel => 2,
        }
    }

    /// The value stored as `v`; an unknown number reads as `Miter`.
    pub open spec fn from_code(v: u32) -> Self {
        if v == 0 {
            LineJoinStyle::Miter
        } else if v == 1 {
            LineJoinStyle::Round
        } else if v == 2 {
            LineJoinStyle::Bevel
        } else {
            LineJoinStyle::Miter
        }
    }

    /// The number the engine stores for the value.
    pub fn to_u32(self) -> (r: u32)
        ensures
            r == self.code(),
    {
        match self {
            LineJoinStyle::Miter => 0,
            LineJoinStyle::Round => 1,
            LineJoinStyle::Bevel => 2,
        }
    }

    /// The value stored as `v`; an unknown number reads as `Miter`.
    pub fn from_u32(v: u32) -> (r: Self)
        ensures
            r == Self::from_code(v),
    {
        match v {
            0 => LineJoinStyle::Miter,
            1 => LineJoinStyle::Round,
            2 => LineJoinStyle::Bevel,
            _ => LineJoinStyle::Miter,
        }
    }
}

/// Arrow head at a line end.
#[derive(Clone, Copy, Debug, PartialEq, Eq, Structural, Default)]
pub enum ArrowStyle {
    #[default]
    NoArrow,
    Triangle,
    Diamond,
    Circle,
    Open,
    Stealth,
}

impl ArrowStyle {
    /// The number the engine stores for the value.
    pub open spec fn code(self) -> u32 {
        match self {
            ArrowStyle::NoArrow => 0,
            ArrowStyle::Triangle => 1,
            ArrowStyle::Diamond => 2,
            ArrowStyle::Circle => 3,
            ArrowStyle::Open => 4,
            ArrowStyle::Stealth => 5,
        }
    }

    /// The value stored as `v`; an unknown number reads as `None`.
    pub open spec fn from_code(v: u32) -> Self {
        if v == 0 {
            ArrowStyle::NoArrow
        } else if v == 1 {
            ArrowStyle::Triangle
        } else if v == 2 {
            ArrowStyle::Diamond
        } else if v == 3 {
            ArrowStyle::Circle
        } else if v == 4 {
            ArrowStyle::Open
        } else if v == 5 {
            ArrowStyle::Stealth
        } else {
            ArrowStyle::NoArrow
        }
    }

    /// The number the engine stores for the value.
    pub fn to_u32(self) -> (r: u32)
        ensures
            r == self.code(),
    {
        match self {
            ArrowStyle::NoArrow => 0,
            ArrowStyle::Triangle => 1,
            ArrowStyle::Diamond => 2,
            ArrowStyle::Circle => 3,
            ArrowStyle::Open => 4,
            ArrowStyle::Stealth => 5,
        }
    }

    /// The value stored as `v`; an unknown number reads as `None`.
    pub fn from_u32(v: u32) -> (r: Self)
        ensures
            r == Self::from_code(v),
    {
        match v {
            0 => ArrowStyle::NoArrow,
            1 => ArrowStyle::Triangle,
            2 => ArrowStyle::Diamond,
            3 => ArrowStyle::Circle,
            4 => ArrowStyle::Open,
            5 => ArrowStyle::Stealth,
            _ => ArrowStyle::NoArrow,
        }
    }
}

/// Size of an arrow head.
#[derive(Clone, Copy, Debug, PartialEq, Eq, Structural, Default)]
pub enum ArrowSizeStyle {
    #[default]
    Small,
    Medium,
    Large,
}

impl ArrowSizeStyle {
    /// The number the engine stores for the value.
    pub open spec fn code(self) -> u32 {
        match self {
            ArrowSizeStyle::Small => 0,
            ArrowSizeStyle::Medium => 1,
            ArrowSizeStyle::Large => 2,
        }
    }

    /// The value stored as `v`; an unknown number reads as `Small`.
    pub open spec fn from_code(v: u32) -> Self {
        if v == 0 {
            ArrowSizeStyle::Small
        } else if v == 1 {
            ArrowSizeStyle::Medium
        } else if v == 2 {
            ArrowSizeStyle::Large
        } else {
            ArrowSizeStyle::Small
        }
    }

    /// The number the engine stores for the value.
    pub fn to_u32(self) -> (r: u32)
        ensures
            r == self.code(),
    {
        match self {
            ArrowSizeStyle::Small => 0,
            ArrowSizeStyle::Medium => 1,
            ArrowSizeStyle::Large => 2,
        }
    }

    /// The value stored as `v`; an unknown number reads as `Small`.
    pub fn from_u32(v: u32) -> (r: Self)
        ensures
            r == Self::from_code(v),
    {
        match v {
            0 => ArrowSizeStyle::Small,
            1 => ArrowSizeStyle::Medium,
            2 => ArrowSizeStyle::Large,
            _ => ArrowSizeStyle::Small,
        }
    }
}

/// Where a pen's stroke lies relative to the outline.
#[derive(Clone, Copy, Debug, PartialEq, Eq, Structural, Default)]
pub enum PenAlignStyle {
    #[default]
    Center,
    Inset,
    Outset,
}

impl PenAlignStyle {
    /// The number the engine stores for the value.
    pub open spec fn code(self) -> u32 {
        match self {
            PenAlignStyle::Center => 0,
            PenAlignStyle::Inset => 1,
            PenAlignStyle::Outset => 2,
        }
    }

    /// The value stored as `v`; an unknown number reads as `Center`.
    pub open spec fn from_code(v: u32) -> Self {
        if v == 0 {
            PenAlignStyle::Center
        } else if v == 1 {
            PenAlignStyle::Inset
        } else if v == 2 {
            PenAlignStyle::Outset
        } else {
            PenAlignStyle::Center
        }
    }

    /// The number the engine stores for the value.
    pub fn to_u32(self) -> (r: u32)
        ensures
            r == self.code(),
    {
        match self {
            PenAlignStyle::Center => 0,
            PenAlignStyle::Inset => 1,
            PenAlignStyle::Outset => 2,
        }
    }

    /// The value stored as `v`; an unknown number reads as `Center`.
    pub fn from_u32(v: u32) -> (r: Self)
        ensures
            r == Self::from_code(v),
    {
        match v {
            0 => PenAlignStyle::Center,
            1 => PenAlignStyle::Inset,
            2 => PenAlignStyle::Outset,
            _ => PenAlignStyle::Center,
        }
    }
}

/// Bag key of the pen's thickness.
pub const KEY_THICKNESS: u32 = 0x2bc;

/// Bag key of the pen's compound line style.
pub const KEY_COMPOUND: u32 = 0x2bd;

/// Bag key of the pen's dash style.
pub const KEY_DASH: u32 = 0x2be;

/// Bag key of the pen's line cap style.
pub const KEY_LINE_CAP: u32 = 0x2bf;

/// Bag key of the pen's line join style.
pub const KEY_LINE_JOIN: u32 = 0x2c0;

/// Bag key of the pen's miter limit.
pub const KEY_MITER_LIMIT: u32 = 0x2c1;

/// Bag key of the pen's start arrow style.
pub const KEY_START_ARROW_STYLE: u32 = 0x2c2;

/// Bag key of the pen's start arrow size.
pub const KEY_START_ARROW_SIZE: u32 = 0x2c3;

/// Bag key of the pen's end arrow style.
pub const KEY_END_ARROW_STYLE: u32 = 0x2c4;

/// Bag key of the pen's end arrow size.
pub const KEY_END_ARROW_SIZE: u32 = 0x2c5;

/// Bag key of the pen's pen alignment.
pub const KEY_PEN_ALIGN: u32 = 0x2c6;

/// Bits of the default thickness (1.0) reported without a thickness property.
pub const DEFAULT_THICKNESS_BITS: u32 = 0x3f80_0000;

/// Bits of the default miter limit (10.0) reported without a miter-limit property.
pub const DEFAULT_MITER_LIMIT_BITS: u32 = 0x4120_0000;

/// Bits of the thickness a default pen gets: 1.0 * 0.75 / 72.0 as an `f32`.
pub const NEW_DEFAULT_THICKNESS_BITS: u32 = 0x3c2a_aaab;

/// The value slot stored under integer key `id`, or `d` without one.
pub open spec fn slot_or(m: Map<KeyView, crate::property::PropertyValue>, id: u32, d: u32) -> u32 {
    if m.contains_key(KeyView::Int(id)) {
        m[KeyView::Int(id)].value_slot()
    } else {
        d
    }
}

/// The bag after a pen setter stores `v` under integer key `id` (a bag without a body
/// ignores it).
pub open spec fn stored(b: PropertyBag, id: u32, v: crate::property::PropertyValue) -> Map<KeyView, crate::property::PropertyValue> {
    if b.ctrl is Some {
        bag_map(b).insert(KeyView::Int(id), v)
    } else {
        bag_map(b)
    }
}

/// An enumeration value as a pen setter stores it: explicitly enabled.
pub open spec fn enum_property(v: u32) -> crate::property::PropertyValue {
    crate::property::PropertyValue::Enum(PEnum { vtable: 0, state: crate::state::ENABLED_EXPLICIT, value: v })
}

/// A floating-point value (given by its bits) as a pen setter stores it.
pub open spec fn float_property(bits: u32) -> crate::property::PropertyValue {
    crate::property::PropertyValue::Float(PFloat { vtable: 0, state: crate::state::ENABLED_EXPLICIT, value_bits: bits })
}

/// The bag of a pen made with the engine's defaults: the thickness, then the numbers
/// 0 (single compound), 0 (solid dash), 0 (round cap), 1 (round join), 0 (no start
/// arrow), 4 (start arrow size), 0 (no end arrow), 4 (end arrow size) and 0 (centred),
/// all explicitly enabled; no miter limit. The arrow size 4 is no known size and reads
/// as small.
pub open spec fn engine_default_bag(thickness_bits: u32) -> Map<KeyView, crate::property::PropertyValue> {
    Map::<KeyView, crate::property::PropertyValue>::empty()
        .insert(KeyView::Int(KEY_THICKNESS), float_property(thickness_bits))
        .insert(KeyView::Int(KEY_COMPOUND), enum_property(0))
        .insert(KeyView::Int(KEY_DASH), enum_property(0))
        .insert(KeyView::Int(KEY_LINE_CAP), enum_property(0))
        .insert(KeyView::Int(KEY_LINE_JOIN), enum_property(1))
        .insert(KeyView::Int(KEY_START_ARROW_STYLE), enum_property(0))
        .insert(KeyView::Int(KEY_START_ARROW_SIZE), enum_property(4))
        .insert(KeyView::Int(KEY_END_ARROW_STYLE), enum_property(0))
        .insert(KeyView::Int(KEY_END_ARROW_SIZE), enum_property(4))
        .insert(KeyView::Int(KEY_PEN_ALIGN), enum_property(0))
}

/// A pen: a brush for its stroke, and its line settings in a property bag.
#[derive(Debug)]
pub struct Pen {
    pub brush: Box<Brush>,
    pub bag: PropertyBag,
}

/// Pen equality: same brush, same thickness bits, same line settings.
pub open spec fn pen_eq(a: Pen, b: Pen) -> bool {
    &&& same_brush(*a.brush, *b.brush)
    &&& a.thickness_bits() == b.thickness_bits()
    &&& a.compound() == b.compound()
    &&& a.dash() == b.dash()
    &&& a.line_cap() == b.line_cap()
    &&& a.line_join() == b.line_join()
    &&& a.start_arrow_style() == b.start_arrow_style()
    &&& a.start_arrow_size() == b.start_arrow_size()
    &&& a.end_arrow_style() == b.end_arrow_style()
    &&& a.end_arrow_size() == b.end_arrow_size()
    &&& a.pen_align() == b.pen_align()
}

impl Pen {
    /// The thickness bits the pen reports.
    pub open spec fn thickness_bits(self) -> u32 {
        slot_or(bag_map(self.bag), KEY_THICKNESS, DEFAULT_THICKNESS_BITS)
    }

    /// The miter-limit bits the pen reports.
    pub open spec fn miter_limit_bits(self) -> u32 {
        slot_or(bag_map(self.bag), KEY_MITER_LIMIT, DEFAULT_MITER_LIMIT_BITS)
    }

    /// The pen compound style the pen reports.
    pub open spec fn compound(self) -> PenCompoundStyle {
        PenCompoundStyle::from_code(slot_or(bag_map(self.bag), KEY_COMPOUND, 0))
    }

    /// The dash style the pen reports.
    pub open spec fn dash(self) -> DashStyle {
        DashStyle::from_code(slot_or(bag_map(self.bag), KEY_DASH, 0))
    }

    /// The line cap style the pen reports.
    pub open spec fn line_cap(self) -> LineCapStyle {
        LineCapStyle::from_code(slot_or(bag_map(self.bag), KEY_LINE_CAP, 1))
    }

    /// The line join style the pen reports.
    pub open spec fn line_join(self) -> LineJoinStyle {
        LineJoinStyle::from_code(slot_or(bag_map(self.bag), KEY_LINE_JOIN, 0))
    }

    /// The start arrow style the pen reports.
    pub open spec fn start_arrow_style(self) -> ArrowStyle {
        ArrowStyle::from_code(slot_or(bag_map(self.bag), KEY_START_ARROW_STYLE, 0))
    }

    /// The start arrow size the pen reports.
    pub open spec fn start_arrow_size(self) -> ArrowSizeStyle {
        ArrowSizeStyle::from_code(slot_or(bag_map(self.bag), KEY_START_ARROW_SIZE, 0))
    }

    /// The end arrow style the pen reports.
    pub open spec fn end_arrow_style(self) -> ArrowStyle {
        ArrowStyle::from_code(slot_or(bag_map(self.bag), KEY_END_ARROW_STYLE, 0))
    }

    /// The end arrow size the pen reports.
    pub open spec fn end_arrow_size(self) -> ArrowSizeStyle {
        ArrowSizeStyle::from_code(slot_or(bag_map(self.bag), KEY_END_ARROW_SIZE, 0))
    }

    /// The pen align style the pen reports.
    pub open spec fn pen_align(self) -> PenAlignStyle {
        PenAlignStyle::from_code(slot_or(bag_map(self.bag), KEY_PEN_ALIGN, 0))
    }

    fn bag_get_u32(&self, key_id: u32, default: u32) -> (r: u32)
        ensures
            r == slot_or(bag_map(self.bag), key_id, default),
    {
        let key = PropertyKey::from_int(key_id);
        if self.bag.contains(&key) {
            self.bag.get_value_slot(&key)
        } else {
            default
        }
    }

    /// Whether a property can be stored under `key_id`: the key is present, or the bag
    /// has room for one more key.
    pub open spec fn has_room(self, key_id: u32) -> bool {
        bag_map(self.bag).contains_key(KeyView::Int(key_id)) || bag_map(self.bag).dom().len()
            < usize::MAX
    }

    fn bag_attach(&mut self, key_id: u32, value: crate::property::PropertyValue)
        requires
            old(self).has_room(key_id),
        ensures
            bag_map(final(self).bag) == stored(old(self).bag, key_id, value),
            final(self).bag.ctrl is Some == old(self).bag.ctrl is Some,
            final(self).brush == old(self).brush,
    {
        let key = PropertyKey::from_int(key_id);
        let _ = self.bag.attach(&key, value);
    }

    /// The bits of the thickness (of 1.0 without a thickness property).
    pub fn get_thickness_bits(&self) -> (r: u32)
        ensures
            r == self.thickness_bits(),
    {
        self.bag_get_u32(KEY_THICKNESS, DEFAULT_THICKNESS_BITS)
    }

    /// The bits of the miter limit (of 10.0 without a miter-limit property).
    pub fn get_miter_limit_bits(&self) -> (r: u32)
        ensures
            r == self.miter_limit_bits(),
    {
        self.bag_get_u32(KEY_MITER_LIMIT, DEFAULT_MITER_LIMIT_BITS)
    }

    /// Sets the thickness, given by the bits of its `f32` value.
    pub fn set_thickness_bits(&mut self, bits: u32)
        requires
            old(self).has_room(KEY_THICKNESS),
        ensures
            old(self).bag.ctrl is Some ==> final(self).thickness_bits() == bits,
            bag_map(final(self).bag) == stored(old(self).bag, KEY_THICKNESS, float_property(bits)),
            final(self).bag.ctrl is Some == old(self).bag.ctrl is Some,
            final(self).brush == old(self).brush,
    {
        self.bag_attach(KEY_THICKNESS, PFloat::create_attach_ctrl(crate::state::ENABLED_EXPLICIT, bits));
    }

    /// Sets the miter limit, given by the bits of its `f32` value.
    pub fn set_miter_limit_bits(&mut self, bits: u32)
        requires
            old(self).has_room(KEY_MITER_LIMIT),
        ensures
            old(self).bag.ctrl is Some ==> final(self).miter_limit_bits() == bits,
            bag_map(final(self).bag) == stored(old(self).bag, KEY_MITER_LIMIT, float_property(bits)),
            final(self).bag.ctrl is Some == old(self).bag.ctrl is Some,
            final(self).brush == old(self).brush,
    {
        self.bag_attach(KEY_MITER_LIMIT, PFloat::create_attach_ctrl(crate::state::ENABLED_EXPLICIT, bits));
    }

    /// The pen compound style.
    pub fn get_pen_compound_style(&self) -> (r: PenCompoundStyle)
        ensures
            r == self.compound(),
    {
        PenCompoundStyle::from_u32(self.bag_get_u32(KEY_COMPOUND, 0))
    }

    /// Sets the pen compound style.
    pub fn set_pen_compound_style(&mut self, s: PenCompoundStyle)
        requires
            old(self).has_room(KEY_COMPOUND),
        ensures
            old(self).bag.ctrl is Some ==> final(self).compound() == s,
            bag_map(final(self).bag) == stored(old(self).bag, KEY_COMPOUND, enum_property(s.code())),
            final(self).bag.ctrl is Some == old(self).bag.ctrl is Some,
            final(self).brush == old(self).brush,
    {
        self.bag_attach(KEY_COMPOUND, PEnum::create_attach_ctrl(crate::state::ENABLED_EXPLICIT, s.to_u32()));
    }

    /// The dash style.
    pub fn get_dash_style(&self) -> (r: DashStyle)
        ensures
            r == self.dash(),
    {
        DashStyle::from_u32(self.bag_get_u32(KEY_DASH, 0))
    }

    /// Sets the dash style.
    pub fn set_dash_style(&mut self, s: DashStyle)
        requires
            old(self).has_room(KEY_DASH),
        ensures
            old(self).bag.ctrl is Some ==> final(self).dash() == s,
            bag_map(final(self).bag) == stored(old(self).bag, KEY_DASH, enum_property(s.code())),
            final(self).bag.ctrl is Some == old(self).bag.ctrl is Some,
            final(self).brush == old(self).brush,
    {
        self.bag_attach(KEY_DASH, PEnum::create_attach_ctrl(crate::state::ENABLED_EXPLICIT, s.to_u32()));
    }

    /// The line cap style.
    pub fn get_line_cap_style(&self) -> (r: LineCapStyle)
        ensures
            r == self.line_cap(),
    {
        LineCapStyle::from_u32(self.bag_get_u32(KEY_LINE_CAP, 1))
    }

    /// Sets the line cap style.
    pub fn set_line_cap_style(&mut self, s: LineCapStyle)
        requires
            old(self).has_room(KEY_LINE_CAP),
        ensures
            old(self).bag.ctrl is Some ==> final(self).line_cap() == s,
            bag_map(final(self).bag) == stored(old(self).bag, KEY_LINE_CAP, enum_property(s.code())),
            final(self).bag.ctrl is Some == old(self).bag.ctrl is Some,
            final(self).brush == old(self).brush,
    {
        self.bag_attach(KEY_LINE_CAP, PEnum::create_attach_ctrl(crate::state::ENABLED_EXPLICIT, s.to_u32()));
    }

    /// The line join style.
    pub fn get_line_join_style(&self) -> (r: LineJoinStyle)
        ensures
            r == self.line_join(),
    {
        LineJoinStyle::from_u32(self.bag_get_u32(KEY_LINE_JOIN, 0))
    }

    /// Sets the line join style.
    pub fn set_line_join_style(&mut self, s: LineJoinStyle)
        requires
            old(self).has_room(KEY_LINE_JOIN),
        ensures
            old(self).bag.ctrl is Some ==> final(self).line_join() == s,
            bag_map(final(self).bag) == stored(old(self).bag, KEY_LINE_JOIN, enum_property(s.code())),
            final(self).bag.ctrl is Some == old(self).bag.ctrl is Some,
            final(self).brush == old(self).brush,
    {
        self.bag_attach(KEY_LINE_JOIN, PEnum::create_attach_ctrl(crate::state::ENABLED_EXPLICIT, s.to_u32()));
    }

    /// The start arrow style.
    pub fn get_start_arrow_style(&self) -> (r: ArrowStyle)
        ensures
            r == self.start_arrow_style(),
    {
        ArrowStyle::from_u32(self.bag_get_u32(KEY_START_ARROW_STYLE, 0))
    }

    /// Sets the start arrow style.
    pub fn set_start_arrow_style(&mut self, s: ArrowStyle)
        requires
            old(self).has_room(KEY_START_ARROW_STYLE),
        ensures
            old(self).bag.ctrl is Some ==> final(self).start_arrow_style() == s,
            bag_map(final(self).bag) == stored(old(self).bag, KEY_START_ARROW_STYLE, enum_property(s.code())),
            final(self).bag.ctrl is Some == old(self).bag.ctrl is Some,
            final(self).brush == old(self).brush,
    {
        self.bag_attach(KEY_START_ARROW_STYLE, PEnum::create_attach_ctrl(crate::state::ENABLED_EXPLICIT, s.to_u32()));
    }

    /// The start arrow size.
    pub fn get_start_arrow_size(&self) -> (r: ArrowSizeStyle)
        ensures
            r == self.start_arrow_size(),
    {
        ArrowSizeStyle::from_u32(self.bag_get_u32(KEY_START_ARROW_SIZE, 0))
    }

    /// Sets the start arrow size.
    pub fn set_start_arrow_size(&mut self, s: ArrowSizeStyle)
        requires
            old(self).has_room(KEY_START_ARROW_SIZE),
        ensures
            old(self).bag.ctrl is Some ==> final(self).start_arrow_size() == s,
            bag_map(final(self).bag) == stored(old(self).bag, KEY_START_ARROW_SIZE, enum_property(s.code())),
            final(self).bag.ctrl is Some == old(self).bag.ctrl is Some,
            final(self).brush == old(self).brush,
    {
        self.bag_attach(KEY_START_ARROW_SIZE, PEnum::create_attach_ctrl(crate::state::ENABLED_EXPLICIT, s.to_u32()));
    }

    /// The end arrow style.
    pub fn get_end_arrow_style(&self) -> (r: ArrowStyle)
        ensures
            r == self.end_arrow_style(),
    {
        ArrowStyle::from_u32(self.bag_get_u32(KEY_END_ARROW_STYLE, 0))
    }

    /// Sets the end arrow style.
    pub fn set_end_arrow_style(&mut self, s: ArrowStyle)
        requires
            old(self).has_room(KEY_END_ARROW_STYLE),
        ensures
            old(self).bag.ctrl is Some ==> final(self).end_arrow_style() == s,
            bag_map(final(self).bag) == stored(old(self).bag, KEY_END_ARROW_STYLE, enum_property(s.code())),
            final(self).bag.ctrl is Some == old(self).bag.ctrl is Some,
            final(self).brush == old(self).brush,
    {
        self.bag_attach(KEY_END_ARROW_STYLE, PEnum::create_attach_ctrl(crate::state::ENABLED_EXPLICIT, s.to_u32()));
    }

    /// The end arrow size.
    pub fn get_end_arrow_size(&self) -> (r: ArrowSizeStyle)
        ensures
            r == self.end_arrow_size(),
    {
        ArrowSizeStyle::from_u32(self.bag_get_u32(KEY_END_ARROW_SIZE, 0))
    }

    /// Sets the end arrow size.
    pub fn set_end_arrow_size(&mut self, s: ArrowSizeStyle)
        requires
            old(self).has_room(KEY_END_ARROW_SIZE),
        ensures
            old(self).bag.ctrl is Some ==> final(self).end_arrow_size() == s,
            bag_map(final(self).bag) == stored(old(self).bag, KEY_END_ARROW_SIZE, enum_property(s.code())),
            final(self).bag.ctrl is Some == old(self).bag.ctrl is Some,
            final(self).brush == old(self).brush,
    {
        self.bag_attach(KEY_END_ARROW_SIZE, PEnum::create_attach_ctrl(crate::state::ENABLED_EXPLICIT, s.to_u32()));
    }

    /// The pen align style.
    pub fn get_pen_align_style(&self) -> (r: PenAlignStyle)
        ensures
            r == self.pen_align(),
    {
        PenAlignStyle::from_u32(self.bag_get_u32(KEY_PEN_ALIGN, 0))
    }

    /// Sets the pen align style.
    pub fn set_pen_align_style(&mut self, s: PenAlignStyle)
        requires
            old(self).has_room(KEY_PEN_ALIGN),
        ensures
            old(self).bag.ctrl is Some ==> final(self).pen_align() == s,
            bag_map(final(self).bag) == stored(old(self).bag, KEY_PEN_ALIGN, enum_property(s.code())),
            final(self).bag.ctrl is Some == old(self).bag.ctrl is Some,
            final(self).brush == old(self).brush,
    {
        self.bag_attach(KEY_PEN_ALIGN, PEnum::create_attach_ctrl(crate::state::ENABLED_EXPLICIT, s.to_u32()));
    }

    /// A pen with no brush whose only property is its thickness, 0.75 / 72.
    pub fn new_default() -> (p: Self)
        ensures
            *p.brush == Brush::Empty,
            p.bag.ctrl is Some,
            bag_map(p.bag) == Map::<KeyView, crate::property::PropertyValue>::empty().insert(
                KeyView::Int(KEY_THICKNESS),
                float_property(NEW_DEFAULT_THICKNESS_BITS),
            ),
    {
        let mut p = Pen { brush: Box::new(Brush::Empty), bag: PropertyBag::new(false) };
        p.set_thickness_bits(NEW_DEFAULT_THICKNESS_BITS);
        p
    }

    /// Replaces the brush; the line settings are unchanged.
    pub fn set_stroke_brush(&mut self, brush: Box<Brush>)
        ensures
            final(self).brush == brush,
            final(self).bag == old(self).bag,
    {
        self.brush = brush;
    }

    /// Number of properties in the pen's bag.
    pub fn bag_size(&self) -> (n: u64)
        ensures
            n == bag_map(self.bag).dom().len(),
    {
        self.bag.size() as u64
    }

    /// Stores the thickness bits `bits` in state "enabled with default value" (1).
    pub fn override_thickness_bits(&mut self, bits: u32)
        requires
            old(self).has_room(KEY_THICKNESS),
        ensures
            bag_map(final(self).bag) == stored(
                old(self).bag,
                KEY_THICKNESS,
                crate::property::PropertyValue::Float(PFloat { vtable: 0, state: crate::state::ENABLED_DEFAULT, value_bits: bits }),
            ),
            final(self).brush == old(self).brush,
    {
        self.bag_attach(KEY_THICKNESS, PFloat::create_attach_ctrl(crate::state::ENABLED_DEFAULT, bits));
    }

    /// Stores the enumeration value `value` under integer key `key_id`, in state
    /// "enabled with default value" (1).
    pub fn override_enum_at(&mut self, key_id: u32, value: u32)
        requires
            old(self).has_room(key_id),
        ensures
            bag_map(final(self).bag) == stored(
                old(self).bag,
                key_id,
                crate::property::PropertyValue::Enum(PEnum { vtable: 0, state: crate::state::ENABLED_DEFAULT, value }),
            ),
            final(self).brush == old(self).brush,
    {
        self.bag_attach(key_id, PEnum::create_attach_ctrl(crate::state::ENABLED_DEFAULT, value));
    }

    /// A pen with a solid brush of `color` and this pen's thickness and line settings
    /// (the miter limit is not copied).
    pub fn clone_with_color(&self, color: &Color) -> (p: Pen)
        ensures
            *p.brush == Brush::Solid(*color),
            p.bag.ctrl is Some,
            p.thickness_bits() == self.thickness_bits(),
            p.miter_limit_bits() == DEFAULT_MITER_LIMIT_BITS,

            p.compound() == self.compound(),
            p.dash() == self.dash(),
            p.line_cap() == self.line_cap(),
            p.line_join() == self.line_join(),
            p.start_arrow_style() == self.start_arrow_style(),
            p.start_arrow_size() == self.start_arrow_size(),
            p.end_arrow_style() == self.end_arrow_style(),
            p.end_arrow_size() == self.end_arrow_size(),
            p.pen_align() == self.pen_align(),
    {
        let mut p = Pen { brush: Box::new(Brush::Solid(*color)), bag: PropertyBag::new(false) };
        p.copy_line_settings(self);
        p
    }

    /// Stores this pen's thickness and line settings into `self`'s bag.
    fn copy_line_settings(&mut self, src: &Pen)
        requires
            old(self).bag.ctrl is Some,
            bag_map(old(self).bag) == Map::<KeyView, crate::property::PropertyValue>::empty(),
        ensures
            final(self).bag.ctrl is Some,
            final(self).brush == old(self).brush,
            final(self).thickness_bits() == src.thickness_bits(),
            final(self).miter_limit_bits() == DEFAULT_MITER_LIMIT_BITS,

            final(self).compound() == src.compound(),
            final(self).dash() == src.dash(),
            final(self).line_cap() == src.line_cap(),
            final(self).line_join() == src.line_join(),
            final(self).start_arrow_style() == src.start_arrow_style(),
            final(self).start_arrow_size() == src.start_arrow_size(),
            final(self).end_arrow_style() == src.end_arrow_style(),
            final(self).end_arrow_size() == src.end_arrow_size(),
            final(self).pen_align() == src.pen_align(),
            bag_map(final(self).bag).dom().finite(),
            bag_map(final(self).bag).dom().len() <= 10,
    {
        self.fill_line_settings(
            src.get_thickness_bits(),
            src.get_pen_compound_style(),
            src.get_dash_style(),
            src.get_line_cap_style(),
            src.get_line_join_style(),
            src.get_start_arrow_style(),
            src.get_start_arrow_size(),
            src.get_end_arrow_style(),
            src.get_end_arrow_size(),
            src.get_pen_align_style(),
        );
    }

    /// Stores the given thickness and line settings into an empty bag.
    #[verifier::rlimit(80)]
    fn fill_line_settings(
        &mut self,
        thickness_bits: u32,
        compound: PenCompoundStyle,
        dash: DashStyle,
        line_cap: LineCapStyle,
        line_join: LineJoinStyle,
        head_style: ArrowStyle,
        head_size: ArrowSizeStyle,
        tail_style: ArrowStyle,
        tail_size: ArrowSizeStyle,
        align: PenAlignStyle,
    )
        requires
            old(self).bag.ctrl is Some,
            bag_map(old(self).bag) == Map::<KeyView, crate::property::PropertyValue>::empty(),
        ensures
            final(self).bag.ctrl is Some,
            final(self).brush == old(self).brush,
            final(self).thickness_bits() == thickness_bits,
            final(self).miter_limit_bits() == DEFAULT_MITER_LIMIT_BITS,

            final(self).compound() == compound,
            final(self).dash() == dash,
            final(self).line_cap() == line_cap,
            final(self).line_join() == line_join,
            final(self).start_arrow_style() == head_style,
            final(self).start_arrow_size() == head_size,
            final(self).end_arrow_style() == tail_style,
            final(self).end_arrow_size() == tail_size,
            final(self).pen_align() == align,
            bag_map(final(self).bag).dom().finite(),
            bag_map(final(self).bag).dom().len() <= 10,
    {
        proof {
            assert(bag_map(self.bag).dom() =~= Set::<KeyView>::empty());
        }
        self.set_thickness_bits(thickness_bits);
        assert(bag_map(self.bag).dom().finite() && bag_map(self.bag).dom().len() <= 1);
        self.set_pen_compound_style(compound);
        assert(bag_map(self.bag).dom().finite() && bag_map(self.bag).dom().len() <= 2);
        self.set_dash_style(dash);
        assert(bag_map(self.bag).dom().finite() && bag_map(self.bag).dom().len() <= 3);
        self.set_line_cap_style(line_cap);
        assert(bag_map(self.bag).dom().finite() && bag_map(self.bag).dom().len() <= 4);
        self.set_line_join_style(line_join);
        assert(bag_map(self.bag).dom().finite() && bag_map(self.bag).dom().len() <= 5);
        self.set_start_arrow_style(head_style);
        assert(bag_map(self.bag).dom().finite() && bag_map(self.bag).dom().len() <= 6);
        self.set_start_arrow_size(head_size);
        assert(bag_map(self.bag).dom().finite() && bag_map(self.bag).dom().len() <= 7);
        self.set_end_arrow_style(tail_style);
        assert(bag_map(self.bag).dom().finite() && bag_map(self.bag).dom().len() <= 8);
        self.set_end_arrow_size(tail_size);
        assert(bag_map(self.bag).dom().finite() && bag_map(self.bag).dom().len() <= 9);
        self.set_pen_align_style(align);
        assert(bag_map(self.bag).dom().finite() && bag_map(self.bag).dom().len() <= 10);
        proof {
            let m = bag_map(self.bag);
            assert(slot_or(m, KEY_THICKNESS, DEFAULT_THICKNESS_BITS) == thickness_bits);
        }
    }

    /// A pen with a solid brush of `color` and the given thickness (by the bits of its
    /// `f32` value) and line settings; the miter limit is left at its default.
    pub fn new(
        color: Color,
        width_bits: u32,
        compound_style: PenCompoundStyle,
        dash_style: DashStyle,
        line_cap_style: LineCapStyle,
        line_join_style: LineJoinStyle,
        head_arrow_style: ArrowStyle,
        head_arrow_size: ArrowSizeStyle,
        tail_arrow_style: ArrowStyle,
        tail_arrow_size: ArrowSizeStyle,
        pen_align_style: PenAlignStyle,
    ) -> (p: Pen)
        ensures
            *p.brush == Brush::Solid(color),
            p.bag.ctrl is Some,
            p.thickness_bits() == width_bits,
            p.miter_limit_bits() == DEFAULT_MITER_LIMIT_BITS,
            p.compound() == compound_style,
            p.dash() == dash_style,
            p.line_cap() == line_cap_style,
            p.line_join() == line_join_style,
            p.start_arrow_style() == head_arrow_style,
            p.start_arrow_size() == head_arrow_size,
            p.end_arrow_style() == tail_arrow_style,
            p.end_arrow_size() == tail_arrow_size,
            p.pen_align() == pen_align_style,
    {
        let mut p = Pen { brush: Box::new(Brush::Solid(color)), bag: PropertyBag::new(false) };
        p.fill_line_settings(
            width_bits,
            compound_style,
            dash_style,
            line_cap_style,
            line_join_style,
            head_arrow_style,
            head_arrow_size,
            tail_arrow_style,
            tail_arrow_size,
            pen_align_style,
        );
        p
    }

    /// A pen with no brush and the engine's default settings, each stored explicitly
    /// (see `engine_default_bag`); the thickness is given by the bits of its `f32`
    /// value, which the engine computes from its base size.
    pub fn new_with_engine_defaults(thickness_bits: u32) -> (p: Pen)
        ensures
            *p.brush == Brush::Empty,
            p.bag.ctrl is Some,
            bag_map(p.bag) == engine_default_bag(thickness_bits),
            p.thickness_bits() == thickness_bits,
            p.miter_limit_bits() == DEFAULT_MITER_LIMIT_BITS,
            p.compound() == PenCompoundStyle::Single,
            p.dash() == DashStyle::Solid,
            p.line_cap() == LineCapStyle::Round,
            p.line_join() == LineJoinStyle::Round,
            p.start_arrow_style() == ArrowStyle::NoArrow,
            p.start_arrow_size() == ArrowSizeStyle::Small,
            p.end_arrow_style() == ArrowStyle::NoArrow,
            p.end_arrow_size() == ArrowSizeStyle::Small,
            p.pen_align() == PenAlignStyle::Center,
    {
        let mut p = Pen { brush: Box::new(Brush::Empty), bag: PropertyBag::new(false) };
        proof {
            assert(bag_map(p.bag).dom() =~= Set::<KeyView>::empty());
        }
        let explicit = crate::state::ENABLED_EXPLICIT;
        p.bag_attach(KEY_THICKNESS, PFloat::create_attach_ctrl(explicit, thickness_bits));
        assert(bag_map(p.bag).dom().finite() && bag_map(p.bag).dom().len() <= 1);
        p.bag_attach(KEY_COMPOUND, PEnum::create_attach_ctrl(explicit, 0));
        assert(bag_map(p.bag).dom().finite() && bag_map(p.bag).dom().len() <= 2);
        p.bag_attach(KEY_DASH, PEnum::create_attach_ctrl(explicit, 0));
        assert(bag_map(p.bag).dom().finite() && bag_map(p.bag).dom().len() <= 3);
        p.bag_attach(KEY_LINE_CAP, PEnum::create_attach_ctrl(explicit, 0));
        assert(bag_map(p.bag).dom().finite() && bag_map(p.bag).dom().len() <= 4);
        p.bag_attach(KEY_LINE_JOIN, PEnum::create_attach_ctrl(explicit, 1));
        assert(bag_map(p.bag).dom().finite() && bag_map(p.bag).dom().len() <= 5);
        p.bag_attach(KEY_START_ARROW_STYLE, PEnum::create_attach_ctrl(explicit, 0));
        assert(bag_map(p.bag).dom().finite() && bag_map(p.bag).dom().len() <= 6);
        p.bag_attach(KEY_START_ARROW_SIZE, PEnum::create_attach_ctrl(explicit, 4));
        assert(bag_map(p.bag).dom().finite() && bag_map(p.bag).dom().len() <= 7);
        p.bag_attach(KEY_END_ARROW_STYLE, PEnum::create_attach_ctrl(explicit, 0));
        assert(bag_map(p.bag).dom().finite() && bag_map(p.bag).dom().len() <= 8);
        p.bag_attach(KEY_END_ARROW_SIZE, PEnum::create_attach_ctrl(explicit, 4));
        assert(bag_map(p.bag).dom().finite() && bag_map(p.bag).dom().len() <= 9);
        p.bag_attach(KEY_PEN_ALIGN, PEnum::create_attach_ctrl(explicit, 0));
        proof {
            assert(bag_map(p.bag) =~= engine_default_bag(thickness_bits));
        }
        p
    }

    /// Pen equality (see `pen_eq`).
    pub fn eq_op(&self, other: &Pen) -> (r: bool)
        ensures
            r == pen_eq(*self, *other),
            r == (same_brush(*self.brush, *other.brush) && self.thickness_bits() == other.thickness_bits()
                && self.compound() == other.compound() && self.dash() == other.dash()
                && self.line_cap() == other.line_cap() && self.line_join() == other.line_join()
                && self.start_arrow_style() == other.start_arrow_style()
                && self.start_arrow_size() == other.start_arrow_size()
                && self.end_arrow_style() == other.end_arrow_style()
                && self.end_arrow_size() == other.end_arrow_size()
                && self.pen_align() == other.pen_align()),
    {
        self.brush.eq_brush(&other.brush)
            && self.get_thickness_bits() == other.get_thickness_bits()
            && self.get_pen_compound_style() == other.get_pen_compound_style()
            && self.get_dash_style() == other.get_dash_style()
            && self.get_line_cap_style() == other.get_line_cap_style()
            && self.get_line_join_style() == other.get_line_join_style()
            && self.get_start_arrow_style() == other.get_start_arrow_style()
            && self.get_start_arrow_size() == other.get_start_arrow_size()
            && self.get_end_arrow_style() == other.get_end_arrow_style()
            && self.get_end_arrow_size() == other.get_end_arrow_size()
            && self.get_pen_align_style() == other.get_pen_align_style()
    }
}

impl Clone for Pen {
    /// A pen with a copy of the brush and a fresh bag holding the same thickness, miter
    /// limit and line settings.
    fn clone(&self) -> (p: Self)
        ensures
            *p.brush == *self.brush,
            p.thickness_bits() == self.thickness_bits(),
            p.miter_limit_bits() == self.miter_limit_bits(),

            p.compound() == self.compound(),
            p.dash() == self.dash(),
            p.line_cap() == self.line_cap(),
            p.line_join() == self.line_join(),
            p.start_arrow_style() == self.start_arrow_style(),
            p.start_arrow_size() == self.start_arrow_size(),
            p.end_arrow_style() == self.end_arrow_style(),
            p.end_arrow_size() == self.end_arrow_size(),
            p.pen_align() == self.pen_align(),
    {
        let mut p = Pen { brush: Box::new(*self.brush), bag: PropertyBag::new(false) };
        p.copy_line_settings(self);
        p.set_miter_limit_bits(self.get_miter_limit_bits());
        p
    }
}

impl PartialEq for Pen {
    fn eq(&self, other: &Self) -> (r: bool) {
        self.eq_op(other)
    }
}

impl vstd::std_specs::cmp::PartialEqSpecImpl for Pen {
    open spec fn obeys_eq_spec() -> bool {
        true
    }

    open spec fn eq_spec(&self, other: &Self) -> bool {
        pen_eq(*self, *other)
    }
}

/// A pen setter followed by the matching getter gives back the value set (on a pen
/// whose bag has a body); the other settings read as before.
pub proof fn law_pen_dash_round_trip(before: Pen, after: Pen, s: DashStyle)
    requires
        before.bag.ctrl is Some,
        bag_map(after.bag) == stored(before.bag, KEY_DASH, enum_property(s.code())),
    ensures
        after.dash() == s,
        after.line_cap() == before.line_cap(),
        after.thickness_bits() == before.thickness_bits(),
{
}

/// Two pens are equal exactly when they have the same brush and report the same
/// thickness and the same ten line settings other than the miter limit: a difference
/// in any one of them (the dash style among them) makes them unequal, and equality is
/// reflexive and symmetric.
pub proof fn law_pen_eq_compares_every_setting(a: Pen, b: Pen)
    ensures
        pen_eq(a, b) ==> a.dash() == b.dash(),
        pen_eq(a, b) ==> a.thickness_bits() == b.thickness_bits(),
        pen_eq(a, b) ==> a.compound() == b.compound() && a.line_cap() == b.line_cap()
            && a.line_join() == b.line_join(),
        pen_eq(a, b) ==> a.start_arrow_style() == b.start_arrow_style() && a.start_arrow_size()
            == b.start_arrow_size() && a.end_arrow_style() == b.end_arrow_style()
            && a.end_arrow_size() == b.end_arrow_size() && a.pen_align() == b.pen_align(),
        pen_eq(a, b) ==> same_brush(*a.brush, *b.brush),
        (same_brush(*a.brush, *b.brush) && a.thickness_bits() == b.thickness_bits() && a.compound()
            == b.compound() && a.dash() == b.dash() && a.line_cap() == b.line_cap() && a.line_join()
            == b.line_join() && a.start_arrow_style() == b.start_arrow_style() && a.start_arrow_size()
            == b.start_arrow_size() && a.end_arrow_style() == b.end_arrow_style()
            && a.end_arrow_size() == b.end_arrow_size() && a.pen_align() == b.pen_align()) ==> pen_eq(
            a,
            b,
        ),
        pen_eq(a, a),
        pen_eq(a, b) == pen_eq(b, a),
{
}

/// Setting a different dash style on one of two equal pens (bags with a body) makes
/// them unequal.
pub proof fn law_pen_dash_change_breaks_equality(a: Pen, b_before: Pen, b_after: Pen, s: DashStyle)
    requires
        b_before.bag.ctrl is Some,
        bag_map(b_after.bag) == stored(b_before.bag, KEY_DASH, enum_property(s.code())),
        a.dash() != s,
    ensures
        !pen_eq(a, b_after),
{
}

/// The line cap a pen reports: square while no line cap was ever stored, and after
/// `set_line_cap_style(s)` (on a pen whose bag has a body) exactly `s`.
pub proof fn law_pen_line_cap_read_after_set(p: Pen, before: Pen, after: Pen, s: LineCapStyle)
    requires
        before.bag.ctrl is Some,
        bag_map(after.bag) == stored(before.bag, KEY_LINE_CAP, enum_property(s.code())),
    ensures
        !bag_map(p.bag).contains_key(KeyView::Int(KEY_LINE_CAP)) ==> p.line_cap() == LineCapStyle::Square,
        after.line_cap() == s,
{
}

/// `set_dash_style(s)` on a pen whose bag has a body: the pen then reports dash `s`,
/// every other setting reads as before, and the bag grows by one property unless a
/// dash style was already stored.
pub proof fn law_pen_dash_set_keeps_the_rest(before: Pen, after: Pen, s: DashStyle)
    requires
        before.bag.ctrl is Some,
        bag_map(before.bag).dom().finite(),
        bag_map(after.bag) == stored(before.bag, KEY_DASH, enum_property(s.code())),
    ensures
        after.dash() == s,
        after.thickness_bits() == before.thickness_bits(),
        after.miter_limit_bits() == before.miter_limit_bits(),
        after.compound() == before.compound(),
        after.line_cap() == before.line_cap(),
        after.line_join() == before.line_join(),
        after.start_arrow_style() == before.start_arrow_style(),
        after.start_arrow_size() == before.start_arrow_size(),
        after.end_arrow_style() == before.end_arrow_style(),
        after.end_arrow_size() == before.end_arrow_size(),
        after.pen_align() == before.pen_align(),
        bag_map(after.bag).dom().len() == bag_map(before.bag).dom().len() + (if bag_map(
            before.bag,
        ).contains_key(KeyView::Int(KEY_DASH)) {
            0int
        } else {
            1int
        }),
{
}

/// A pen setter stores one setting: on a pen whose bag has a body, the setting's key
/// then reads back the stored value slot whatever its default, and every other key
/// reads as before.
pub proof fn law_pen_store_reads_back(
    before: Pen,
    after: Pen,
    id: u32,
    v: crate::property::PropertyValue,
    other: u32,
    d: u32,
)
    requires
        before.bag.ctrl is Some,
        bag_map(after.bag) == stored(before.bag, id, v),
    ensures
        slot_or(bag_map(after.bag), id, d) == v.value_slot(),
        other != id ==> slot_or(bag_map(after.bag), other, d) == slot_or(bag_map(before.bag), other, d),
{
}

/// Every pen enumeration survives being stored as its number and read back.
pub proof fn law_pen_codes_round_trip(
    a: PenCompoundStyle,
    b: DashStyle,
    c: LineCapStyle,
    d: LineJoinStyle,
    e: ArrowStyle,
    f: ArrowSizeStyle,
    g: PenAlignStyle,
)
    ensures
        PenCompoundStyle::from_code(a.code()) == a,
        DashStyle::from_code(b.code()) == b,
        LineCapStyle::from_code(c.code()) == c,
        LineJoinStyle::from_code(d.code()) == d,
        ArrowStyle::from_code(e.code()) == e,
        ArrowSizeStyle::from_code(f.code()) == f,
        PenAlignStyle::from_code(g.code()) == g,
{
}

} // verus!
