use vstd::prelude::*;
use crate::color::{Color, Rgb, le_u32, le_u32_of};
use crate::flag::Flag;
use crate::property_bag::{PropertyBag, bag_map};
use crate::property_key::{KeyView, PropertyKey};

verus! {

/// How colours are reduced when a shape is drawn.
#[derive(Clone, Copy, Debug, PartialEq, Eq, Structural)]
pub enum ColorMode {
    NoMode,
    Grayscale,
    BlackWhite,
}

impl ColorMode {
    /// Mode 1 is grayscale, 2 black-and-white, any other number no reduction.
    pub fn from_u32(v: u32) -> (m: Self)
        ensures
            m == (if v == 1 {
                ColorMode::Grayscale
            } else if v == 2 {
                ColorMode::BlackWhite
            } else {
                ColorMode::NoMode
            }),
    {
        match v {
            1 => ColorMode::Grayscale,
            2 => ColorMode::BlackWhite,
            _ => ColorMode::NoMode,
        }
    }

    /// The flag bit of the mode: 0x40 for grayscale, 0x80 for black-and-white, none
    /// otherwise.
    pub open spec fn flag_bit(self) -> u64 {
        match self {
            ColorMode::Grayscale => 0x40,
            ColorMode::BlackWhite => 0x80,
            ColorMode::NoMode => 0,
        }
    }

    /// The flag bit of the mode (see `flag_bit`).
    pub fn raw_flag_bit(self) -> (b: u64)
        ensures
            b == self.flag_bit(),
    {
        match self {
            ColorMode::Grayscale => 0x40,
            ColorMode::BlackWhite => 0x80,
            ColorMode::NoMode => 0,
        }
    }
}

/// Sets the flag bit of `mode` in `flag`, keeping every other bit.
pub fn apply_color_mode(flag: &mut Flag, mode: ColorMode)
    ensures
        final(flag).0 == old(flag).0 | mode.flag_bit(),
{
    let bit = mode.raw_flag_bit();
    if bit != 0 {
        flag.0 = flag.0 | bit;
    } else {
        assert(flag.0 | 0u64 == flag.0) by (bit_vector);
    }
}

/// The colour mode that the flag bits select, by priority: 1 (grayscale) for bit 0x40,
/// 2 (black-and-white) for bit 0x80, 3 for bit 0x0800_0000, else 0.
pub open spec fn color_mode_of(v: u64) -> u32 {
    if v & 0x40 != 0 {
        1
    } else if v & 0x80 != 0 {
        2
    } else if v & 0x0800_0000 != 0 {
        3
    } else {
        0
    }
}

/// The colour mode recorded in `flag` (see `color_mode_of`).
pub fn to_color_mode(flag: &Flag) -> (m: u32)
    ensures
        m == color_mode_of(flag.0),
{
    let v = flag.0;
    if v & 0x40 != 0 {
        return 1;
    }
    if v & 0x80 != 0 {
        return 2;
    }
    if v & 0x0800_0000 != 0 {
        return 3;
    }
    0
}

/// A colour as the renderer takes it: three or four channel bytes, a colour type
/// (1 = RGB, 0 = CMYK) and an alpha byte.
#[derive(Clone, Copy, Debug, PartialEq, Eq, Structural)]
pub struct RenderColor {
    pub b0: u8,
    pub b1: u8,
    pub b2: u8,
    pub b3: u8,
    pub color_type: u8,
    pub alpha: u8,
}

/// The colour given for anything that cannot be converted: opaque black RGB.
pub open spec fn invalid_color() -> RenderColor {
    RenderColor { b0: 0, b1: 0, b2: 0, b3: 0, color_type: 1, alpha: 0xff }
}

/// An opaque RGB render colour.
pub open spec fn rgb_color(r: u8, g: u8, b: u8) -> RenderColor {
    RenderColor { b0: r, b1: g, b2: b, b3: 0, color_type: 1, alpha: 0xff }
}

/// The opaque RGB render colour of a Windows COLORREF (0x00BBGGRR).
pub open spec fn colorref_color(cr: u32) -> RenderColor {
    rgb_color((cr % 256) as u8, ((cr / 256) % 256) as u8, ((cr / 65536) % 256) as u8)
}

impl RenderColor {
    /// Opaque black RGB, the colour given for anything that cannot be converted.
    pub fn invalid() -> (c: Self)
        ensures
            c == invalid_color(),
    {
        RenderColor { b0: 0, b1: 0, b2: 0, b3: 0, color_type: 1, alpha: 0xff }
    }

    /// An opaque RGB colour.
    pub fn rgb(r: u8, g: u8, b: u8) -> (c: Self)
        ensures
            c == rgb_color(r, g, b),
    {
        RenderColor { b0: r, b1: g, b2: b, b3: 0, color_type: 1, alpha: 0xff }
    }

    /// An opaque CMYK colour.
    pub fn cmyk(c: u8, m: u8, y: u8, k: u8) -> (r: Self)
        ensures
            r == (RenderColor { b0: c, b1: m, b2: y, b3: k, color_type: 0, alpha: 0xff }),
    {
        RenderColor { b0: c, b1: m, b2: y, b3: k, color_type: 0, alpha: 0xff }
    }

    /// The opaque RGB colour of a Windows COLORREF (0x00BBGGRR).
    pub fn from_colorref(cr: u32) -> (c: Self)
        ensures
            c == colorref_color(cr),
    {
        Self::rgb((cr % 256) as u8, ((cr / 256) % 256) as u8, ((cr / 65536) % 256) as u8)
    }
}

/// Gray conversions of render colours, done in place; provided by the renderer. Each
/// conversion's result is named by a spec function of the implementer.
pub trait ColorUtilProvider {
    /// The gray form of `c`.
    spec fn gray_of(&self, c: RenderColor) -> RenderColor;

    /// The light gray form of `c`.
    spec fn light_gray_of(&self, c: RenderColor) -> RenderColor;

    /// The inverse gray form of `c`.
    spec fn inverse_gray_of(&self, c: RenderColor) -> RenderColor;

    /// Converts to gray.
    fn to_gray(&self, color: &mut RenderColor)
        ensures
            *final(color) == self.gray_of(*old(color)),
    ;

    /// Converts to light gray.
    fn to_light_gray(&self, color: &mut RenderColor)
        ensures
            *final(color) == self.light_gray_of(*old(color)),
    ;

    /// Converts to inverse gray.
    fn to_inverse_gray(&self, color: &mut RenderColor)
        ensures
            *final(color) == self.inverse_gray_of(*old(color)),
    ;
}

/// The platform's system colours; provided by the renderer.
pub trait SystemColorProvider {
    /// The COLORREF (0x00BBGGRR) the platform gives for system colour `idx`.
    spec fn sys_color(&self, idx: u32) -> u32;

    /// The COLORREF (0x00BBGGRR) of system colour `idx`.
    fn get_sys_color(&self, idx: u32) -> (r: u32)
        ensures
            r == self.sys_color(idx),
    ;
}

/// A theme's colour mapping; provided by the renderer.
pub trait ColorMapperLike {
    /// The render colour the theme gives scheme slot `scheme_style`, if any.
    spec fn resolve(&self, scheme_style: u32) -> Option<RenderColor>;

    /// The render colour of scheme slot `scheme_style`, or `None` when the theme maps it
    /// to nothing.
    fn try_resolve_scheme(&self, scheme_style: u32) -> (r: Option<RenderColor>)
        ensures
            r == self.resolve(scheme_style),
    ;
}

/// The slot or index a scheme or system colour holds: its first four value bytes,
/// little-endian.
pub open spec fn color_index(c: Color) -> u32 {
    le_u32(c.value[0], c.value[1], c.value[2], c.value[3]) as u32
}

/// `c` with its three colour bytes set, as an RGB colour; alpha and the fourth byte kept.
pub open spec fn solid_over(c: RenderColor, r: u8, g: u8, b: u8) -> RenderColor {
    RenderColor { b0: r, b1: g, b2: b, color_type: 1, ..c }
}

/// `c` with the colour bytes of a COLORREF, as an RGB colour; alpha and the fourth byte
/// kept.
pub open spec fn colorref_over(c: RenderColor, cr: u32) -> RenderColor {
    solid_over(c, (cr % 256) as u8, ((cr / 256) % 256) as u8, ((cr / 65536) % 256) as u8)
}

/// Writes the colour bytes of the COLORREF `cr` into `color`, as RGB; alpha and the
/// fourth byte are kept.
pub fn write_colorref(color: &mut RenderColor, cr: u32)
    ensures
        *final(color) == colorref_over(*old(color), cr),
{
    color.b0 = (cr % 256) as u8;
    color.b1 = ((cr / 256) % 256) as u8;
    color.b2 = ((cr / 65536) % 256) as u8;
    color.color_type = 1;
}

/// Applies render mode `mode` to `color`: 1 to 3 hand the colour to the gray
/// conversions of `color_util`; 4 writes light gray (0xA0), 5 white, 6 black; 7 and 8
/// write system colours 5 and 8; the alpha is kept; any other mode leaves the colour
/// unchanged.
pub fn apply_render_mode<C: ColorUtilProvider, S: SystemColorProvider>(
    color: &mut RenderColor,
    mode: u32,
    color_util: &C,
    sys_provider: &S,
)
    ensures
        (mode == 0 || mode > 8) ==> *final(color) == *old(color),
        mode == 4 ==> *final(color) == solid_over(*old(color), 0xA0, 0xA0, 0xA0),
        mode == 5 ==> *final(color) == solid_over(*old(color), 0xFF, 0xFF, 0xFF),
        mode == 6 ==> *final(color) == solid_over(*old(color), 0, 0, 0),
        mode == 1 ==> *final(color) == color_util.gray_of(*old(color)),
        mode == 2 ==> *final(color) == color_util.light_gray_of(*old(color)),
        mode == 3 ==> *final(color) == color_util.inverse_gray_of(*old(color)),
        mode == 7 ==> *final(color) == colorref_over(*old(color), sys_provider.sys_color(5)),
        mode == 8 ==> *final(color) == colorref_over(*old(color), sys_provider.sys_color(8)),
{
    if mode == 0 || mode > 8 {
        return;
    }
    if mode == 1 {
        color_util.to_gray(color);
    } else if mode == 2 {
        color_util.to_light_gray(color);
    } else if mode == 3 {
        color_util.to_inverse_gray(color);
    } else if mode == 4 {
        color.b0 = 0xA0;
        color.b1 = 0xA0;
        color.b2 = 0xA0;
        color.color_type = 1;
    } else if mode == 5 {
        color.b0 = 0xFF;
        color.b1 = 0xFF;
        color.b2 = 0xFF;
        color.color_type = 1;
    } else if mode == 6 {
        color.b0 = 0;
        color.b1 = 0;
        color.b2 = 0;
        color.color_type = 1;
    } else {
        let idx: u32 = if mode == 7 { 5 } else { 8 };
        let cr = sys_provider.get_sys_color(idx);
        write_colorref(color, cr);
    }
}

/// The render colour of `c` for every colour type that does not depend on an outside
/// provider: RGB and CMYK from the value bytes; preset, scRGB and HSL colours take the
/// bytes `external` (their table entry or floating-point conversion); an unknown type
/// is invalid.
pub open spec fn direct_render_color(c: Color, external: Rgb) -> RenderColor {
    if c.type_tag == crate::color_type::RGB {
        rgb_color(c.value[0], c.value[1], c.value[2])
    } else if c.type_tag == crate::color_type::CMYK {
        RenderColor { b0: c.value[0], b1: c.value[1], b2: c.value[2], b3: c.value[3], color_type: 0, alpha: 0xff }
    } else if c.type_tag == crate::color_type::PRESET || c.type_tag == crate::color_type::SC_RGB
        || c.type_tag == crate::color_type::HSL {
        rgb_color(external.r, external.g, external.b)
    } else {
        invalid_color()
    }
}

/// The render colour of a scheme lookup: the theme's colour, or the invalid colour when
/// the theme maps the slot to nothing.
pub fn scheme_lookup_color(resolved: Option<RenderColor>) -> (r: RenderColor)
    ensures
        r == (match resolved {
            Some(c) => c,
            None => invalid_color(),
        }),
{
    match resolved {
        Some(c) => c,
        None => RenderColor::invalid(),
    }
}

/// Converts a shape colour to a render colour.
///
/// Scheme colours are resolved by `mapper` (invalid without one), system colours by
/// `sys_provider`; preset colours, whose table is kept outside this crate, and the
/// floating-point types scRGB and HSL take the bytes `external` supplied by the caller.
pub fn to_render_color<M: ColorMapperLike, S: SystemColorProvider>(
    color: &Color,
    mapper: Option<&M>,
    sys_provider: &S,
    external: Rgb,
) -> (r: RenderColor)
    ensures
        color.type_tag != crate::color_type::SCHEME && color.type_tag
            != crate::color_type::SYSTEM ==> r == direct_render_color(*color, external),
        color.type_tag == crate::color_type::SCHEME && mapper is None ==> r == invalid_color(),
        color.type_tag == crate::color_type::SCHEME && mapper is Some ==> r == (match mapper.unwrap().resolve(
            color_index(*color),
        ) {
            Some(c) => c,
            None => invalid_color(),
        }),
        color.type_tag == crate::color_type::SYSTEM ==> r == colorref_color(
            sys_provider.sys_color(color_index(*color)),
        ),
{
    let t = color.type_tag;
    if t > 6 {
        return RenderColor::invalid();
    }
    if t == crate::color_type::RGB {
        RenderColor::rgb(color.value[0], color.value[1], color.value[2])
    } else if t == crate::color_type::CMYK {
        RenderColor::cmyk(color.value[0], color.value[1], color.value[2], color.value[3])
    } else if t == crate::color_type::SCHEME {
        match mapper {
            None => RenderColor::invalid(),
            Some(m) => {
                let slot = le_u32_of(color.value[0], color.value[1], color.value[2], color.value[3]);
                let resolved = m.try_resolve_scheme(slot);
                scheme_lookup_color(resolved)
            },
        }
    } else if t == crate::color_type::SYSTEM {
        let idx = le_u32_of(color.value[0], color.value[1], color.value[2], color.value[3]);
        let cr = sys_provider.get_sys_color(idx);
        RenderColor::from_colorref(cr)
    } else {
        RenderColor::rgb(external.r, external.g, external.b)
    }
}

/// Engine class id of a render grayscale effect.
pub const RENDER_GRAYSCALE_VTABLE_ADDR: usize = 0x778c90;

/// Render-side grayscale effect.
#[derive(Debug)]
pub struct RenderGrayscale {
    pub vtable: usize,
    pub state: u8,
}

impl RenderGrayscale {
    /// A grayscale effect in state 0.
    pub fn new() -> (g: Self)
        ensures
            g.vtable == RENDER_GRAYSCALE_VTABLE_ADDR,
            g.state == 0,
    {
        RenderGrayscale { vtable: RENDER_GRAYSCALE_VTABLE_ADDR, state: 0 }
    }
}

/// The render grayscale effect of a shape grayscale effect (which carries no settings).
pub fn to_grayscale(_input_grayscale: &()) -> (g: Box<RenderGrayscale>)
    ensures
        g.vtable == RENDER_GRAYSCALE_VTABLE_ADDR,
        g.state == 0,
{
    Box::new(RenderGrayscale::new())
}

/// Engine class id of a shape bi-level effect.
pub const SHAPE_BILEVEL_VTABLE_ADDR: usize = 0x77aec0;

/// Engine class id of a shape colour-temperature effect.
pub const SHAPE_COLOR_TEMPERATURE_VTABLE_ADDR: usize = 0x77b150;

/// Engine class id of a shape saturation effect.
pub const SHAPE_SATURATION_VTABLE_ADDR: usize = 0x77b1d8;

/// Engine class id of a shape luminance effect.
pub const SHAPE_LUMINANCE_VTABLE_ADDR: usize = 0x77af48;

/// Engine class id of a render bi-level effect.
pub const RENDER_BILEVEL_VTABLE_ADDR: usize = 0x778c30;

/// Engine class id of a render colour-temperature effect.
pub const RENDER_COLOR_TEMPERATURE_VTABLE_ADDR: usize = 0x778918;

/// Engine class id of a render saturation effect.
pub const RENDER_SATURATION_VTABLE_ADDR: usize = 0x7793c0;

/// Engine class id of a render luminance effect.
pub const RENDER_LUMINANCE_VTABLE_ADDR: usize = 0x778db0;

/// Bag key of a bi-level effect's threshold.
pub const KEY_BILEVEL_THRESHOLD: u32 = 0x393;

/// Bag key of a colour-temperature effect's temperature.
pub const KEY_COLOR_TEMPERATURE: u32 = 0x3cd;

/// Bag key of a saturation effect's saturation.
pub const KEY_SATURATION: u32 = 0x3cc;

/// Bag key of a luminance effect's brightness.
pub const KEY_LUMINANCE_BRIGHTNESS: u32 = 0x399;

/// Bag key of a luminance effect's contrast.
pub const KEY_LUMINANCE_CONTRAST: u32 = 0x39a;

/// Shape bi-level (threshold) effect: its settings in a property bag.
#[derive(Debug)]
pub struct ShapeBiLevel {
    pub vtable: usize,
    pub bag: PropertyBag,
}

impl ShapeBiLevel {
    /// An effect with an empty, unmerged bag.
    pub fn new_empty() -> (s: Self)
        ensures
            s.vtable == SHAPE_BILEVEL_VTABLE_ADDR,
            s.bag.ctrl matches Some(i) && !i.merged(),
            bag_map(s.bag) == Map::<KeyView, crate::property::PropertyValue>::empty(),
    {
        ShapeBiLevel { vtable: SHAPE_BILEVEL_VTABLE_ADDR, bag: PropertyBag::new(false) }
    }
}

/// Shape colour-temperature effect: its settings in a property bag.
#[derive(Debug)]
pub struct ShapeColorTemperature {
    pub vtable: usize,
    pub bag: PropertyBag,
}

impl ShapeColorTemperature {
    /// An effect with an empty, unmerged bag.
    pub fn new_empty() -> (s: Self)
        ensures
            s.vtable == SHAPE_COLOR_TEMPERATURE_VTABLE_ADDR,
            s.bag.ctrl matches Some(i) && !i.merged(),
            bag_map(s.bag) == Map::<KeyView, crate::property::PropertyValue>::empty(),
    {
        ShapeColorTemperature {
            vtable: SHAPE_COLOR_TEMPERATURE_VTABLE_ADDR,
            bag: PropertyBag::new(false),
        }
    }
}

/// Shape saturation effect: its settings in a property bag.
#[derive(Debug)]
pub struct ShapeSaturation {
    pub vtable: usize,
    pub bag: PropertyBag,
}

impl ShapeSaturation {
    /// An effect with an empty, unmerged bag.
    pub fn new_empty() -> (s: Self)
        ensures
            s.vtable == SHAPE_SATURATION_VTABLE_ADDR,
            s.bag.ctrl matches Some(i) && !i.merged(),
            bag_map(s.bag) == Map::<KeyView, crate::property::PropertyValue>::empty(),
    {
        ShapeSaturation { vtable: SHAPE_SATURATION_VTABLE_ADDR, bag: PropertyBag::new(false) }
    }
}

/// Shape luminance (brightness and contrast) effect: its settings in a property bag.
#[derive(Debug)]
pub struct ShapeLuminance {
    pub vtable: usize,
    pub bag: PropertyBag,
}

impl ShapeLuminance {
    /// An effect with an empty, unmerged bag.
    pub fn new_empty() -> (s: Self)
        ensures
            s.vtable == SHAPE_LUMINANCE_VTABLE_ADDR,
            s.bag.ctrl matches Some(i) && !i.merged(),
            bag_map(s.bag) == Map::<KeyView, crate::property::PropertyValue>::empty(),
    {
        ShapeLuminance { vtable: SHAPE_LUMINANCE_VTABLE_ADDR, bag: PropertyBag::new(false) }
    }
}

/// Render-side colour-temperature effect.
#[derive(Debug)]
pub struct RenderColorTemperature {
    pub vtable: usize,
    pub temperature: u32,
}

/// The render colour-temperature effect of `input`: the value slot stored under the
/// temperature key, unclamped. The key must be present.
pub fn to_color_temperature(input: &ShapeColorTemperature) -> (r: Box<RenderColorTemperature>)
    requires
        bag_map(input.bag).contains_key(KeyView::Int(KEY_COLOR_TEMPERATURE)),
    ensures
        r.vtable == RENDER_COLOR_TEMPERATURE_VTABLE_ADDR,
        r.temperature == bag_map(input.bag)[KeyView::Int(KEY_COLOR_TEMPERATURE)].value_slot(),
{
    let key = PropertyKey::from_int(KEY_COLOR_TEMPERATURE);
    let temperature = input.bag.get_value_slot(&key);
    Box::new(RenderColorTemperature { vtable: RENDER_COLOR_TEMPERATURE_VTABLE_ADDR, temperature })
}

/// Render-side saturation effect; the saturation is given by the bits of its `f32`
/// value.
#[derive(Debug)]
pub struct RenderSaturation {
    pub vtable: usize,
    pub saturation_bits: u32,
}

/// The render saturation effect of `input`: the value stored under the saturation
/// key, copied unclamped. The key must be present.
pub fn to_saturation(input: &ShapeSaturation) -> (r: Box<RenderSaturation>)
    requires
        bag_map(input.bag).contains_key(KeyView::Int(KEY_SATURATION)),
    ensures
        r.vtable == RENDER_SATURATION_VTABLE_ADDR,
        r.saturation_bits == bag_map(input.bag)[KeyView::Int(KEY_SATURATION)].value_slot(),
{
    let key = PropertyKey::from_int(KEY_SATURATION);
    let saturation_bits = input.bag.get_value_slot(&key);
    Box::new(RenderSaturation { vtable: RENDER_SATURATION_VTABLE_ADDR, saturation_bits })
}

/// The raw value slot stored under integer key `key_id` of `bag`, if present: what the
/// floating-point effect conversions read.
pub fn read_effect_slot(bag: &PropertyBag, key_id: u32) -> (r: Option<u32>)
    ensures
        r == (if bag_map(*bag).contains_key(KeyView::Int(key_id)) {
            Some(bag_map(*bag)[KeyView::Int(key_id)].value_slot())
        } else {
            None
        }),
{
    let key = PropertyKey::from_int(key_id);
    if bag.contains(&key) {
        Some(bag.get_value_slot(&key))
    } else {
        None
    }
}

} // verus!
