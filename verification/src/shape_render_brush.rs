use vstd::prelude::*;

verus! {

/// Engine class id of a render solid brush.
pub const SOLID_BRUSH_VTABLE_ADDR: usize = 0x779550;

/// Engine class id of a render colour.
pub const COLOR_VTABLE_ADDR: usize = 0x778570;

/// Engine class id of a render gradient brush.
pub const GRADIENT_BRUSH_VTABLE_ADDR: usize = 0x77b730;

/// Engine class id of a render image brush.
pub const IMAGE_BRUSH_VTABLE_ADDR: usize = 0x77c520;

/// Flag byte a render solid brush carries.
pub const SOLID_BRUSH_FLAG: u8 = 0xff;

/// A render colour object: its class id and the eight colour bytes
/// (b0, b1, b2, b3, colour type, alpha, two zero bytes) packed little-endian.
#[derive(Debug)]
pub struct RenderColorCtrl {
    pub vtable: usize,
    pub color_data: u64,
}

/// The counted handle of a render solid brush on its colour.
#[derive(Debug)]
pub struct RenderColorShare {
    pub color_ctrl: Box<RenderColorCtrl>,
    pub refcount: u64,
}

/// A render solid brush: its class id, its colour, and a flag byte.
#[derive(Debug)]
pub struct RenderSolidBrushOuter {
    pub vtable: usize,
    pub inner_share: Box<RenderColorShare>,
    pub flag: u8,
}

/// The counted handle of a render image brush on its image bytes, given as a handle
/// (0 for none).
#[derive(Debug)]
pub struct RenderImageData {
    pub image_bytes: usize,
    pub refcount: u64,
}

/// One stop of a render gradient: its position (an `f32` bit pattern) and its packed
/// render colour.
#[derive(Clone, Copy, Debug, PartialEq, Eq)]
pub struct RenderGradientStop {
    pub position_bits: u32,
    pub render_color: u64,
}

/// The counted handle of a render gradient brush on its stops.
#[derive(Debug)]
pub struct RenderGradientStops {
    pub stops: Vec<RenderGradientStop>,
    pub refcount: u64,
}

/// A render gradient brush: its class id, its stops, and its settings (the angle as an
/// `f32` bit pattern).
#[derive(Debug)]
pub struct RenderGradientBrushOuter {
    pub vtable: usize,
    pub inner_stops: Box<RenderGradientStops>,
    pub style: u32,
    pub angle_bits: u32,
    pub flip: u8,
    pub tile_method: u8,
    pub scaled: u8,
    pub interp: u8,
    pub _pad: [u8; 12],
}

/// A render image brush: its class id, its image bytes, and its tiling (scales and
/// offset as `f32` bit patterns).
#[derive(Debug)]
pub struct RenderImageBrushOuter {
    pub vtable: usize,
    pub inner_image: Box<RenderImageData>,
    pub tile_style: u32,
    pub scale_x_bits: u32,
    pub scale_y_bits: u32,
    pub offset_x_bits: u32,
}

/// A render pen: its class id (none yet, 0), the handle of its render brush, and the
/// flag byte 0xff.
#[derive(Debug)]
pub struct RenderPen {
    pub vtable: usize,
    pub render_brush: usize,
    pub flag: u8,
}

/// Bag key of a solid brush's colour.
pub const KEY_SOLID_COLOR: u32 = 0x259;

/// Bag key of a hatch brush's foreground colour.
pub const KEY_HATCH_FOREGROUND: u32 = 0x25a;

/// Bag key of a hatch brush's background colour.
pub const KEY_HATCH_BACKGROUND: u32 = 0x25b;

/// Bag key of a hatch brush's pattern.
pub const KEY_HATCH_STYLE: u32 = 0x25c;

/// Bag key of a gradient brush's style.
pub const KEY_GRADIENT_STYLE: u32 = 0x25f;

/// Bag key of a gradient brush's angle.
pub const KEY_GRADIENT_ANGLE: u32 = 0x260;

/// Bag key of a gradient brush's flip flag.
pub const KEY_GRADIENT_FLIP: u32 = 0x261;

/// Bag key of a gradient brush's focus rectangle.
pub const KEY_GRADIENT_FOCUS_RECT: u32 = 0x262;

/// Bag key of a gradient brush's tile rectangle.
pub const KEY_GRADIENT_TILE_RECT: u32 = 0x263;

/// Bag key of a gradient brush's tiling method.
pub const KEY_GRADIENT_TILE_METHOD: u32 = 0x264;

/// Bag key of a gradient brush's scaled flag.
pub const KEY_GRADIENT_SCALED: u32 = 0x265;

/// Bag key of a gradient brush's interpolation.
pub const KEY_GRADIENT_INTERP: u32 = 0x267;

/// One question a brush conversion asks the engine, with its arguments.
#[derive(Clone, Copy, Debug, PartialEq, Eq, Structural)]
pub enum DepsCall {
    PropertyColor { brush: usize, key: u32 },
    ToColor { color: u64, mapper: usize, mode: u32, b_force: bool },
    ColorScheme { surface: usize },
    BrushToRender { brush: usize, surface: usize, mode: u32, b_force: bool },
    PenType { pen: usize },
    PropertyU32 { brush: usize, key: u32 },
    PropertyF32 { brush: usize, key: u32 },
    PropertyVec4 { brush: usize, key: u32 },
    StopAt { brush: usize, idx: u64 },
    StopsCount { brush: usize },
    ImageData { image_source: usize },
    ImageSource { brush: usize },
    ImageTile { brush: usize },
}

/// What the brush conversions ask of the engine around them: property reads on a
/// brush, colour conversion, the surface's colour scheme, nested brush conversion and
/// the type of a pen. Objects are passed as opaque handles; floating-point values as
/// `f32` bit patterns.
///
/// Each method's answer is named by a spec function of the implementer (`color_of`,
/// `converted`, ...), read in the state before the call; no call changes any of these
/// answers (see `same_answers`), though an implementer may keep other state, such as a
/// record of the calls.
pub trait ShapeRenderBrushDeps {
    /// The questions asked of the engine so far, in order.
    spec fn calls(&self) -> Vec<DepsCall>;

    /// The packed colour stored under `key` of the brush `brush`.
    spec fn color_of(&self, brush: usize, key: u32) -> u64;

    /// The packed render colour of the packed colour `color` under the colour scheme
    /// `mapper`, in render mode `mode`.
    spec fn converted(&self, color: u64, mapper: usize, mode: u32, b_force: bool) -> u64;

    /// The colour scheme of the surface `surface`.
    spec fn scheme_of(&self, surface: usize) -> usize;

    /// The render brush (a handle) of the brush `brush` on `surface`.
    spec fn render_brush_of(&self, brush: usize, surface: usize, mode: u32, b_force: bool) -> usize;

    /// The type of the pen `pen` (0 for an empty pen).
    spec fn pen_type_of(&self, pen: usize) -> u32;

    /// The integer stored under `key` of the brush `brush`.
    spec fn u32_of(&self, brush: usize, key: u32) -> u32;

    /// The floating-point value (bit pattern) stored under `key` of the brush `brush`.
    spec fn f32_of(&self, brush: usize, key: u32) -> u32;

    /// The four floating-point values (bit patterns) stored under `key` of `brush`.
    spec fn vec4_of(&self, brush: usize, key: u32) -> [u32; 4];

    /// Stop `idx` of the gradient brush `brush`: position bits and packed colour.
    spec fn stop_of(&self, brush: usize, idx: u64) -> (u32, u64);

    /// The number of stops of the gradient brush `brush`.
    spec fn stops_count_of(&self, brush: usize) -> u64;

    /// The image bytes (a handle) of the image source `image_source`.
    spec fn image_data_of(&self, image_source: usize) -> usize;

    /// The image source (a handle) of the image brush `brush`.
    spec fn image_source_of(&self, brush: usize) -> usize;

    /// The tiling of the image brush `brush`: tile style, x and y scale bits and x
    /// offset bits.
    spec fn image_tile_of(&self, brush: usize) -> (u32, u32, u32, u32);

    /// Reads the colour under `key` of `brush`.
    fn brush_property_color(&mut self, brush: usize, key: u32) -> (r: u64)
        ensures
            final(self).calls()@ == old(self).calls()@.push(DepsCall::PropertyColor { brush, key }),
            r == old(self).color_of(brush, key),
            forall|x: usize, k: u32| #[trigger] final(self).color_of(x, k) == old(self).color_of(x, k),
            forall|c: u64, m: usize, md: u32, f: bool| #[trigger] final(self).converted(c, m, md, f) == old(self).converted(c, m, md, f),
            forall|x: usize| #[trigger] final(self).scheme_of(x) == old(self).scheme_of(x),
            forall|x: usize, sf: usize, md: u32, f: bool| #[trigger] final(self).render_brush_of(x, sf, md, f) == old(self).render_brush_of(x, sf, md, f),
            forall|x: usize| #[trigger] final(self).pen_type_of(x) == old(self).pen_type_of(x),
            forall|x: usize, k: u32| #[trigger] final(self).u32_of(x, k) == old(self).u32_of(x, k),
            forall|x: usize, k: u32| #[trigger] final(self).f32_of(x, k) == old(self).f32_of(x, k),
            forall|x: usize, k: u32| #[trigger] final(self).vec4_of(x, k) == old(self).vec4_of(x, k),
            forall|x: usize, i: u64| #[trigger] final(self).stop_of(x, i) == old(self).stop_of(x, i),
            forall|x: usize| #[trigger] final(self).stops_count_of(x) == old(self).stops_count_of(x),
            forall|x: usize| #[trigger] final(self).image_data_of(x) == old(self).image_data_of(x),
            forall|x: usize| #[trigger] final(self).image_source_of(x) == old(self).image_source_of(x),
            forall|x: usize| #[trigger] final(self).image_tile_of(x) == old(self).image_tile_of(x),
    ;

    /// Converts the packed colour `color` to a render colour.
    fn to_color(&mut self, color: u64, mapper: usize, mode: u32, b_force: bool) -> (r: u64)
        ensures
            final(self).calls()@ == old(self).calls()@.push(DepsCall::ToColor { color, mapper, mode, b_force }),
            r == old(self).converted(color, mapper, mode, b_force),
            forall|x: usize, k: u32| #[trigger] final(self).color_of(x, k) == old(self).color_of(x, k),
            forall|c: u64, m: usize, md: u32, f: bool| #[trigger] final(self).converted(c, m, md, f) == old(self).converted(c, m, md, f),
            forall|x: usize| #[trigger] final(self).scheme_of(x) == old(self).scheme_of(x),
            forall|x: usize, sf: usize, md: u32, f: bool| #[trigger] final(self).render_brush_of(x, sf, md, f) == old(self).render_brush_of(x, sf, md, f),
            forall|x: usize| #[trigger] final(self).pen_type_of(x) == old(self).pen_type_of(x),
            forall|x: usize, k: u32| #[trigger] final(self).u32_of(x, k) == old(self).u32_of(x, k),
            forall|x: usize, k: u32| #[trigger] final(self).f32_of(x, k) == old(self).f32_of(x, k),
            forall|x: usize, k: u32| #[trigger] final(self).vec4_of(x, k) == old(self).vec4_of(x, k),
            forall|x: usize, i: u64| #[trigger] final(self).stop_of(x, i) == old(self).stop_of(x, i),
            forall|x: usize| #[trigger] final(self).stops_count_of(x) == old(self).stops_count_of(x),
            forall|x: usize| #[trigger] final(self).image_data_of(x) == old(self).image_data_of(x),
            forall|x: usize| #[trigger] final(self).image_source_of(x) == old(self).image_source_of(x),
            forall|x: usize| #[trigger] final(self).image_tile_of(x) == old(self).image_tile_of(x),
    ;

    /// The colour scheme of `surface`.
    fn surface_get_color_scheme(&mut self, surface: usize) -> (r: usize)
        ensures
            final(self).calls()@ == old(self).calls()@.push(DepsCall::ColorScheme { surface }),
            r == old(self).scheme_of(surface),
            forall|x: usize, k: u32| #[trigger] final(self).color_of(x, k) == old(self).color_of(x, k),
            forall|c: u64, m: usize, md: u32, f: bool| #[trigger] final(self).converted(c, m, md, f) == old(self).converted(c, m, md, f),
            forall|x: usize| #[trigger] final(self).scheme_of(x) == old(self).scheme_of(x),
            forall|x: usize, sf: usize, md: u32, f: bool| #[trigger] final(self).render_brush_of(x, sf, md, f) == old(self).render_brush_of(x, sf, md, f),
            forall|x: usize| #[trigger] final(self).pen_type_of(x) == old(self).pen_type_of(x),
            forall|x: usize, k: u32| #[trigger] final(self).u32_of(x, k) == old(self).u32_of(x, k),
            forall|x: usize, k: u32| #[trigger] final(self).f32_of(x, k) == old(self).f32_of(x, k),
            forall|x: usize, k: u32| #[trigger] final(self).vec4_of(x, k) == old(self).vec4_of(x, k),
            forall|x: usize, i: u64| #[trigger] final(self).stop_of(x, i) == old(self).stop_of(x, i),
            forall|x: usize| #[trigger] final(self).stops_count_of(x) == old(self).stops_count_of(x),
            forall|x: usize| #[trigger] final(self).image_data_of(x) == old(self).image_data_of(x),
            forall|x: usize| #[trigger] final(self).image_source_of(x) == old(self).image_source_of(x),
            forall|x: usize| #[trigger] final(self).image_tile_of(x) == old(self).image_tile_of(x),
    ;

    /// Converts the brush `brush` to a render brush on `surface`.
    fn brush_to_render_brush(&mut self, brush: usize, surface: usize, mode: u32, b_force: bool) -> (r: usize)
        ensures
            final(self).calls()@ == old(self).calls()@.push(DepsCall::BrushToRender { brush, surface, mode, b_force }),
            r == old(self).render_brush_of(brush, surface, mode, b_force),
            forall|x: usize, k: u32| #[trigger] final(self).color_of(x, k) == old(self).color_of(x, k),
            forall|c: u64, m: usize, md: u32, f: bool| #[trigger] final(self).converted(c, m, md, f) == old(self).converted(c, m, md, f),
            forall|x: usize| #[trigger] final(self).scheme_of(x) == old(self).scheme_of(x),
            forall|x: usize, sf: usize, md: u32, f: bool| #[trigger] final(self).render_brush_of(x, sf, md, f) == old(self).render_brush_of(x, sf, md, f),
            forall|x: usize| #[trigger] final(self).pen_type_of(x) == old(self).pen_type_of(x),
            forall|x: usize, k: u32| #[trigger] final(self).u32_of(x, k) == old(self).u32_of(x, k),
            forall|x: usize, k: u32| #[trigger] final(self).f32_of(x, k) == old(self).f32_of(x, k),
            forall|x: usize, k: u32| #[trigger] final(self).vec4_of(x, k) == old(self).vec4_of(x, k),
            forall|x: usize, i: u64| #[trigger] final(self).stop_of(x, i) == old(self).stop_of(x, i),
            forall|x: usize| #[trigger] final(self).stops_count_of(x) == old(self).stops_count_of(x),
            forall|x: usize| #[trigger] final(self).image_data_of(x) == old(self).image_data_of(x),
            forall|x: usize| #[trigger] final(self).image_source_of(x) == old(self).image_source_of(x),
            forall|x: usize| #[trigger] final(self).image_tile_of(x) == old(self).image_tile_of(x),
    ;

    /// The type of `pen`.
    fn pen_get_type(&mut self, pen: usize) -> (r: u32)
        ensures
            final(self).calls()@ == old(self).calls()@.push(DepsCall::PenType { pen }),
            r == old(self).pen_type_of(pen),
            forall|x: usize, k: u32| #[trigger] final(self).color_of(x, k) == old(self).color_of(x, k),
            forall|c: u64, m: usize, md: u32, f: bool| #[trigger] final(self).converted(c, m, md, f) == old(self).converted(c, m, md, f),
            forall|x: usize| #[trigger] final(self).scheme_of(x) == old(self).scheme_of(x),
            forall|x: usize, sf: usize, md: u32, f: bool| #[trigger] final(self).render_brush_of(x, sf, md, f) == old(self).render_brush_of(x, sf, md, f),
            forall|x: usize| #[trigger] final(self).pen_type_of(x) == old(self).pen_type_of(x),
            forall|x: usize, k: u32| #[trigger] final(self).u32_of(x, k) == old(self).u32_of(x, k),
            forall|x: usize, k: u32| #[trigger] final(self).f32_of(x, k) == old(self).f32_of(x, k),
            forall|x: usize, k: u32| #[trigger] final(self).vec4_of(x, k) == old(self).vec4_of(x, k),
            forall|x: usize, i: u64| #[trigger] final(self).stop_of(x, i) == old(self).stop_of(x, i),
            forall|x: usize| #[trigger] final(self).stops_count_of(x) == old(self).stops_count_of(x),
            forall|x: usize| #[trigger] final(self).image_data_of(x) == old(self).image_data_of(x),
            forall|x: usize| #[trigger] final(self).image_source_of(x) == old(self).image_source_of(x),
            forall|x: usize| #[trigger] final(self).image_tile_of(x) == old(self).image_tile_of(x),
    ;

    /// Reads the integer under `key` of `brush`.
    fn brush_property_u32(&mut self, brush: usize, key: u32) -> (r: u32)
        ensures
            final(self).calls()@ == old(self).calls()@.push(DepsCall::PropertyU32 { brush, key }),
            r == old(self).u32_of(brush, key),
            forall|x: usize, k: u32| #[trigger] final(self).color_of(x, k) == old(self).color_of(x, k),
            forall|c: u64, m: usize, md: u32, f: bool| #[trigger] final(self).converted(c, m, md, f) == old(self).converted(c, m, md, f),
            forall|x: usize| #[trigger] final(self).scheme_of(x) == old(self).scheme_of(x),
            forall|x: usize, sf: usize, md: u32, f: bool| #[trigger] final(self).render_brush_of(x, sf, md, f) == old(self).render_brush_of(x, sf, md, f),
            forall|x: usize| #[trigger] final(self).pen_type_of(x) == old(self).pen_type_of(x),
            forall|x: usize, k: u32| #[trigger] final(self).u32_of(x, k) == old(self).u32_of(x, k),
            forall|x: usize, k: u32| #[trigger] final(self).f32_of(x, k) == old(self).f32_of(x, k),
            forall|x: usize, k: u32| #[trigger] final(self).vec4_of(x, k) == old(self).vec4_of(x, k),
            forall|x: usize, i: u64| #[trigger] final(self).stop_of(x, i) == old(self).stop_of(x, i),
            forall|x: usize| #[trigger] final(self).stops_count_of(x) == old(self).stops_count_of(x),
            forall|x: usize| #[trigger] final(self).image_data_of(x) == old(self).image_data_of(x),
            forall|x: usize| #[trigger] final(self).image_source_of(x) == old(self).image_source_of(x),
            forall|x: usize| #[trigger] final(self).image_tile_of(x) == old(self).image_tile_of(x),
    ;

    /// Reads the floating-point value (bit pattern) under `key` of `brush`.
    fn brush_property_f32(&mut self, brush: usize, key: u32) -> (r: u32)
        ensures
            final(self).calls()@ == old(self).calls()@.push(DepsCall::PropertyF32 { brush, key }),
            r == old(self).f32_of(brush, key),
            forall|x: usize, k: u32| #[trigger] final(self).color_of(x, k) == old(self).color_of(x, k),
            forall|c: u64, m: usize, md: u32, f: bool| #[trigger] final(self).converted(c, m, md, f) == old(self).converted(c, m, md, f),
            forall|x: usize| #[trigger] final(self).scheme_of(x) == old(self).scheme_of(x),
            forall|x: usize, sf: usize, md: u32, f: bool| #[trigger] final(self).render_brush_of(x, sf, md, f) == old(self).render_brush_of(x, sf, md, f),
            forall|x: usize| #[trigger] final(self).pen_type_of(x) == old(self).pen_type_of(x),
            forall|x: usize, k: u32| #[trigger] final(self).u32_of(x, k) == old(self).u32_of(x, k),
            forall|x: usize, k: u32| #[trigger] final(self).f32_of(x, k) == old(self).f32_of(x, k),
            forall|x: usize, k: u32| #[trigger] final(self).vec4_of(x, k) == old(self).vec4_of(x, k),
            forall|x: usize, i: u64| #[trigger] final(self).stop_of(x, i) == old(self).stop_of(x, i),
            forall|x: usize| #[trigger] final(self).stops_count_of(x) == old(self).stops_count_of(x),
            forall|x: usize| #[trigger] final(self).image_data_of(x) == old(self).image_data_of(x),
            forall|x: usize| #[trigger] final(self).image_source_of(x) == old(self).image_source_of(x),
            forall|x: usize| #[trigger] final(self).image_tile_of(x) == old(self).image_tile_of(x),
    ;

    /// Reads the four floating-point values (bit patterns) under `key` of `brush`.
    fn brush_property_vec4(&mut self, brush: usize, key: u32) -> (r: [u32; 4])
        ensures
            final(self).calls()@ == old(self).calls()@.push(DepsCall::PropertyVec4 { brush, key }),
            r == old(self).vec4_of(brush, key),
            forall|x: usize, k: u32| #[trigger] final(self).color_of(x, k) == old(self).color_of(x, k),
            forall|c: u64, m: usize, md: u32, f: bool| #[trigger] final(self).converted(c, m, md, f) == old(self).converted(c, m, md, f),
            forall|x: usize| #[trigger] final(self).scheme_of(x) == old(self).scheme_of(x),
            forall|x: usize, sf: usize, md: u32, f: bool| #[trigger] final(self).render_brush_of(x, sf, md, f) == old(self).render_brush_of(x, sf, md, f),
            forall|x: usize| #[trigger] final(self).pen_type_of(x) == old(self).pen_type_of(x),
            forall|x: usize, k: u32| #[trigger] final(self).u32_of(x, k) == old(self).u32_of(x, k),
            forall|x: usize, k: u32| #[trigger] final(self).f32_of(x, k) == old(self).f32_of(x, k),
            forall|x: usize, k: u32| #[trigger] final(self).vec4_of(x, k) == old(self).vec4_of(x, k),
            forall|x: usize, i: u64| #[trigger] final(self).stop_of(x, i) == old(self).stop_of(x, i),
            forall|x: usize| #[trigger] final(self).stops_count_of(x) == old(self).stops_count_of(x),
            forall|x: usize| #[trigger] final(self).image_data_of(x) == old(self).image_data_of(x),
            forall|x: usize| #[trigger] final(self).image_source_of(x) == old(self).image_source_of(x),
            forall|x: usize| #[trigger] final(self).image_tile_of(x) == old(self).image_tile_of(x),
    ;

    /// Reads stop `idx` of the gradient brush `brush`.
    fn brush_gradient_stop_at(&mut self, brush: usize, idx: u64) -> (r: (u32, u64))
        ensures
            final(self).calls()@ == old(self).calls()@.push(DepsCall::StopAt { brush, idx }),
            r == old(self).stop_of(brush, idx),
            forall|x: usize, k: u32| #[trigger] final(self).color_of(x, k) == old(self).color_of(x, k),
            forall|c: u64, m: usize, md: u32, f: bool| #[trigger] final(self).converted(c, m, md, f) == old(self).converted(c, m, md, f),
            forall|x: usize| #[trigger] final(self).scheme_of(x) == old(self).scheme_of(x),
            forall|x: usize, sf: usize, md: u32, f: bool| #[trigger] final(self).render_brush_of(x, sf, md, f) == old(self).render_brush_of(x, sf, md, f),
            forall|x: usize| #[trigger] final(self).pen_type_of(x) == old(self).pen_type_of(x),
            forall|x: usize, k: u32| #[trigger] final(self).u32_of(x, k) == old(self).u32_of(x, k),
            forall|x: usize, k: u32| #[trigger] final(self).f32_of(x, k) == old(self).f32_of(x, k),
            forall|x: usize, k: u32| #[trigger] final(self).vec4_of(x, k) == old(self).vec4_of(x, k),
            forall|x: usize, i: u64| #[trigger] final(self).stop_of(x, i) == old(self).stop_of(x, i),
            forall|x: usize| #[trigger] final(self).stops_count_of(x) == old(self).stops_count_of(x),
            forall|x: usize| #[trigger] final(self).image_data_of(x) == old(self).image_data_of(x),
            forall|x: usize| #[trigger] final(self).image_source_of(x) == old(self).image_source_of(x),
            forall|x: usize| #[trigger] final(self).image_tile_of(x) == old(self).image_tile_of(x),
    ;

    /// Reads the number of stops of the gradient brush `brush`.
    fn brush_gradient_stops_count(&mut self, brush: usize) -> (r: u64)
        ensures
            final(self).calls()@ == old(self).calls()@.push(DepsCall::StopsCount { brush }),
            r == old(self).stops_count_of(brush),
            forall|x: usize, k: u32| #[trigger] final(self).color_of(x, k) == old(self).color_of(x, k),
            forall|c: u64, m: usize, md: u32, f: bool| #[trigger] final(self).converted(c, m, md, f) == old(self).converted(c, m, md, f),
            forall|x: usize| #[trigger] final(self).scheme_of(x) == old(self).scheme_of(x),
            forall|x: usize, sf: usize, md: u32, f: bool| #[trigger] final(self).render_brush_of(x, sf, md, f) == old(self).render_brush_of(x, sf, md, f),
            forall|x: usize| #[trigger] final(self).pen_type_of(x) == old(self).pen_type_of(x),
            forall|x: usize, k: u32| #[trigger] final(self).u32_of(x, k) == old(self).u32_of(x, k),
            forall|x: usize, k: u32| #[trigger] final(self).f32_of(x, k) == old(self).f32_of(x, k),
            forall|x: usize, k: u32| #[trigger] final(self).vec4_of(x, k) == old(self).vec4_of(x, k),
            forall|x: usize, i: u64| #[trigger] final(self).stop_of(x, i) == old(self).stop_of(x, i),
            forall|x: usize| #[trigger] final(self).stops_count_of(x) == old(self).stops_count_of(x),
            forall|x: usize| #[trigger] final(self).image_data_of(x) == old(self).image_data_of(x),
            forall|x: usize| #[trigger] final(self).image_source_of(x) == old(self).image_source_of(x),
            forall|x: usize| #[trigger] final(self).image_tile_of(x) == old(self).image_tile_of(x),
    ;

    /// Reads the image bytes of `image_source`.
    fn render_util_get_image_data(&mut self, image_source: usize) -> (r: usize)
        ensures
            final(self).calls()@ == old(self).calls()@.push(DepsCall::ImageData { image_source }),
            r == old(self).image_data_of(image_source),
            forall|x: usize, k: u32| #[trigger] final(self).color_of(x, k) == old(self).color_of(x, k),
            forall|c: u64, m: usize, md: u32, f: bool| #[trigger] final(self).converted(c, m, md, f) == old(self).converted(c, m, md, f),
            forall|x: usize| #[trigger] final(self).scheme_of(x) == old(self).scheme_of(x),
            forall|x: usize, sf: usize, md: u32, f: bool| #[trigger] final(self).render_brush_of(x, sf, md, f) == old(self).render_brush_of(x, sf, md, f),
            forall|x: usize| #[trigger] final(self).pen_type_of(x) == old(self).pen_type_of(x),
            forall|x: usize, k: u32| #[trigger] final(self).u32_of(x, k) == old(self).u32_of(x, k),
            forall|x: usize, k: u32| #[trigger] final(self).f32_of(x, k) == old(self).f32_of(x, k),
            forall|x: usize, k: u32| #[trigger] final(self).vec4_of(x, k) == old(self).vec4_of(x, k),
            forall|x: usize, i: u64| #[trigger] final(self).stop_of(x, i) == old(self).stop_of(x, i),
            forall|x: usize| #[trigger] final(self).stops_count_of(x) == old(self).stops_count_of(x),
            forall|x: usize| #[trigger] final(self).image_data_of(x) == old(self).image_data_of(x),
            forall|x: usize| #[trigger] final(self).image_source_of(x) == old(self).image_source_of(x),
            forall|x: usize| #[trigger] final(self).image_tile_of(x) == old(self).image_tile_of(x),
    ;

    /// Reads the image source of the image brush `brush`.
    fn brush_image_source(&mut self, brush: usize) -> (r: usize)
        ensures
            final(self).calls()@ == old(self).calls()@.push(DepsCall::ImageSource { brush }),
            r == old(self).image_source_of(brush),
            forall|x: usize, k: u32| #[trigger] final(self).color_of(x, k) == old(self).color_of(x, k),
            forall|c: u64, m: usize, md: u32, f: bool| #[trigger] final(self).converted(c, m, md, f) == old(self).converted(c, m, md, f),
            forall|x: usize| #[trigger] final(self).scheme_of(x) == old(self).scheme_of(x),
            forall|x: usize, sf: usize, md: u32, f: bool| #[trigger] final(self).render_brush_of(x, sf, md, f) == old(self).render_brush_of(x, sf, md, f),
            forall|x: usize| #[trigger] final(self).pen_type_of(x) == old(self).pen_type_of(x),
            forall|x: usize, k: u32| #[trigger] final(self).u32_of(x, k) == old(self).u32_of(x, k),
            forall|x: usize, k: u32| #[trigger] final(self).f32_of(x, k) == old(self).f32_of(x, k),
            forall|x: usize, k: u32| #[trigger] final(self).vec4_of(x, k) == old(self).vec4_of(x, k),
            forall|x: usize, i: u64| #[trigger] final(self).stop_of(x, i) == old(self).stop_of(x, i),
            forall|x: usize| #[trigger] final(self).stops_count_of(x) == old(self).stops_count_of(x),
            forall|x: usize| #[trigger] final(self).image_data_of(x) == old(self).image_data_of(x),
            forall|x: usize| #[trigger] final(self).image_source_of(x) == old(self).image_source_of(x),
            forall|x: usize| #[trigger] final(self).image_tile_of(x) == old(self).image_tile_of(x),
    ;

    /// Reads the tiling of the image brush `brush`.
    fn brush_image_tile(&mut self, brush: usize) -> (r: (u32, u32, u32, u32))
        ensures
            final(self).calls()@ == old(self).calls()@.push(DepsCall::ImageTile { brush }),
            r == old(self).image_tile_of(brush),
            forall|x: usize, k: u32| #[trigger] final(self).color_of(x, k) == old(self).color_of(x, k),
            forall|c: u64, m: usize, md: u32, f: bool| #[trigger] final(self).converted(c, m, md, f) == old(self).converted(c, m, md, f),
            forall|x: usize| #[trigger] final(self).scheme_of(x) == old(self).scheme_of(x),
            forall|x: usize, sf: usize, md: u32, f: bool| #[trigger] final(self).render_brush_of(x, sf, md, f) == old(self).render_brush_of(x, sf, md, f),
            forall|x: usize| #[trigger] final(self).pen_type_of(x) == old(self).pen_type_of(x),
            forall|x: usize, k: u32| #[trigger] final(self).u32_of(x, k) == old(self).u32_of(x, k),
            forall|x: usize, k: u32| #[trigger] final(self).f32_of(x, k) == old(self).f32_of(x, k),
            forall|x: usize, k: u32| #[trigger] final(self).vec4_of(x, k) == old(self).vec4_of(x, k),
            forall|x: usize, i: u64| #[trigger] final(self).stop_of(x, i) == old(self).stop_of(x, i),
            forall|x: usize| #[trigger] final(self).stops_count_of(x) == old(self).stops_count_of(x),
            forall|x: usize| #[trigger] final(self).image_data_of(x) == old(self).image_data_of(x),
            forall|x: usize| #[trigger] final(self).image_source_of(x) == old(self).image_source_of(x),
            forall|x: usize| #[trigger] final(self).image_tile_of(x) == old(self).image_tile_of(x),
    ;
}

/// Two engine states give the same answers to every question the conversions ask.
pub open spec fn same_answers<D: ShapeRenderBrushDeps>(a: D, b: D) -> bool {
    &&& forall|x: usize, k: u32| #[trigger] a.color_of(x, k) == b.color_of(x, k)
    &&& forall|c: u64, m: usize, mode: u32, f: bool| #[trigger] a.converted(c, m, mode, f) == b.converted(c, m, mode, f)
    &&& forall|x: usize| #[trigger] a.scheme_of(x) == b.scheme_of(x)
    &&& forall|x: usize, sf: usize, mode: u32, f: bool| #[trigger] a.render_brush_of(x, sf, mode, f) == b.render_brush_of(x, sf, mode, f)
    &&& forall|x: usize| #[trigger] a.pen_type_of(x) == b.pen_type_of(x)
    &&& forall|x: usize, k: u32| #[trigger] a.u32_of(x, k) == b.u32_of(x, k)
    &&& forall|x: usize, k: u32| #[trigger] a.f32_of(x, k) == b.f32_of(x, k)
    &&& forall|x: usize, k: u32| #[trigger] a.vec4_of(x, k) == b.vec4_of(x, k)
    &&& forall|x: usize, i: u64| #[trigger] a.stop_of(x, i) == b.stop_of(x, i)
    &&& forall|x: usize| #[trigger] a.stops_count_of(x) == b.stops_count_of(x)
    &&& forall|x: usize| #[trigger] a.image_data_of(x) == b.image_data_of(x)
    &&& forall|x: usize| #[trigger] a.image_source_of(x) == b.image_source_of(x)
    &&& forall|x: usize| #[trigger] a.image_tile_of(x) == b.image_tile_of(x)
}

/// The render stop that stop `idx` of `brush` becomes: its position, and its colour
/// converted under `mapper`.
pub open spec fn converted_stop<D: ShapeRenderBrushDeps>(
    d: D,
    brush: usize,
    idx: u64,
    mapper: usize,
    mode: u32,
    b_force: bool,
) -> RenderGradientStop {
    RenderGradientStop {
        position_bits: d.stop_of(brush, idx).0,
        render_color: d.converted(d.stop_of(brush, idx).1, mapper, mode, b_force),
    }
}

/// The questions a solid-brush conversion asks: the colour under 0x259, then its
/// conversion.
pub open spec fn solid_calls<D: ShapeRenderBrushDeps>(d: D, brush: usize, mapper: usize, mode: u32, b_force: bool) -> Seq<DepsCall> {
    seq![
        DepsCall::PropertyColor { brush, key: KEY_SOLID_COLOR },
        DepsCall::ToColor { color: d.color_of(brush, KEY_SOLID_COLOR), mapper, mode, b_force },
    ]
}

/// The questions a hatch-brush conversion asks: the foreground colour (0x25a) and its
/// conversion, the background colour (0x25b) and its conversion, then the pattern
/// (0x25c).
pub open spec fn hatch_calls<D: ShapeRenderBrushDeps>(d: D, brush: usize, mapper: usize, mode: u32, b_force: bool) -> Seq<DepsCall> {
    seq![
        DepsCall::PropertyColor { brush, key: KEY_HATCH_FOREGROUND },
        DepsCall::ToColor { color: d.color_of(brush, KEY_HATCH_FOREGROUND), mapper, mode, b_force },
        DepsCall::PropertyColor { brush, key: KEY_HATCH_BACKGROUND },
        DepsCall::ToColor { color: d.color_of(brush, KEY_HATCH_BACKGROUND), mapper, mode, b_force },
        DepsCall::PropertyColor { brush, key: KEY_HATCH_STYLE },
    ]
}

/// The questions asked for the first `n` gradient stops: each stop, then the
/// conversion of its colour.
pub open spec fn stop_calls<D: ShapeRenderBrushDeps>(
    d: D,
    brush: usize,
    n: nat,
    mapper: usize,
    mode: u32,
    b_force: bool,
) -> Seq<DepsCall>
    decreases n,
{
    if n == 0 {
        Seq::empty()
    } else {
        stop_calls(d, brush, (n - 1) as nat, mapper, mode, b_force) + seq![
            DepsCall::StopAt { brush, idx: (n - 1) as u64 },
            DepsCall::ToColor { color: d.stop_of(brush, (n - 1) as u64).1, mapper, mode, b_force },
        ]
    }
}

proof fn lemma_stop_calls_same_answers<D: ShapeRenderBrushDeps>(
    a: D,
    b: D,
    brush: usize,
    n: nat,
    mapper: usize,
    mode: u32,
    b_force: bool,
)
    requires
        same_answers(a, b),
    ensures
        stop_calls(a, brush, n, mapper, mode, b_force) == stop_calls(b, brush, n, mapper, mode, b_force),
    decreases n,
{
    if n > 0 {
        lemma_stop_calls_same_answers(a, b, brush, (n - 1) as nat, mapper, mode, b_force);
        assert(a.stop_of(brush, (n - 1) as u64) == b.stop_of(brush, (n - 1) as u64));
    }
}

/// The questions a gradient-brush conversion asks: style, angle, flip, focus and tile
/// rectangles, tiling method, scaled flag and stop count, then each stop, then the
/// interpolation.
pub open spec fn gradient_calls<D: ShapeRenderBrushDeps>(d: D, brush: usize, mapper: usize, mode: u32, b_force: bool) -> Seq<DepsCall> {
    seq![
        DepsCall::PropertyU32 { brush, key: KEY_GRADIENT_STYLE },
        DepsCall::PropertyF32 { brush, key: KEY_GRADIENT_ANGLE },
        DepsCall::PropertyU32 { brush, key: KEY_GRADIENT_FLIP },
        DepsCall::PropertyVec4 { brush, key: KEY_GRADIENT_FOCUS_RECT },
        DepsCall::PropertyVec4 { brush, key: KEY_GRADIENT_TILE_RECT },
        DepsCall::PropertyU32 { brush, key: KEY_GRADIENT_TILE_METHOD },
        DepsCall::PropertyU32 { brush, key: KEY_GRADIENT_SCALED },
        DepsCall::StopsCount { brush },
    ] + stop_calls(d, brush, d.stops_count_of(brush) as nat, mapper, mode, b_force) + seq![
        DepsCall::PropertyU32 { brush, key: KEY_GRADIENT_INTERP },
    ]
}

/// The questions an image-brush conversion asks: the image source, its bytes, then the
/// tiling.
pub open spec fn image_calls<D: ShapeRenderBrushDeps>(d: D, brush: usize) -> Seq<DepsCall> {
    seq![
        DepsCall::ImageSource { brush },
        DepsCall::ImageData { image_source: d.image_source_of(brush) },
        DepsCall::ImageTile { brush },
    ]
}

impl RenderSolidBrushOuter {
    /// The render solid brush of the packed render colour `color_data`: the colour
    /// object holds it, its handle counts one, and the brush carries flag 0xff.
    pub fn new(color_data: u64) -> (b: Self)
        ensures
            b.vtable == SOLID_BRUSH_VTABLE_ADDR,
            b.flag == SOLID_BRUSH_FLAG,
            b.inner_share.refcount == 1,
            b.inner_share.color_ctrl.vtable == COLOR_VTABLE_ADDR,
            b.inner_share.color_ctrl.color_data == color_data,
    {
        let color_ctrl = Box::new(RenderColorCtrl { vtable: COLOR_VTABLE_ADDR, color_data });
        let inner_share = Box::new(RenderColorShare { color_ctrl, refcount: 1 });
        RenderSolidBrushOuter { vtable: SOLID_BRUSH_VTABLE_ADDR, inner_share, flag: SOLID_BRUSH_FLAG }
    }
}

/// The render solid brush of the brush `brush`: its colour (key 0x259) read and
/// converted under `mapper`.
pub fn to_solid_brush<D: ShapeRenderBrushDeps>(
    brush: usize,
    mapper: usize,
    mode: u32,
    b_force: bool,
    deps: &mut D,
) -> (r: Box<RenderSolidBrushOuter>)
    ensures
        r.vtable == SOLID_BRUSH_VTABLE_ADDR,
        r.flag == SOLID_BRUSH_FLAG,
        r.inner_share.refcount == 1,
        r.inner_share.color_ctrl.vtable == COLOR_VTABLE_ADDR,
        r.inner_share.color_ctrl.color_data == old(deps).converted(
            old(deps).color_of(brush, KEY_SOLID_COLOR),
            mapper,
            mode,
            b_force,
        ),
        same_answers(*final(deps), *old(deps)),
        final(deps).calls()@ == old(deps).calls()@ + solid_calls(*old(deps), brush, mapper, mode, b_force),
{
    let color = deps.brush_property_color(brush, KEY_SOLID_COLOR);
    let render_color = deps.to_color(color, mapper, mode, b_force);
    Box::new(RenderSolidBrushOuter::new(render_color))
}

/// The render solid brush of the brush `brush` under the colour scheme of `surface`.
pub fn solid_brush_to_render_brush<D: ShapeRenderBrushDeps>(
    brush: usize,
    surface: usize,
    mode: u32,
    b_force: bool,
    deps: &mut D,
) -> (r: Box<RenderSolidBrushOuter>)
    ensures
        r.vtable == SOLID_BRUSH_VTABLE_ADDR,
        r.flag == SOLID_BRUSH_FLAG,
        r.inner_share.refcount == 1,
        r.inner_share.color_ctrl.vtable == COLOR_VTABLE_ADDR,
        r.inner_share.color_ctrl.color_data == old(deps).converted(
            old(deps).color_of(brush, KEY_SOLID_COLOR),
            old(deps).scheme_of(surface),
            mode,
            b_force,
        ),
        same_answers(*final(deps), *old(deps)),
        final(deps).calls()@ == old(deps).calls()@ + seq![DepsCall::ColorScheme { surface }] + solid_calls(*old(deps), brush, old(deps).scheme_of(surface), mode, b_force),
{
    let mapper = deps.surface_get_color_scheme(surface);
    to_solid_brush(brush, mapper, mode, b_force, deps)
}

/// The render brush of the hatch brush `brush`: the foreground (key 0x25a) and
/// background (key 0x25b) colours are read and converted and the pattern (key 0x25c)
/// read; the result carries the converted foreground colour in the solid-brush form.
pub fn to_hatch_brush<D: ShapeRenderBrushDeps>(
    brush: usize,
    mapper: usize,
    mode: u32,
    b_force: bool,
    deps: &mut D,
) -> (r: Box<RenderSolidBrushOuter>)
    ensures
        r.vtable == SOLID_BRUSH_VTABLE_ADDR,
        r.flag == SOLID_BRUSH_FLAG,
        r.inner_share.refcount == 1,
        r.inner_share.color_ctrl.vtable == COLOR_VTABLE_ADDR,
        r.inner_share.color_ctrl.color_data == old(deps).converted(
            old(deps).color_of(brush, KEY_HATCH_FOREGROUND),
            mapper,
            mode,
            b_force,
        ),
        same_answers(*final(deps), *old(deps)),
        final(deps).calls()@ == old(deps).calls()@ + hatch_calls(*old(deps), brush, mapper, mode, b_force),
{
    let fg_color = deps.brush_property_color(brush, KEY_HATCH_FOREGROUND);
    let fg_render = deps.to_color(fg_color, mapper, mode, b_force);
    let bg_color = deps.brush_property_color(brush, KEY_HATCH_BACKGROUND);
    let _bg_render = deps.to_color(bg_color, mapper, mode, b_force);
    let _style = deps.brush_property_color(brush, KEY_HATCH_STYLE);
    Box::new(RenderSolidBrushOuter::new(fg_render))
}

/// The render brush of the hatch brush `brush` under the colour scheme of `surface`.
pub fn hatch_brush_to_render_brush<D: ShapeRenderBrushDeps>(
    brush: usize,
    surface: usize,
    mode: u32,
    b_force: bool,
    deps: &mut D,
) -> (r: Box<RenderSolidBrushOuter>)
    ensures
        r.vtable == SOLID_BRUSH_VTABLE_ADDR,
        r.flag == SOLID_BRUSH_FLAG,
        r.inner_share.refcount == 1,
        r.inner_share.color_ctrl.vtable == COLOR_VTABLE_ADDR,
        r.inner_share.color_ctrl.color_data == old(deps).converted(
            old(deps).color_of(brush, KEY_HATCH_FOREGROUND),
            old(deps).scheme_of(surface),
            mode,
            b_force,
        ),
        same_answers(*final(deps), *old(deps)),
        final(deps).calls()@ == old(deps).calls()@ + seq![DepsCall::ColorScheme { surface }] + hatch_calls(*old(deps), brush, old(deps).scheme_of(surface), mode, b_force),
{
    let mapper = deps.surface_get_color_scheme(surface);
    to_hatch_brush(brush, mapper, mode, b_force, deps)
}

impl RenderGradientBrushOuter {
    /// The render gradient brush with the given settings and stops; the stops' handle
    /// counts one. The integers read for the flip flag, tiling method, scaled flag and
    /// interpolation keep their low byte.
    pub fn new(
        style: u32,
        angle_bits: u32,
        flip: u32,
        tile_method: u32,
        scaled: u32,
        interp: u32,
        stops: Vec<RenderGradientStop>,
    ) -> (b: Self)
        ensures
            b.vtable == GRADIENT_BRUSH_VTABLE_ADDR,
            b.style == style,
            b.angle_bits == angle_bits,
            b.flip == flip % 256,
            b.tile_method == tile_method % 256,
            b.scaled == scaled % 256,
            b.interp == interp % 256,
            b.inner_stops.refcount == 1,
            b.inner_stops.stops@ == stops@,
    {
        let inner_stops = Box::new(RenderGradientStops { stops, refcount: 1 });
        RenderGradientBrushOuter {
            vtable: GRADIENT_BRUSH_VTABLE_ADDR,
            inner_stops,
            style,
            angle_bits,
            flip: (flip % 256) as u8,
            tile_method: (tile_method % 256) as u8,
            scaled: (scaled % 256) as u8,
            interp: (interp % 256) as u8,
            _pad: [0u8; 12],
        }
    }
}

/// The render brush of the gradient brush `brush`: its settings are read (keys 0x25f to
/// 0x265, then 0x267 after the stops), and each of its stops is read and its colour
/// converted under `mapper`, in order.
pub fn to_gradient_brush<D: ShapeRenderBrushDeps>(
    brush: usize,
    mapper: usize,
    mode: u32,
    b_force: bool,
    deps: &mut D,
) -> (r: Box<RenderGradientBrushOuter>)
    ensures
        r.vtable == GRADIENT_BRUSH_VTABLE_ADDR,
        r.inner_stops.refcount == 1,
        r.style == old(deps).u32_of(brush, KEY_GRADIENT_STYLE),
        r.angle_bits == old(deps).f32_of(brush, KEY_GRADIENT_ANGLE),
        r.flip == old(deps).u32_of(brush, KEY_GRADIENT_FLIP) % 256,
        r.tile_method == old(deps).u32_of(brush, KEY_GRADIENT_TILE_METHOD) % 256,
        r.scaled == old(deps).u32_of(brush, KEY_GRADIENT_SCALED) % 256,
        r.interp == old(deps).u32_of(brush, KEY_GRADIENT_INTERP) % 256,
        r.inner_stops.stops@.len() == old(deps).stops_count_of(brush),
        forall|j: int|
            0 <= j < r.inner_stops.stops@.len() ==> #[trigger] r.inner_stops.stops@[j] == converted_stop(
                *old(deps),
                brush,
                j as u64,
                mapper,
                mode,
                b_force,
            ),
        same_answers(*final(deps), *old(deps)),
        final(deps).calls()@ == old(deps).calls()@ + gradient_calls(*old(deps), brush, mapper, mode, b_force),
{
    let ghost d0 = *deps;
    let ghost log0 = deps.calls()@;
    let style = deps.brush_property_u32(brush, KEY_GRADIENT_STYLE);
    let angle_bits = deps.brush_property_f32(brush, KEY_GRADIENT_ANGLE);
    let flip = deps.brush_property_u32(brush, KEY_GRADIENT_FLIP);
    let _focus = deps.brush_property_vec4(brush, KEY_GRADIENT_FOCUS_RECT);
    let _tile_rect = deps.brush_property_vec4(brush, KEY_GRADIENT_TILE_RECT);
    let tile_method = deps.brush_property_u32(brush, KEY_GRADIENT_TILE_METHOD);
    let scaled = deps.brush_property_u32(brush, KEY_GRADIENT_SCALED);
    let count = deps.brush_gradient_stops_count(brush);
    let mut stops: Vec<RenderGradientStop> = Vec::new();
    let mut idx: u64 = 0;
    while idx < count
        invariant
            idx <= count,
            stops@.len() == idx,
            count == d0.stops_count_of(brush),
            same_answers(*deps, d0),
            deps.calls()@ == log0 + seq![
                DepsCall::PropertyU32 { brush, key: KEY_GRADIENT_STYLE },
                DepsCall::PropertyF32 { brush, key: KEY_GRADIENT_ANGLE },
                DepsCall::PropertyU32 { brush, key: KEY_GRADIENT_FLIP },
                DepsCall::PropertyVec4 { brush, key: KEY_GRADIENT_FOCUS_RECT },
                DepsCall::PropertyVec4 { brush, key: KEY_GRADIENT_TILE_RECT },
                DepsCall::PropertyU32 { brush, key: KEY_GRADIENT_TILE_METHOD },
                DepsCall::PropertyU32 { brush, key: KEY_GRADIENT_SCALED },
                DepsCall::StopsCount { brush },
            ] + stop_calls(d0, brush, idx as nat, mapper, mode, b_force),
            forall|j: int| 0 <= j < idx ==> #[trigger] stops@[j] == converted_stop(d0, brush, j as u64, mapper, mode, b_force),
        decreases count - idx,
    {
        let (position_bits, raw_color) = deps.brush_gradient_stop_at(brush, idx);
        let render_color = deps.to_color(raw_color, mapper, mode, b_force);
        stops.push(RenderGradientStop { position_bits, render_color });
        assert(stops@[idx as int] == converted_stop(d0, brush, idx, mapper, mode, b_force));
        idx = idx + 1;
    }
    let interp = deps.brush_property_u32(brush, KEY_GRADIENT_INTERP);
    Box::new(RenderGradientBrushOuter::new(style, angle_bits, flip, tile_method, scaled, interp, stops))
}

/// The render brush of the gradient brush `brush` under the colour scheme of `surface`.
pub fn gradient_brush_to_render_brush<D: ShapeRenderBrushDeps>(
    brush: usize,
    surface: usize,
    mode: u32,
    b_force: bool,
    deps: &mut D,
) -> (r: Box<RenderGradientBrushOuter>)
    ensures
        r.vtable == GRADIENT_BRUSH_VTABLE_ADDR,
        r.inner_stops.refcount == 1,
        r.style == old(deps).u32_of(brush, KEY_GRADIENT_STYLE),
        r.angle_bits == old(deps).f32_of(brush, KEY_GRADIENT_ANGLE),
        r.flip == old(deps).u32_of(brush, KEY_GRADIENT_FLIP) % 256,
        r.tile_method == old(deps).u32_of(brush, KEY_GRADIENT_TILE_METHOD) % 256,
        r.scaled == old(deps).u32_of(brush, KEY_GRADIENT_SCALED) % 256,
        r.interp == old(deps).u32_of(brush, KEY_GRADIENT_INTERP) % 256,
        r.inner_stops.stops@.len() == old(deps).stops_count_of(brush),
        forall|j: int|
            0 <= j < r.inner_stops.stops@.len() ==> #[trigger] r.inner_stops.stops@[j] == converted_stop(
                *old(deps),
                brush,
                j as u64,
                old(deps).scheme_of(surface),
                mode,
                b_force,
            ),
        same_answers(*final(deps), *old(deps)),
        final(deps).calls()@ == old(deps).calls()@ + seq![DepsCall::ColorScheme { surface }] + gradient_calls(*old(deps), brush, old(deps).scheme_of(surface), mode, b_force),
{
    let ghost d0 = *deps;
    let mapper = deps.surface_get_color_scheme(surface);
    proof {
        lemma_stop_calls_same_answers(*deps, d0, brush, d0.stops_count_of(brush) as nat, mapper, mode, b_force);
    }
    to_gradient_brush(brush, mapper, mode, b_force, deps)
}

impl RenderImageBrushOuter {
    /// The render image brush of the image bytes `image_bytes` with the given tiling;
    /// the image's handle counts one.
    pub fn new(image_bytes: usize, tile_style: u32, scale_x_bits: u32, scale_y_bits: u32, offset_x_bits: u32) -> (b: Self)
        ensures
            b.vtable == IMAGE_BRUSH_VTABLE_ADDR,
            b.inner_image.image_bytes == image_bytes,
            b.inner_image.refcount == 1,
            b.tile_style == tile_style,
            b.scale_x_bits == scale_x_bits,
            b.scale_y_bits == scale_y_bits,
            b.offset_x_bits == offset_x_bits,
    {
        RenderImageBrushOuter {
            vtable: IMAGE_BRUSH_VTABLE_ADDR,
            inner_image: Box::new(RenderImageData { image_bytes, refcount: 1 }),
            tile_style,
            scale_x_bits,
            scale_y_bits,
            offset_x_bits,
        }
    }
}

/// The render brush of the image brush `brush`: its image source's bytes and its
/// tiling. Image brushes take no colour mapping, so `mapper`, `mode` and `b_force` are
/// not used.
pub fn to_image_brush<D: ShapeRenderBrushDeps>(
    brush: usize,
    mapper: usize,
    mode: u32,
    b_force: bool,
    deps: &mut D,
) -> (r: Box<RenderImageBrushOuter>)
    ensures
        r.vtable == IMAGE_BRUSH_VTABLE_ADDR,
        r.inner_image.refcount == 1,
        r.inner_image.image_bytes == old(deps).image_data_of(old(deps).image_source_of(brush)),
        (r.tile_style, r.scale_x_bits, r.scale_y_bits, r.offset_x_bits) == old(deps).image_tile_of(brush),
        same_answers(*final(deps), *old(deps)),
        final(deps).calls()@ == old(deps).calls()@ + image_calls(*old(deps), brush),
{
    let image_source = deps.brush_image_source(brush);
    let image_bytes = deps.render_util_get_image_data(image_source);
    let (tile_style, scale_x_bits, scale_y_bits, offset_x_bits) = deps.brush_image_tile(brush);
    Box::new(RenderImageBrushOuter::new(image_bytes, tile_style, scale_x_bits, scale_y_bits, offset_x_bits))
}

/// The render brush of the image brush `brush` under the colour scheme of `surface`.
pub fn image_brush_to_render_brush<D: ShapeRenderBrushDeps>(
    brush: usize,
    surface: usize,
    mode: u32,
    b_force: bool,
    deps: &mut D,
) -> (r: Box<RenderImageBrushOuter>)
    ensures
        r.vtable == IMAGE_BRUSH_VTABLE_ADDR,
        r.inner_image.refcount == 1,
        r.inner_image.image_bytes == old(deps).image_data_of(old(deps).image_source_of(brush)),
        (r.tile_style, r.scale_x_bits, r.scale_y_bits, r.offset_x_bits) == old(deps).image_tile_of(brush),
        same_answers(*final(deps), *old(deps)),
        final(deps).calls()@ == old(deps).calls()@ + seq![DepsCall::ColorScheme { surface }] + image_calls(*old(deps), brush),
{
    let mapper = deps.surface_get_color_scheme(surface);
    to_image_brush(brush, mapper, mode, b_force, deps)
}

impl RenderPen {
    /// The render pen over the render brush `render_brush`.
    pub fn new(render_brush: usize) -> (p: Self)
        ensures
            p.vtable == 0,
            p.render_brush == render_brush,
            p.flag == SOLID_BRUSH_FLAG,
    {
        RenderPen { vtable: 0, render_brush, flag: SOLID_BRUSH_FLAG }
    }
}

/// The render pen of the pen `pen` (a handle, 0 for none) on `surface`: none for a
/// missing or empty (type 0) pen, else a pen over the render brush of its brush.
pub fn pen_to_render_pen<D: ShapeRenderBrushDeps>(
    pen: usize,
    surface: usize,
    mode: u32,
    b_force: bool,
    deps: &mut D,
) -> (r: Option<Box<RenderPen>>)
    ensures
        r is Some <==> (pen != 0 && old(deps).pen_type_of(pen) != 0),
        r matches Some(p) ==> p.vtable == 0 && p.flag == SOLID_BRUSH_FLAG && p.render_brush == old(
            deps,
        ).render_brush_of(pen, surface, mode, b_force),
        same_answers(*final(deps), *old(deps)),
        final(deps).calls()@ == old(deps).calls()@ + (if pen == 0 { Seq::empty() } else if old(deps).pen_type_of(pen) == 0 { seq![DepsCall::PenType { pen }] } else { seq![DepsCall::PenType { pen }, DepsCall::BrushToRender { brush: pen, surface, mode, b_force }] }),
{
    if pen == 0 {
        return None;
    }
    let pen_type = deps.pen_get_type(pen);
    if pen_type == 0 {
        return None;
    }
    let render_brush = deps.brush_to_render_brush(pen, surface, mode, b_force);
    Some(Box::new(RenderPen::new(render_brush)))
}

} // verus!
