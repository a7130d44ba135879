use lib::shape_render_brush::{
    DepsCall,
    gradient_brush_to_render_brush, hatch_brush_to_render_brush, image_brush_to_render_brush,
    pen_to_render_pen, solid_brush_to_render_brush, to_gradient_brush, to_hatch_brush,
    to_image_brush, to_solid_brush, RenderGradientBrushOuter, RenderGradientStop,
    RenderImageBrushOuter, RenderImageData, ShapeRenderBrushDeps, COLOR_VTABLE_ADDR,
    GRADIENT_BRUSH_VTABLE_ADDR, IMAGE_BRUSH_VTABLE_ADDR, SOLID_BRUSH_VTABLE_ADDR,
};

const BRUSH: usize = 0xCAFE;

/// Records the keys read and counts the conversions.
struct TestDeps {
    log: Vec<DepsCall>,
    last_color_key: u32,
    color_keys: Vec<u32>,
    color_returns: u64,
    to_color_returns: u64,
    color_scheme: usize,
    surfaces_asked: Vec<usize>,
    mappers_seen: Vec<usize>,
    brush_to_render_returns: usize,
    pen_type_returns: u32,
    to_color_call_count: u32,
    brush_property_call_count: u32,
}

impl TestDeps {
    fn new() -> Self {
        Self {
            log: Vec::new(),
            last_color_key: 0,
            color_keys: Vec::new(),
            color_returns: 0,
            to_color_returns: 0,
            color_scheme: 0,
            surfaces_asked: Vec::new(),
            mappers_seen: Vec::new(),
            brush_to_render_returns: 0,
            pen_type_returns: 0,
            to_color_call_count: 0,
            brush_property_call_count: 0,
        }
    }
}

impl ShapeRenderBrushDeps for TestDeps {
    fn calls(&self) -> Vec<DepsCall> {
        self.log.clone()
    }
    fn color_of(&self, _: usize, _key: u32) -> u64 {
        self.color_returns
    }
    fn converted(&self, _color: u64, _: usize, _: u32, _: bool) -> u64 {
        self.to_color_returns
    }
    fn scheme_of(&self, _: usize) -> usize {
        self.color_scheme
    }
    fn render_brush_of(&self, _: usize, _: usize, _: u32, _: bool) -> usize {
        self.brush_to_render_returns
    }
    fn pen_type_of(&self, _: usize) -> u32 {
        self.pen_type_returns
    }
    fn u32_of(&self, _: usize, _key: u32) -> u32 {
        0
    }
    fn f32_of(&self, _: usize, _key: u32) -> u32 {
        0
    }
    fn vec4_of(&self, _: usize, _: u32) -> [u32; 4] {
        [0; 4]
    }
    fn stop_of(&self, _: usize, _idx: u64) -> (u32, u64) {
        (0, 0)
    }
    fn stops_count_of(&self, _: usize) -> u64 {
        0
    }
    fn image_data_of(&self, _: usize) -> usize {
        0
    }
    fn image_source_of(&self, _: usize) -> usize {
        0
    }
    fn image_tile_of(&self, _: usize) -> (u32, u32, u32, u32) {
        (0, 1.0f32.to_bits(), 1.0f32.to_bits(), 0)
    }
    fn brush_property_color(&mut self, brush: usize, key: u32) -> u64 {
        self.log.push(DepsCall::PropertyColor { brush, key });
        self.last_color_key = key;
        self.color_keys.push(key);
        self.brush_property_call_count += 1;
        self.color_returns
    }
    fn to_color(&mut self, color: u64, mapper: usize, mode: u32, b_force: bool) -> u64 {
        self.log.push(DepsCall::ToColor { color, mapper, mode, b_force });
        self.to_color_call_count += 1;
        self.mappers_seen.push(mapper);
        self.to_color_returns
    }
    fn surface_get_color_scheme(&mut self, surface: usize) -> usize {
        self.log.push(DepsCall::ColorScheme { surface });
        self.surfaces_asked.push(surface);
        self.color_scheme
    }
    fn brush_to_render_brush(&mut self, brush: usize, surface: usize, mode: u32, b_force: bool) -> usize {
        self.log.push(DepsCall::BrushToRender { brush, surface, mode, b_force });
        self.brush_to_render_returns
    }
    fn pen_get_type(&mut self, pen: usize) -> u32 {
        self.log.push(DepsCall::PenType { pen });
        self.pen_type_returns
    }
    fn brush_property_u32(&mut self, brush: usize, key: u32) -> u32 {
        self.log.push(DepsCall::PropertyU32 { brush, key });
        0
    }
    fn brush_property_f32(&mut self, brush: usize, key: u32) -> u32 {
        self.log.push(DepsCall::PropertyF32 { brush, key });
        0
    }
    fn brush_property_vec4(&mut self, brush: usize, key: u32) -> [u32; 4] {
        self.log.push(DepsCall::PropertyVec4 { brush, key });
        [0; 4]
    }
    fn brush_gradient_stop_at(&mut self, brush: usize, idx: u64) -> (u32, u64) {
        self.log.push(DepsCall::StopAt { brush, idx });
        (0, 0)
    }
    fn brush_gradient_stops_count(&mut self, brush: usize) -> u64 {
        self.log.push(DepsCall::StopsCount { brush });
        0
    }
    fn render_util_get_image_data(&mut self, image_source: usize) -> usize {
        self.log.push(DepsCall::ImageData { image_source });
        0
    }
    fn brush_image_source(&mut self, brush: usize) -> usize {
        self.log.push(DepsCall::ImageSource { brush });
        0
    }
    fn brush_image_tile(&mut self, brush: usize) -> (u32, u32, u32, u32) {
        self.log.push(DepsCall::ImageTile { brush });
        (0, 1.0f32.to_bits(), 1.0f32.to_bits(), 0)
    }
}

/// Answers gradient and image reads from fixed tables and records them.
struct GradImgDeps {
    log: Vec<DepsCall>,
    u32_calls: Vec<(u32, u32)>,
    f32_calls: Vec<(u32, f32)>,
    vec4_calls: Vec<u32>,
    stops: Vec<(f32, u64)>,
    to_color_call_count: u32,
    image_source: usize,
    image_bytes: usize,
    tile_tuple: (u32, f32, f32, f32),
    color_scheme: usize,
}

impl GradImgDeps {
    fn new() -> Self {
        Self {
            log: Vec::new(),
            u32_calls: Vec::new(),
            f32_calls: Vec::new(),
            vec4_calls: Vec::new(),
            stops: Vec::new(),
            to_color_call_count: 0,
            image_source: 0,
            image_bytes: 0,
            tile_tuple: (0, 1.0, 1.0, 0.0),
            color_scheme: 0,
        }
    }
}

impl ShapeRenderBrushDeps for GradImgDeps {
    fn calls(&self) -> Vec<DepsCall> {
        self.log.clone()
    }
    fn color_of(&self, _: usize, _key: u32) -> u64 {
        0
    }
    fn converted(&self, _color: u64, _: usize, _: u32, _: bool) -> u64 {
        (_color << 8) | 0xAA
    }
    fn scheme_of(&self, _: usize) -> usize {
        self.color_scheme
    }
    fn render_brush_of(&self, _: usize, _: usize, _: u32, _: bool) -> usize {
        0
    }
    fn pen_type_of(&self, _: usize) -> u32 {
        0
    }
    fn u32_of(&self, _: usize, _key: u32) -> u32 {
        match _key {
            0x25f => 7,
            0x261 => 1,
            0x264 => 3,
            0x265 => 1,
            0x267 => 2,
            _ => 0,
        }
    }
    fn f32_of(&self, _: usize, _key: u32) -> u32 {
        if _key == 0x260 { 45.0f32.to_bits() } else { 0 }
    }
    fn vec4_of(&self, _: usize, _: u32) -> [u32; 4] {
        [0.5f32.to_bits(); 4]
    }
    fn stop_of(&self, _: usize, _idx: u64) -> (u32, u64) {
        let (p, c) = self.stops[_idx as usize];
        (p.to_bits(), c)
    }
    fn stops_count_of(&self, _: usize) -> u64 {
        self.stops.len() as u64
    }
    fn image_data_of(&self, _: usize) -> usize {
        self.image_bytes
    }
    fn image_source_of(&self, _: usize) -> usize {
        self.image_source
    }
    fn image_tile_of(&self, _: usize) -> (u32, u32, u32, u32) {
        let (t, sx, sy, ox) = self.tile_tuple;
        (t, sx.to_bits(), sy.to_bits(), ox.to_bits())
    }
    fn brush_property_color(&mut self, brush: usize, key: u32) -> u64 {
        self.log.push(DepsCall::PropertyColor { brush, key });
        0
    }
    fn to_color(&mut self, color: u64, mapper: usize, mode: u32, b_force: bool) -> u64 {
        self.log.push(DepsCall::ToColor { color, mapper, mode, b_force });
        self.to_color_call_count += 1;
        (color << 8) | 0xAA
    }
    fn surface_get_color_scheme(&mut self, surface: usize) -> usize {
        self.log.push(DepsCall::ColorScheme { surface });
        self.color_scheme
    }
    fn brush_to_render_brush(&mut self, brush: usize, surface: usize, mode: u32, b_force: bool) -> usize {
        self.log.push(DepsCall::BrushToRender { brush, surface, mode, b_force });
        0
    }
    fn pen_get_type(&mut self, pen: usize) -> u32 {
        self.log.push(DepsCall::PenType { pen });
        0
    }
    fn brush_property_u32(&mut self, brush: usize, key: u32) -> u32 {
        self.log.push(DepsCall::PropertyU32 { brush, key });
        let v = match key {
            0x25f => 7,
            0x261 => 1,
            0x264 => 3,
            0x265 => 1,
            0x267 => 2,
            _ => 0,
        };
        self.u32_calls.push((key, v));
        v
    }
    fn brush_property_f32(&mut self, brush: usize, key: u32) -> u32 {
        self.log.push(DepsCall::PropertyF32 { brush, key });
        let v: f32 = match key {
            0x260 => 45.0,
            _ => 0.0,
        };
        self.f32_calls.push((key, v));
        v.to_bits()
    }
    fn brush_property_vec4(&mut self, brush: usize, key: u32) -> [u32; 4] {
        self.log.push(DepsCall::PropertyVec4 { brush, key });
        self.vec4_calls.push(key);
        [0.5f32.to_bits(); 4]
    }
    fn brush_gradient_stops_count(&mut self, brush: usize) -> u64 {
        self.log.push(DepsCall::StopsCount { brush });
        self.stops.len() as u64
    }
    fn brush_gradient_stop_at(&mut self, brush: usize, idx: u64) -> (u32, u64) {
        self.log.push(DepsCall::StopAt { brush, idx });
        let (p, c) = self.stops[idx as usize];
        (p.to_bits(), c)
    }
    fn render_util_get_image_data(&mut self, image_source: usize) -> usize {
        self.log.push(DepsCall::ImageData { image_source });
        self.image_bytes
    }
    fn brush_image_source(&mut self, brush: usize) -> usize {
        self.log.push(DepsCall::ImageSource { brush });
        self.image_source
    }
    fn brush_image_tile(&mut self, brush: usize) -> (u32, u32, u32, u32) {
        self.log.push(DepsCall::ImageTile { brush });
        let (t, sx, sy, ox) = self.tile_tuple;
        (t, sx.to_bits(), sy.to_bits(), ox.to_bits())
    }
}

/// Holds no property: every read answers zero (scales 1.0).
#[derive(Default)]
struct Bare {
    log: Vec<DepsCall>,
}
impl ShapeRenderBrushDeps for Bare {
    fn calls(&self) -> Vec<DepsCall> {
        self.log.clone()
    }
    fn color_of(&self, _: usize, _key: u32) -> u64 {
        0
    }
    fn converted(&self, _color: u64, _: usize, _: u32, _: bool) -> u64 {
        0
    }
    fn scheme_of(&self, _: usize) -> usize {
        0
    }
    fn render_brush_of(&self, _: usize, _: usize, _: u32, _: bool) -> usize {
        0
    }
    fn pen_type_of(&self, _: usize) -> u32 {
        0
    }
    fn u32_of(&self, _: usize, _key: u32) -> u32 {
        0
    }
    fn f32_of(&self, _: usize, _key: u32) -> u32 {
        0
    }
    fn vec4_of(&self, _: usize, _: u32) -> [u32; 4] {
        [0; 4]
    }
    fn stop_of(&self, _: usize, _idx: u64) -> (u32, u64) {
        (0, 0)
    }
    fn stops_count_of(&self, _: usize) -> u64 {
        0
    }
    fn image_data_of(&self, _: usize) -> usize {
        0
    }
    fn image_source_of(&self, _: usize) -> usize {
        0
    }
    fn image_tile_of(&self, _: usize) -> (u32, u32, u32, u32) {
        (0, 1.0f32.to_bits(), 1.0f32.to_bits(), 0)
    }
    fn brush_property_color(&mut self, brush: usize, key: u32) -> u64 {
        self.log.push(DepsCall::PropertyColor { brush, key });
        0
    }
    fn to_color(&mut self, color: u64, mapper: usize, mode: u32, b_force: bool) -> u64 {
        self.log.push(DepsCall::ToColor { color, mapper, mode, b_force });
        0
    }
    fn surface_get_color_scheme(&mut self, surface: usize) -> usize {
        self.log.push(DepsCall::ColorScheme { surface });
        0
    }
    fn brush_to_render_brush(&mut self, brush: usize, surface: usize, mode: u32, b_force: bool) -> usize {
        self.log.push(DepsCall::BrushToRender { brush, surface, mode, b_force });
        0
    }
    fn pen_get_type(&mut self, pen: usize) -> u32 {
        self.log.push(DepsCall::PenType { pen });
        0
    }
    fn brush_property_u32(&mut self, brush: usize, key: u32) -> u32 {
        self.log.push(DepsCall::PropertyU32 { brush, key });
        0
    }
    fn brush_property_f32(&mut self, brush: usize, key: u32) -> u32 {
        self.log.push(DepsCall::PropertyF32 { brush, key });
        0
    }
    fn brush_property_vec4(&mut self, brush: usize, key: u32) -> [u32; 4] {
        self.log.push(DepsCall::PropertyVec4 { brush, key });
        [0; 4]
    }
    fn brush_gradient_stop_at(&mut self, brush: usize, idx: u64) -> (u32, u64) {
        self.log.push(DepsCall::StopAt { brush, idx });
        (0, 0)
    }
    fn brush_gradient_stops_count(&mut self, brush: usize) -> u64 {
        self.log.push(DepsCall::StopsCount { brush });
        0
    }
    fn render_util_get_image_data(&mut self, image_source: usize) -> usize {
        self.log.push(DepsCall::ImageData { image_source });
        0
    }
    fn brush_image_source(&mut self, brush: usize) -> usize {
        self.log.push(DepsCall::ImageSource { brush });
        0
    }
    fn brush_image_tile(&mut self, brush: usize) -> (u32, u32, u32, u32) {
        self.log.push(DepsCall::ImageTile { brush });
        (0, 1.0f32.to_bits(), 1.0f32.to_bits(), 0)
    }
}

#[test]
fn to_solid_brush_reads_key_0x259_and_calls_to_color_once() {
    let mut deps = TestDeps::new();
    deps.color_returns = 0x11223344_55667788;
    deps.to_color_returns = 0xff_0a_01020304;
    let outer = to_solid_brush(BRUSH, 0, 0, false, &mut deps);
    assert_eq!(deps.last_color_key, 0x259);
    assert_eq!(deps.to_color_call_count, 1);
    assert_eq!(outer.vtable, SOLID_BRUSH_VTABLE_ADDR);
    assert_eq!(outer.flag, 0xff);
    assert_eq!(outer.inner_share.refcount, 1);
    assert_eq!(outer.inner_share.color_ctrl.vtable, COLOR_VTABLE_ADDR);
    assert_eq!(outer.inner_share.color_ctrl.color_data, 0xff_0a_01020304);
}

#[test]
fn solid_brush_to_render_brush_uses_surface_color_scheme() {
    let mut deps = TestDeps::new();
    deps.color_scheme = 0xC0_1010;
    deps.color_returns = 1;
    let outer = solid_brush_to_render_brush(BRUSH, 0x5_FACE, 0, false, &mut deps);
    assert_eq!(outer.vtable, SOLID_BRUSH_VTABLE_ADDR);
    assert_eq!(deps.surfaces_asked, vec![0x5_FACE]);
    assert_eq!(deps.mappers_seen, vec![0xC0_1010]);
}

#[test]
fn to_hatch_brush_reads_3_color_keys_0x25a_25b_25c() {
    let mut deps = TestDeps::new();
    let outer = to_hatch_brush(BRUSH, 0, 0, false, &mut deps);
    assert_eq!(outer.vtable, SOLID_BRUSH_VTABLE_ADDR);
    assert_eq!(deps.brush_property_call_count, 3);
    assert_eq!(deps.color_keys, vec![0x25a, 0x25b, 0x25c]);
    assert!(deps.to_color_call_count >= 2);
}

#[test]
fn hatch_brush_to_render_brush_uses_surface_color_scheme() {
    let mut deps = TestDeps::new();
    deps.color_scheme = 0x77;
    deps.to_color_returns = 0x1234;
    let outer = hatch_brush_to_render_brush(BRUSH, 0x5_FACE, 0, false, &mut deps);
    assert_eq!(deps.surfaces_asked, vec![0x5_FACE]);
    assert_eq!(deps.mappers_seen, vec![0x77, 0x77]);
    assert_eq!(outer.inner_share.color_ctrl.color_data, 0x1234);
}

#[test]
fn pen_to_render_pen_empty_pen_returns_null() {
    let mut deps = TestDeps::new();
    deps.pen_type_returns = 0;
    let r = pen_to_render_pen(0xBEEF, 0, 0, false, &mut deps);
    assert!(r.is_none());
}

#[test]
fn pen_to_render_pen_missing_pen_returns_none() {
    let mut deps = TestDeps::new();
    deps.pen_type_returns = 1;
    assert!(pen_to_render_pen(0, 0, 0, false, &mut deps).is_none());
}

#[test]
fn pen_to_render_pen_valid_pen_invokes_brush_to_render() {
    let mut deps = TestDeps::new();
    deps.pen_type_returns = 1;
    deps.brush_to_render_returns = 0xB0B;
    let r = pen_to_render_pen(0xBEEF, 0, 0, false, &mut deps).expect("a render pen");
    assert_eq!(r.render_brush, 0xB0B);
    assert_eq!(r.flag, 0xff);
}

#[test]
fn render_gradient_outer_layout_40b() {
    assert_eq!(std::mem::size_of::<RenderGradientBrushOuter>(), 40);
    assert_eq!(std::mem::size_of::<RenderGradientStop>(), 16);
}

#[test]
fn render_image_outer_layout_32b() {
    assert_eq!(std::mem::size_of::<RenderImageBrushOuter>(), 32);
    assert_eq!(std::mem::size_of::<RenderImageData>(), 16);
}

#[test]
fn to_gradient_brush_reads_all_9_property_keys_and_iterates_stops() {
    let mut deps = GradImgDeps::new();
    deps.stops = vec![(0.0, 0x10), (0.5, 0x20), (1.0, 0x30)];
    let outer = to_gradient_brush(BRUSH, 0, 0, false, &mut deps);

    let u32_keys: Vec<u32> = deps.u32_calls.iter().map(|&(k, _)| k).collect();
    assert_eq!(u32_keys, vec![0x25f, 0x261, 0x264, 0x265, 0x267]);
    let f32_keys: Vec<u32> = deps.f32_calls.iter().map(|&(k, _)| k).collect();
    assert_eq!(f32_keys, vec![0x260]);
    assert_eq!(deps.vec4_calls, vec![0x262, 0x263]);
    assert_eq!(deps.to_color_call_count, 3);

    assert_eq!(outer.vtable, GRADIENT_BRUSH_VTABLE_ADDR);
    assert_eq!(outer.style, 7);
    assert_eq!(f32::from_bits(outer.angle_bits), 45.0);
    assert_eq!(outer.flip, 1);
    assert_eq!(outer.tile_method, 3);
    assert_eq!(outer.scaled, 1);
    assert_eq!(outer.interp, 2);

    let inner = &outer.inner_stops;
    assert_eq!(inner.stops.len(), 3);
    assert_eq!(inner.refcount, 1);
    for i in 0..3 {
        let s = inner.stops[i];
        let (raw_pos, raw_color) = deps.stops[i];
        assert_eq!(f32::from_bits(s.position_bits), raw_pos);
        assert_eq!(s.render_color, (raw_color << 8) | 0xAA);
    }
}

#[test]
fn to_gradient_brush_zero_stops_has_null_stops_ptr() {
    let mut deps = GradImgDeps::new();
    let outer = to_gradient_brush(BRUSH, 0, 0, false, &mut deps);
    assert_eq!(outer.inner_stops.stops.len(), 0);
    assert!(outer.inner_stops.stops.is_empty());
    assert_eq!(deps.to_color_call_count, 0);
}

#[test]
fn gradient_brush_to_render_brush_uses_surface_color_scheme() {
    let mut deps = GradImgDeps::new();
    deps.color_scheme = 0xC0_1010;
    let outer = gradient_brush_to_render_brush(BRUSH, 0x5_FACE, 0, false, &mut deps);
    assert_eq!(outer.vtable, GRADIENT_BRUSH_VTABLE_ADDR);
    assert_eq!(outer.inner_stops.refcount, 1);
}

#[test]
fn gradient_brush_keeps_low_byte_of_settings() {
    let b = RenderGradientBrushOuter::new(9, 0, 0x1_01, 0x2_03, 0x3_01, 0x4_02, Vec::new());
    assert_eq!((b.flip, b.tile_method, b.scaled, b.interp), (1, 3, 1, 2));
    assert_eq!(b.style, 9);
}

#[test]
fn to_image_brush_invokes_image_source_and_get_image_data() {
    let mut deps = GradImgDeps::new();
    deps.image_source = 0x1111;
    deps.image_bytes = 0xAABB_CCDD;
    deps.tile_tuple = (5, 2.0, 3.0, 7.0);
    let outer = to_image_brush(BRUSH, 0, 0, false, &mut deps);
    assert_eq!(outer.vtable, IMAGE_BRUSH_VTABLE_ADDR);
    assert_eq!(outer.tile_style, 5);
    assert_eq!(f32::from_bits(outer.scale_x_bits), 2.0);
    assert_eq!(f32::from_bits(outer.scale_y_bits), 3.0);
    assert_eq!(f32::from_bits(outer.offset_x_bits), 7.0);
    assert_eq!(outer.inner_image.refcount, 1);
    assert_eq!(outer.inner_image.image_bytes, 0xAABB_CCDD);
}

#[test]
fn image_brush_to_render_brush_uses_surface_color_scheme() {
    let mut deps = GradImgDeps::new();
    deps.color_scheme = 0xC0_1010;
    let outer = image_brush_to_render_brush(BRUSH, 0x5_FACE, 0, false, &mut deps);
    assert_eq!(outer.vtable, IMAGE_BRUSH_VTABLE_ADDR);
    assert_eq!(outer.inner_image.refcount, 1);
}

#[test]
fn image_brush_default_tiling_is_unit_scale() {
    let outer = to_image_brush(BRUSH, 0, 0, false, &mut Bare::default());
    assert_eq!(f32::from_bits(outer.scale_x_bits), 1.0);
    assert_eq!(f32::from_bits(outer.scale_y_bits), 1.0);
    assert_eq!(f32::from_bits(outer.offset_x_bits), 0.0);
    assert_eq!(outer.inner_image.image_bytes, 0);
}

#[test]
fn to_hatch_brush_asks_foreground_background_then_pattern() {
    let mut deps = TestDeps::new();
    deps.color_returns = 5;
    let _ = to_hatch_brush(BRUSH, 9, 2, true, &mut deps);
    assert_eq!(
        deps.log,
        vec![
            DepsCall::PropertyColor { brush: BRUSH, key: 0x25a },
            DepsCall::ToColor { color: 5, mapper: 9, mode: 2, b_force: true },
            DepsCall::PropertyColor { brush: BRUSH, key: 0x25b },
            DepsCall::ToColor { color: 5, mapper: 9, mode: 2, b_force: true },
            DepsCall::PropertyColor { brush: BRUSH, key: 0x25c },
        ]
    );
}

#[test]
fn pen_to_render_pen_asks_type_then_brush() {
    let mut deps = TestDeps::new();
    deps.pen_type_returns = 1;
    let _ = pen_to_render_pen(0x77, 0x55, 3, false, &mut deps);
    assert_eq!(
        deps.log,
        vec![
            DepsCall::PenType { pen: 0x77 },
            DepsCall::BrushToRender { brush: 0x77, surface: 0x55, mode: 3, b_force: false },
        ]
    );
}
