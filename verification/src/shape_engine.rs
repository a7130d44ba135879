use vstd::prelude::*;

verus! {

/// Bits of the `f32` value 1.0, the resolution a new engine starts with.
pub const ONE_BITS: u32 = 0x3f80_0000;

/// The drawing engine's settings: whether it was started, its unit (the logical DPI)
/// and resolution (each by the bits of its `f32` value), handles of its catalog and
/// theme, its resource path bytes and whether the XBox mode is on.
#[derive(Debug)]
pub struct ShapeEngine {
    pub is_started: bool,
    pub unit_bits: u32,
    pub catalog_ptr: usize,
    pub theme_ptr: usize,
    pub common_path: [u8; 16],
    pub is_enable_xbox: bool,
    pub resolution_bits: u32,
}

impl ShapeEngine {
    /// A stopped engine with the given unit, no catalog or theme, an empty path, the
    /// XBox mode on and a resolution of 1.0.
    pub fn new(unit_bits: u32) -> (e: Self)
        ensures
            !e.is_started,
            e.unit_bits == unit_bits,
            e.catalog_ptr == 0,
            e.theme_ptr == 0,
            e.common_path@ == Seq::new(16, |i: int| 0u8),
            e.is_enable_xbox,
            e.resolution_bits == ONE_BITS,
    {
        let e = ShapeEngine {
            is_started: false,
            unit_bits,
            catalog_ptr: 0,
            theme_ptr: 0,
            common_path: [0u8; 16],
            is_enable_xbox: true,
            resolution_bits: ONE_BITS,
        };
        assert(e.common_path@ =~= Seq::new(16, |i: int| 0u8));
        e
    }

    /// The bits of the logical DPI (the unit).
    pub fn get_logical_dpi_bits(&self) -> (b: u32)
        ensures
            b == self.unit_bits,
    {
        self.unit_bits
    }

    /// The bits of the resolution.
    pub fn get_resolution_bits(&self) -> (b: u32)
        ensures
            b == self.resolution_bits,
    {
        self.resolution_bits
    }

    /// Sets the unit; nothing else changes.
    pub fn set_unit_bits(&mut self, unit_bits: u32)
        ensures
            *final(self) == (ShapeEngine { unit_bits, ..*old(self) }),
    {
        self.unit_bits = unit_bits;
    }

    /// Sets the resolution; nothing else changes.
    pub fn set_resolution_bits(&mut self, resolution_bits: u32)
        ensures
            *final(self) == (ShapeEngine { resolution_bits, ..*old(self) }),
    {
        self.resolution_bits = resolution_bits;
    }

    /// Whether the engine was started.
    pub fn is_started(&self) -> (b: bool)
        ensures
            b == self.is_started,
    {
        self.is_started
    }

    /// Whether the XBox mode is on.
    pub fn is_enable_xbox(&self) -> (b: bool)
        ensures
            b == self.is_enable_xbox,
    {
        self.is_enable_xbox
    }

    /// Turns the XBox mode on or off; nothing else changes.
    pub fn set_enable_xbox(&mut self, enable: bool)
        ensures
            *final(self) == (ShapeEngine { is_enable_xbox: enable, ..*old(self) }),
    {
        self.is_enable_xbox = enable;
    }
}

} // verus!
