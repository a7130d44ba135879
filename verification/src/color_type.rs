use vstd::prelude::*;

verus! {

/// Colour given as red, green, blue bytes.
pub const RGB: u32 = 0;

/// Colour given as cyan, magenta, yellow, black bytes.
pub const CMYK: u32 = 1;

/// Colour given as a slot of the theme's colour scheme.
pub const SCHEME: u32 = 2;

/// Colour given as an index into the platform's system colours.
pub const SYSTEM: u32 = 3;

/// Colour given as an index into the table of preset colours.
pub const PRESET: u32 = 4;

/// Colour given as three linear-light floating-point channels.
pub const SC_RGB: u32 = 5;

/// Colour given as hue, saturation, lightness floating-point values.
pub const HSL: u32 = 6;

} // verus!
