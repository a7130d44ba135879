use vstd::prelude::*;
use crate::scheme_style::SchemeStyle;

verus! {

/// Red, green and blue bytes of a colour.
#[derive(Clone, Copy, Debug, PartialEq, Eq, Structural)]
pub struct Rgb {
    pub r: u8,
    pub g: u8,
    pub b: u8,
}

/// A shape colour: a 12-byte value read according to its colour type (see
/// `color_type`).
///
/// RGB stores `r, g, b` in its first three bytes, CMYK stores `c, m, y, k` in its first
/// four, scheme, system and preset colours store their index as a little-endian `u32`
/// in the first four bytes, and the floating-point types store three little-endian
/// `f32` values.
#[derive(Clone, Copy, Debug)]
pub struct Color {
    pub value: [u8; 12],
    pub type_tag: u32,
}

/// The little-endian `u32` made of four bytes.
pub open spec fn le_u32(b0: u8, b1: u8, b2: u8, b3: u8) -> int {
    b0 + 256 * b1 + 65536 * b2 + 16777216 * b3
}

/// Colour equality: same colour type and same value bytes.
pub open spec fn same_color(a: Color, b: Color) -> bool {
    a.type_tag == b.type_tag && a.value@ == b.value@
}

/// The lexicographic order of two byte sequences of equal length.
pub open spec fn bytes_before(a: Seq<u8>, b: Seq<u8>) -> bool {
    exists|i: int|
        0 <= i < a.len() && i < b.len() && a[i] < b[i] && forall|j: int|
            0 <= j < i ==> a[j] == b[j]
}

/// Colour order: by colour type, then by value bytes.
pub open spec fn color_before(a: Color, b: Color) -> bool {
    a.type_tag < b.type_tag || (a.type_tag == b.type_tag && bytes_before(
        a.value@,
        b.value@,
    ))
}

/// The four bytes of `v`, least significant first.
pub(crate) fn u32_le_bytes(v: u32) -> (r: [u8; 4])
    ensures
        le_u32(r[0], r[1], r[2], r[3]) == v,
{
    let b0 = (v % 256) as u8;
    let b1 = ((v / 256) % 256) as u8;
    let b2 = ((v / 65536) % 256) as u8;
    let b3 = (v / 16777216) as u8;
    [b0, b1, b2, b3]
}

/// The little-endian `u32` of four bytes.
pub fn le_u32_of(b0: u8, b1: u8, b2: u8, b3: u8) -> (r: u32)
    ensures
        r == le_u32(b0, b1, b2, b3),
{
    b0 as u32 + 256 * (b1 as u32) + 65536 * (b2 as u32) + 16777216 * (b3 as u32)
}

impl Color {
    /// A colour with the given type and value bytes.
    pub fn from_raw(type_tag: u32, value: [u8; 12]) -> (c: Self)
        ensures
            c.type_tag == type_tag,
            c.value == value,
    {
        Color { value, type_tag }
    }

    /// An RGB colour.
    pub fn from_rgb(r: u8, g: u8, b: u8) -> (c: Self)
        ensures
            c.type_tag == crate::color_type::RGB,
            c.value@ == seq![r, g, b, 0u8, 0u8, 0u8, 0u8, 0u8, 0u8, 0u8, 0u8, 0u8],
    {
        let c = Color { value: [r, g, b, 0, 0, 0, 0, 0, 0, 0, 0, 0], type_tag: crate::color_type::RGB };
        assert(c.value@ =~= seq![r, g, b, 0u8, 0u8, 0u8, 0u8, 0u8, 0u8, 0u8, 0u8, 0u8]);
        c
    }

    /// A CMYK colour.
    pub fn from_cmyk(c: u8, m: u8, y: u8, k: u8) -> (r: Self)
        ensures
            r.type_tag == crate::color_type::CMYK,
            r.value@ == seq![c, m, y, k, 0u8, 0u8, 0u8, 0u8, 0u8, 0u8, 0u8, 0u8],
    {
        let r = Color { value: [c, m, y, k, 0, 0, 0, 0, 0, 0, 0, 0], type_tag: crate::color_type::CMYK };
        assert(r.value@ =~= seq![c, m, y, k, 0u8, 0u8, 0u8, 0u8, 0u8, 0u8, 0u8, 0u8]);
        r
    }

    fn from_index(type_tag: u32, index: u32) -> (c: Self)
        ensures
            c.type_tag == type_tag,
            le_u32(c.value[0], c.value[1], c.value[2], c.value[3]) == index,
            forall|i: int| 4 <= i < 12 ==> c.value[i] == 0,
    {
        let b = u32_le_bytes(index);
        Color { value: [b[0], b[1], b[2], b[3], 0, 0, 0, 0, 0, 0, 0, 0], type_tag }
    }

    /// The system colour with index `index`.
    pub fn from_system_style(index: u32) -> (c: Self)
        ensures
            c.type_tag == crate::color_type::SYSTEM,
            le_u32(c.value[0], c.value[1], c.value[2], c.value[3]) == index,
            forall|i: int| 4 <= i < 12 ==> c.value[i] == 0,
    {
        Self::from_index(crate::color_type::SYSTEM, index)
    }

    /// The preset colour with index `index`.
    pub fn from_preset_style(index: u32) -> (c: Self)
        ensures
            c.type_tag == crate::color_type::PRESET,
            le_u32(c.value[0], c.value[1], c.value[2], c.value[3]) == index,
            forall|i: int| 4 <= i < 12 ==> c.value[i] == 0,
    {
        Self::from_index(crate::color_type::PRESET, index)
    }

    /// The scheme colour with raw slot number `slot`.
    pub fn from_scheme_raw_u32(slot: u32) -> (c: Self)
        ensures
            c.type_tag == crate::color_type::SCHEME,
            le_u32(c.value[0], c.value[1], c.value[2], c.value[3]) == slot,
            forall|i: int| 4 <= i < 12 ==> c.value[i] == 0,
    {
        Self::from_index(crate::color_type::SCHEME, slot)
    }

    /// The scheme colour of slot `style`.
    pub fn from_scheme_style(style: SchemeStyle) -> (c: Self)
        ensures
            c.type_tag == crate::color_type::SCHEME,
            le_u32(c.value[0], c.value[1], c.value[2], c.value[3]) == style.number(),
            forall|i: int| 4 <= i < 12 ==> c.value[i] == 0,
    {
        Self::from_index(crate::color_type::SCHEME, style.as_u32())
    }

    /// The first three value bytes, read as red, green, blue.
    pub fn get_rgb(&self) -> (r: Rgb)
        ensures
            r.r == self.value[0],
            r.g == self.value[1],
            r.b == self.value[2],
    {
        Rgb { r: self.value[0], g: self.value[1], b: self.value[2] }
    }

    /// Colour equality: same type and same value bytes.
    pub fn eq_struct(&self, other: &Color) -> (r: bool)
        ensures
            r == same_color(*self, *other),
    {
        if self.type_tag != other.type_tag {
            return false;
        }
        let mut i: usize = 0;
        while i < 12
            invariant
                i <= 12,
                forall|j: int| 0 <= j < i ==> self.value[j] == other.value[j],
            decreases 12 - i,
        {
            if self.value[i] != other.value[i] {
                return false;
            }
            i = i + 1;
        }
        assert(self.value@ =~= other.value@);
        true
    }

    /// Colour order: by colour type, then lexicographically by value bytes.
    pub fn lt_struct(&self, other: &Color) -> (r: bool)
        ensures
            r == color_before(*self, *other),
    {
        if self.type_tag != other.type_tag {
            return self.type_tag < other.type_tag;
        }
        let mut i: usize = 0;
        while i < 12
            invariant
                i <= 12,
                self.type_tag == other.type_tag,
                forall|j: int| 0 <= j < i ==> self.value[j] == other.value[j],
            decreases 12 - i,
        {
            if self.value[i] != other.value[i] {
                let r = self.value[i] < other.value[i];
                assert(r ==> bytes_before(self.value@, other.value@));
                assert(!r ==> !bytes_before(self.value@, other.value@)) by {
                    if bytes_before(self.value@, other.value@) {
                        let k = choose|k: int|
                            0 <= k < 12 && self.value@[k] < other.value@[k] && forall|j: int|
                                0 <= j < k ==> self.value@[j] == other.value@[j];
                        if k < i {
                        } else if k > i {
                            assert(self.value@[i as int] == other.value@[i as int]);
                        }
                    }
                }
                return r;
            }
            i = i + 1;
        }
        false
    }
}

} // verus!
