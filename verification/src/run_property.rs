use vstd::prelude::*;
use crate::property_bag::{PropertyBag, bag_map};
use crate::property_key::{KeyView, PropertyKey};

verus! {

/// Which font of a text run a script uses.
#[derive(Clone, Copy, Debug, PartialEq, Eq, Structural)]
pub enum FontSlot {
    Latin,
    EastAsian,
    ComplexScript,
    Symbol,
}

impl FontSlot {
    /// The slot numbered `idx` (0 Latin, 1 East Asian, 2 complex script, 3 symbol).
    pub fn from_slot_index(idx: u32) -> (r: Option<FontSlot>)
        ensures
            r == (if idx == 0 {
                Some(FontSlot::Latin)
            } else if idx == 1 {
                Some(FontSlot::EastAsian)
            } else if idx == 2 {
                Some(FontSlot::ComplexScript)
            } else if idx == 3 {
                Some(FontSlot::Symbol)
            } else {
                None
            }),
    {
        match idx {
            0 => Some(FontSlot::Latin),
            1 => Some(FontSlot::EastAsian),
            2 => Some(FontSlot::ComplexScript),
            3 => Some(FontSlot::Symbol),
            _ => None,
        }
    }
}

/// Bag key of a run's font size.
pub const KEY_FONT_SIZE: u32 = 0x96a;

/// Bag key of a run's script base line (the sub- or superscript shift).
pub const KEY_SCRIPT_BASE_LINE: u32 = 0x96c;

/// Formatting of a run of text. The brushes, pens, effects and fonts are handles on
/// objects owned elsewhere (0 for none); the other settings are in a property bag.
#[derive(Debug)]
pub struct RunProperty {
    pub brush: usize,
    pub pen: usize,
    pub effects: usize,
    pub underline_brush: usize,
    pub underline_pen: usize,
    pub latin_font: usize,
    pub east_asian_font: usize,
    pub complex_script_font: usize,
    pub symbol_font: usize,
    pub property_bag: PropertyBag,
}

/// The font handle a run uses for a slot.
pub open spec fn font_in(rp: RunProperty, slot: FontSlot) -> usize {
    match slot {
        FontSlot::Latin => rp.latin_font,
        FontSlot::EastAsian => rp.east_asian_font,
        FontSlot::ComplexScript => rp.complex_script_font,
        FontSlot::Symbol => rp.symbol_font,
    }
}

impl RunProperty {
    /// The Latin font.
    pub fn get_latin_font(&self) -> (r: usize)
        ensures
            r == self.latin_font,
    {
        self.latin_font
    }

    /// The East Asian font.
    pub fn get_east_asian_font(&self) -> (r: usize)
        ensures
            r == self.east_asian_font,
    {
        self.east_asian_font
    }

    /// The complex-script font.
    pub fn get_complex_script_font(&self) -> (r: usize)
        ensures
            r == self.complex_script_font,
    {
        self.complex_script_font
    }

    /// The symbol font.
    pub fn get_symbol_font(&self) -> (r: usize)
        ensures
            r == self.symbol_font,
    {
        self.symbol_font
    }

    /// The font for `slot`.
    pub fn get_font_for_slot(&self, slot: FontSlot) -> (r: usize)
        ensures
            r == font_in(*self, slot),
    {
        match slot {
            FontSlot::Latin => self.latin_font,
            FontSlot::EastAsian => self.east_asian_font,
            FontSlot::ComplexScript => self.complex_script_font,
            FontSlot::Symbol => self.symbol_font,
        }
    }

    /// The value slot of the font-size property (key `KEY_FONT_SIZE`): the bits of the
    /// size as an `f32`. The run must hold that property.
    pub fn get_font_size_bits(&self) -> (r: u32)
        requires
            bag_map(self.property_bag).contains_key(KeyView::Int(KEY_FONT_SIZE)),
        ensures
            r == bag_map(self.property_bag)[KeyView::Int(KEY_FONT_SIZE)].value_slot(),
    {
        let key = PropertyKey::from_int(KEY_FONT_SIZE);
        self.property_bag.get_value_slot(&key)
    }

    /// The value slot of the script base-line property (key `KEY_SCRIPT_BASE_LINE`): the
    /// bits of the base-line shift as an `f32`. The run must hold that property.
    pub fn get_script_base_line_bits(&self) -> (r: u32)
        requires
            bag_map(self.property_bag).contains_key(KeyView::Int(KEY_SCRIPT_BASE_LINE)),
        ensures
            r == bag_map(self.property_bag)[KeyView::Int(KEY_SCRIPT_BASE_LINE)].value_slot(),
    {
        let key = PropertyKey::from_int(KEY_SCRIPT_BASE_LINE);
        self.property_bag.get_value_slot(&key)
    }

    /// A run with no brush, pen, effects or fonts, and an empty unmerged bag.
    pub fn new_empty_for_test() -> (r: Self)
        ensures
            r.brush == 0 && r.pen == 0 && r.effects == 0,
            r.underline_brush == 0 && r.underline_pen == 0,
            r.latin_font == 0 && r.east_asian_font == 0,
            r.complex_script_font == 0 && r.symbol_font == 0,
            r.property_bag.ctrl matches Some(i) && !i.merged() && i.kv().len() == 0,
    {
        RunProperty {
            brush: 0,
            pen: 0,
            effects: 0,
            underline_brush: 0,
            underline_pen: 0,
            latin_font: 0,
            east_asian_font: 0,
            complex_script_font: 0,
            symbol_font: 0,
            property_bag: PropertyBag::new(false),
        }
    }
}

} // verus!
