use vstd::prelude::*;
use crate::color::{Color, same_color};

verus! {

/// Kind of a brush.
#[derive(Clone, Copy, Debug, PartialEq, Eq, Structural)]
pub enum BrushType {
    Empty,
    Solid,
}

/// The brush of a pen: none, or a solid colour.
#[derive(Clone, Copy, Debug)]
pub enum Brush {
    Empty,
    Solid(Color),
}

/// Brush equality: both empty, or both solid with the same colour.
pub open spec fn same_brush(a: Brush, b: Brush) -> bool {
    match (a, b) {
        (Brush::Empty, Brush::Empty) => true,
        (Brush::Solid(x), Brush::Solid(y)) => same_color(x, y),
        _ => false,
    }
}

impl Brush {
    /// The kind of the brush.
    pub fn get_type(&self) -> (t: BrushType)
        ensures
            t == (match *self {
                Brush::Empty => BrushType::Empty,
                Brush::Solid(_) => BrushType::Solid,
            }),
    {
        match self {
            Brush::Empty => BrushType::Empty,
            Brush::Solid(_) => BrushType::Solid,
        }
    }

    /// Brush equality (see `same_brush`).
    pub fn eq_brush(&self, other: &Brush) -> (r: bool)
        ensures
            r == same_brush(*self, *other),
    {
        match (self, other) {
            (Brush::Empty, Brush::Empty) => true,
            (Brush::Solid(x), Brush::Solid(y)) => x.eq_struct(y),
            _ => false,
        }
    }
}

} // verus!
