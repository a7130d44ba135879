use vstd::prelude::*;

verus! {

/// Kind of a path segment.
#[derive(Clone, Copy, Debug, PartialEq, Eq, Structural)]
pub enum SegmentStyle {
    Start,
    Line,
    QuadraticBezier,
    Bezier,
    Close,
}

impl SegmentStyle {
    /// The number the engine stores for the kind (0 to 4, in declaration order).
    pub open spec fn code(self) -> u32 {
        match self {
            SegmentStyle::Start => 0,
            SegmentStyle::Line => 1,
            SegmentStyle::QuadraticBezier => 2,
            SegmentStyle::Bezier => 3,
            SegmentStyle::Close => 4,
        }
    }

    /// The number the engine stores for the kind.
    pub fn as_u32(self) -> (r: u32)
        ensures
            r == self.code(),
    {
        match self {
            SegmentStyle::Start => 0,
            SegmentStyle::Line => 1,
            SegmentStyle::QuadraticBezier => 2,
            SegmentStyle::Bezier => 3,
            SegmentStyle::Close => 4,
        }
    }
}

/// One segment of a shape path: its style word (kind in the low 16 bits, bit 16 for a
/// smooth corner) and up to three positions, given as handles (0 for none).
#[derive(Clone, Copy, Debug)]
pub struct Segment {
    pub style: u32,
    pub _pad: u32,
    pub pos0: usize,
    pub pos1: usize,
    pub pos2: usize,
}

impl Segment {
    /// A start segment at `pos`.
    pub fn create_start(pos: usize) -> (s: Box<Self>)
        ensures
            s.style == 0 && s._pad == 0 && s.pos0 == pos && s.pos1 == 0 && s.pos2 == 0,
    {
        Box::new(Segment { style: SegmentStyle::Start.as_u32(), _pad: 0, pos0: pos, pos1: 0, pos2: 0 })
    }

    /// A line segment to `pos`.
    pub fn create_line(pos: usize) -> (s: Box<Self>)
        ensures
            s.style == 1 && s._pad == 0 && s.pos0 == pos && s.pos1 == 0 && s.pos2 == 0,
    {
        Box::new(Segment { style: SegmentStyle::Line.as_u32(), _pad: 0, pos0: pos, pos1: 0, pos2: 0 })
    }

    /// A cubic Bézier segment with control points `cp1`, `cp2` and end `end`.
    pub fn create_bezier(cp1: usize, cp2: usize, end: usize) -> (s: Box<Self>)
        ensures
            s.style == 3 && s._pad == 0 && s.pos0 == cp1 && s.pos1 == cp2 && s.pos2 == end,
    {
        Box::new(Segment { style: SegmentStyle::Bezier.as_u32(), _pad: 0, pos0: cp1, pos1: cp2, pos2: end })
    }

    /// The kind the whole style word names, or `None` for any other word (a smooth
    /// corner included).
    pub fn style_enum(&self) -> (r: Option<SegmentStyle>)
        ensures
            r matches Some(k) ==> k.code() == self.style,
            r is None <==> self.style > 4,
    {
        match self.style {
            0 => Some(SegmentStyle::Start),
            1 => Some(SegmentStyle::Line),
            2 => Some(SegmentStyle::QuadraticBezier),
            3 => Some(SegmentStyle::Bezier),
            4 => Some(SegmentStyle::Close),
            _ => None,
        }
    }

    /// Moves the segment's last position to `lp`: `pos0` now names `lp`. A Bézier
    /// segment (whose `pos0` is its first control point) and a segment without a
    /// position are left as they are.
    pub fn set_last_position(&mut self, lp: usize)
        ensures
            final(self).pos0 == (if old(self).style == SegmentStyle::Bezier.code() || old(self).pos0 == 0 {
                old(self).pos0
            } else {
                lp
            }),
            final(self).style == old(self).style,
            final(self).pos1 == old(self).pos1,
            final(self).pos2 == old(self).pos2,
            final(self)._pad == old(self)._pad,
    {
        if self.style == SegmentStyle::Bezier.as_u32() {
            return;
        }
        if self.pos0 == 0 {
            return;
        }
        self.pos0 = lp;
    }

    /// Marks the segment as a smooth corner: keeps the low 16 bits and sets bit 16,
    /// clearing the other high bits.
    pub fn set_smooth_corner(&mut self)
        ensures
            final(self).style == old(self).style % 0x1_0000 + 0x1_0000,
            final(self).pos0 == old(self).pos0,
            final(self).pos1 == old(self).pos1,
            final(self).pos2 == old(self).pos2,
            final(self)._pad == old(self)._pad,
    {
        let low16 = self.style % 0x1_0000;
        self.style = low16 + 0x1_0000;
    }
}

} // verus!
