use vstd::prelude::*;
use crate::shape_segment::{Segment, SegmentStyle};

verus! {

/// A width and a height, each given by the bits of its `f32` value.
#[derive(Clone, Copy, Debug, PartialEq, Eq, Structural, Default)]
pub struct SizeF {
    pub width_bits: u32,
    pub height_bits: u32,
}

impl SizeF {
    /// The size with the given width and height bits.
    pub fn new(width_bits: u32, height_bits: u32) -> (s: Self)
        ensures
            s.width_bits == width_bits,
            s.height_bits == height_bits,
    {
        SizeF { width_bits, height_bits }
    }
}

/// A high-level shape path: its style, stroke and extrusion flags, size, light (by the
/// bits of its `f32` value) and its list of segments, whose positions are handles.
#[derive(Debug)]
pub struct Path {
    pub style: u32,
    pub stroke_style: u8,
    pub extrusion_ok: u8,
    pub size: SizeF,
    pub light_bits: u32,
    pub segments: Vec<Box<Segment>>,
}

impl Path {
    /// The path's segments.
    pub open spec fn segs(self) -> Seq<Box<Segment>> {
        self.segments@
    }

    /// An empty path with the given settings.
    pub fn new(style: u32, stroke_style: bool, size: SizeF, extrusion_ok: bool, light_bits: u32) -> (p: Self)
        ensures
            p.style == style,
            (p.stroke_style != 0) == stroke_style,
            (p.extrusion_ok != 0) == extrusion_ok,
            p.size == size,
            p.light_bits == light_bits,
            p.segs().len() == 0,
    {
        Path {
            style,
            stroke_style: if stroke_style { 1 } else { 0 },
            extrusion_ok: if extrusion_ok { 1 } else { 0 },
            size,
            light_bits,
            segments: Vec::new(),
        }
    }

    /// A boxed empty path with the given settings.
    pub fn create(style: u32, stroke_style: bool, size: SizeF, extrusion_ok: bool, light_bits: u32) -> (p: Box<Self>)
        ensures
            p.style == style,
            (p.stroke_style != 0) == stroke_style,
            (p.extrusion_ok != 0) == extrusion_ok,
            p.size == size,
            p.light_bits == light_bits,
            p.segs().len() == 0,
    {
        Box::new(Self::new(style, stroke_style, size, extrusion_ok, light_bits))
    }

    /// Number of segments.
    pub fn get_count(&self) -> (n: usize)
        ensures
            n == self.segs().len(),
    {
        self.segments.len()
    }

    /// Whether the path has no segment.
    pub fn is_empty(&self) -> (b: bool)
        ensures
            b == (self.segs().len() == 0),
    {
        self.segments.len() == 0
    }

    /// The path style.
    pub fn get_style(&self) -> (s: u32)
        ensures
            s == self.style,
    {
        self.style
    }

    /// The bits of the light value.
    pub fn get_light_bits(&self) -> (b: u32)
        ensures
            b == self.light_bits,
    {
        self.light_bits
    }

    /// Whether the path is stroked.
    pub fn get_stroke_style(&self) -> (b: bool)
        ensures
            b == (self.stroke_style != 0),
    {
        self.stroke_style != 0
    }

    /// Sets whether the path is stroked; nothing else changes.
    pub fn set_stroke_style(&mut self, v: bool)
        ensures
            (final(self).stroke_style != 0) == v,
            final(self).style == old(self).style,
            final(self).extrusion_ok == old(self).extrusion_ok,
            final(self).size == old(self).size,
            final(self).light_bits == old(self).light_bits,
            final(self).segs() == old(self).segs(),
    {
        self.stroke_style = if v { 1 } else { 0 };
    }

    /// Whether the path may be extruded.
    pub fn get_extrusion_ok(&self) -> (b: bool)
        ensures
            b == (self.extrusion_ok != 0),
    {
        self.extrusion_ok != 0
    }

    /// Replaces the size; nothing else changes.
    pub fn set_size(&mut self, size: SizeF)
        ensures
            final(self).size == size,
            final(self).style == old(self).style,
            final(self).stroke_style == old(self).stroke_style,
            final(self).extrusion_ok == old(self).extrusion_ok,
            final(self).light_bits == old(self).light_bits,
            final(self).segs() == old(self).segs(),
    {
        self.size = size;
    }

    /// Appends `seg`; nothing else changes.
    fn push_segment(&mut self, seg: Box<Segment>)
        ensures
            final(self).segs() == old(self).segs().push(seg),
            final(self).style == old(self).style,
            final(self).stroke_style == old(self).stroke_style,
            final(self).extrusion_ok == old(self).extrusion_ok,
            final(self).size == old(self).size,
            final(self).light_bits == old(self).light_bits,
    {
        self.segments.push(seg);
    }

    /// Appends a start segment at position `pos`.
    pub fn start(&mut self, pos: usize)
        ensures
            final(self).segs() == old(self).segs().push(
                Box::new(Segment { style: SegmentStyle::Start.code(), _pad: 0, pos0: pos, pos1: 0, pos2: 0 }),
            ),
            final(self).style == old(self).style,
            final(self).size == old(self).size,
            final(self).light_bits == old(self).light_bits,
    {
        let seg = Segment::create_start(pos);
        self.push_segment(seg);
    }

    /// Appends a line segment to position `pos`.
    pub fn add_line(&mut self, pos: usize)
        ensures
            final(self).segs() == old(self).segs().push(
                Box::new(Segment { style: SegmentStyle::Line.code(), _pad: 0, pos0: pos, pos1: 0, pos2: 0 }),
            ),
            final(self).style == old(self).style,
            final(self).size == old(self).size,
            final(self).light_bits == old(self).light_bits,
    {
        let seg = Segment::create_line(pos);
        self.push_segment(seg);
    }

    /// Appends a cubic Bézier segment with control points `cp1`, `cp2` and end `end`.
    pub fn add_bezier(&mut self, cp1: usize, cp2: usize, end: usize)
        ensures
            final(self).segs() == old(self).segs().push(
                Box::new(Segment { style: SegmentStyle::Bezier.code(), _pad: 0, pos0: cp1, pos1: cp2, pos2: end }),
            ),
            final(self).style == old(self).style,
            final(self).size == old(self).size,
            final(self).light_bits == old(self).light_bits,
    {
        let seg = Segment::create_bezier(cp1, cp2, end);
        self.push_segment(seg);
    }

    /// Appends a close segment, which has no position.
    pub fn close(&mut self)
        ensures
            final(self).segs() == old(self).segs().push(
                Box::new(Segment { style: SegmentStyle::Close.code(), _pad: 0, pos0: 0, pos1: 0, pos2: 0 }),
            ),
            final(self).style == old(self).style,
            final(self).size == old(self).size,
            final(self).light_bits == old(self).light_bits,
    {
        let seg = Box::new(Segment { style: SegmentStyle::Close.as_u32(), _pad: 0, pos0: 0, pos1: 0, pos2: 0 });
        self.push_segment(seg);
    }

    /// The segment at `index`, or `None` past the end.
    pub fn get_at(&self, index: usize) -> (r: Option<&Segment>)
        ensures
            index < self.segs().len() ==> r == Some(&*self.segs()[index as int]),
            index >= self.segs().len() ==> r is None,
    {
        if index < self.segments.len() {
            Some(&*self.segments[index])
        } else {
            None
        }
    }
}

} // verus!
