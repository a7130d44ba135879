use vstd::prelude::*;

verus! {

/// A point with integer coordinates.
#[derive(Clone, Copy, Debug, PartialEq, Eq, Structural, Default)]
pub struct PointI {
    pub x: i32,
    pub y: i32,
}

impl PointI {
    /// The point `(x, y)`.
    pub fn new(x: i32, y: i32) -> (p: Self)
        ensures
            p == (PointI { x, y }),
    {
        PointI { x, y }
    }
}

/// A rectangle with integer origin and size; the first word is unused padding.
#[derive(Clone, Copy, Debug, PartialEq, Eq, Structural, Default)]
pub struct RectI {
    pub _pad_origin_alignment: u32,
    pub origin: PointI,
    pub size_w: i32,
    pub size_h: i32,
}

impl RectI {
    /// The rectangle at `(x, y)` of width `w` and height `h`.
    pub fn new(x: i32, y: i32, w: i32, h: i32) -> (r: Self)
        ensures
            r == (RectI { _pad_origin_alignment: 0, origin: PointI { x, y }, size_w: w, size_h: h }),
    {
        RectI { _pad_origin_alignment: 0, origin: PointI::new(x, y), size_w: w, size_h: h }
    }
}

/// Drawing style of a render path, as the engine numbers it.
#[derive(Clone, Copy, Debug, PartialEq, Eq, Structural, Default)]
pub struct Style(pub u32);

/// A point with single-precision coordinates, held as their IEEE-754 bit patterns:
/// path building only stores and moves points, it never computes with them.
#[derive(Clone, Copy, Debug, PartialEq, Eq, Structural, Default)]
pub struct PointF {
    pub x_bits: u32,
    pub y_bits: u32,
}

impl PointF {
    /// The point with coordinate bit patterns `x_bits` and `y_bits`.
    pub fn new(x_bits: u32, y_bits: u32) -> (p: Self)
        ensures
            p == (PointF { x_bits, y_bits }),
    {
        PointF { x_bits, y_bits }
    }
}

/// The origin `(0.0, 0.0)`.
pub open spec fn origin() -> PointF {
    PointF { x_bits: 0, y_bits: 0 }
}

/// One command of a render path.
#[derive(Clone, Copy, Debug, PartialEq, Eq, Structural)]
pub enum Subpath {
    /// The implicit move that the first line of an empty path starts with; both points
    /// are the origin.
    Move { p1: PointF, p2: PointF },
    /// A line segment.
    Line { p1: PointF, p2: PointF },
    /// A cubic Bezier segment.
    Bezier { p1: PointF, p2: PointF, p3: PointF, p4: PointF },
    /// An explicit start of a new figure.
    Begin,
    /// The close of the current figure.
    Close,
}

impl Subpath {
    /// The engine's type word of the command: 2 for a line, 0 for every other command.
    pub fn raw_type_field(&self) -> (t: u32)
        ensures
            t == (if *self is Line { 2u32 } else { 0u32 }),
    {
        match self {
            Subpath::Line { .. } => 2,
            _ => 0,
        }
    }
}

/// The commands after a line from `p1` to `p2` is added: an empty path first gets the
/// implicit move.
pub open spec fn after_add_line(s: Seq<Subpath>, p1: PointF, p2: PointF) -> Seq<Subpath> {
    let start = if s.len() == 0 {
        seq![Subpath::Move { p1: origin(), p2: origin() }]
    } else {
        s
    };
    start.push(Subpath::Line { p1, p2 })
}

/// The commands after the lines joining `pts[0]` to `pts[1]`, ..., `pts[k - 1]` to
/// `pts[k]` are added in turn.
pub open spec fn after_polyline(s: Seq<Subpath>, pts: Seq<PointF>, k: int) -> Seq<Subpath>
    decreases k,
{
    if k <= 0 {
        s
    } else {
        after_add_line(after_polyline(s, pts, k - 1), pts[k - 1], pts[k])
    }
}

/// The commands after the Bezier chain of `pts` from index `i` is added: one segment
/// per window `pts[i .. i + 4]`, stepping by three, while four points remain.
pub open spec fn after_bezier_chain(s: Seq<Subpath>, pts: Seq<PointF>, i: int) -> Seq<Subpath>
    decreases pts.len() - i,
{
    if 0 <= i && i + 3 < pts.len() {
        after_bezier_chain(
            s.push(Subpath::Bezier { p1: pts[i], p2: pts[i + 1], p3: pts[i + 2], p4: pts[i + 3] }),
            pts,
            i + 3,
        )
    } else {
        s
    }
}

/// The commands after the rectangle with corners `tl`, `tr`, `br`, `bl` is added: its
/// top, right and bottom edges as lines, then a close.
pub open spec fn after_rect(s: Seq<Subpath>, tl: PointF, tr: PointF, br: PointF, bl: PointF) -> Seq<
    Subpath,
> {
    after_add_line(after_add_line(after_add_line(s, tl, tr), tr, br), br, bl).push(Subpath::Close)
}

/// The points a command carries: two for a move or line, four for a Bezier, none
/// otherwise.
pub open spec fn subpath_points(c: Subpath) -> Seq<PointF> {
    match c {
        Subpath::Move { p1, p2 } => seq![p1, p2],
        Subpath::Line { p1, p2 } => seq![p1, p2],
        Subpath::Bezier { p1, p2, p3, p4 } => seq![p1, p2, p3, p4],
        _ => Seq::empty(),
    }
}

/// All points of a command sequence, in order.
pub open spec fn all_points(s: Seq<Subpath>) -> Seq<PointF>
    decreases s.len(),
{
    if s.len() == 0 {
        Seq::empty()
    } else {
        all_points(s.drop_last()) + subpath_points(s.last())
    }
}

/// The type byte of a command: 0 move, 2 line, 3 Bezier, 4 begin, 5 close.
pub open spec fn subpath_type(c: Subpath) -> u8 {
    match c {
        Subpath::Move { .. } => 0,
        Subpath::Line { .. } => 2,
        Subpath::Bezier { .. } => 3,
        Subpath::Begin => 4,
        Subpath::Close => 5,
    }
}

proof fn lemma_all_points_len(s: Seq<Subpath>)
    ensures
        all_points(s).len() <= 4 * s.len(),
    decreases s.len(),
{
    if s.len() > 0 {
        lemma_all_points_len(s.drop_last());
    }
}

/// The command storage of a render path.
#[derive(Debug)]
pub struct PathImpl {
    pub subpaths: Vec<Subpath>,
}

impl PathImpl {
    /// An empty command list, with room reserved for twenty commands.
    pub fn new() -> (p: Self)
        ensures
            p.subpaths@ == Seq::<Subpath>::empty(),
    {
        PathImpl { subpaths: Vec::with_capacity(20) }
    }

    /// Adds a line from `p1` to `p2`; an empty path first gets the implicit move.
    pub fn add_line(&mut self, p1: PointF, p2: PointF)
        ensures
            final(self).subpaths@ == after_add_line(old(self).subpaths@, p1, p2),
    {
        if self.subpaths.len() == 0 {
            self.subpaths.push(Subpath::Move { p1: PointF { x_bits: 0, y_bits: 0 }, p2: PointF { x_bits: 0, y_bits: 0 } });
        }
        self.subpaths.push(Subpath::Line { p1, p2 });
    }

    /// Adds an explicit start of a new figure.
    pub fn add_begin(&mut self)
        ensures
            final(self).subpaths@ == old(self).subpaths@.push(Subpath::Begin),
    {
        self.subpaths.push(Subpath::Begin);
    }

    /// Adds a cubic Bezier segment (no implicit move, even on an empty path).
    pub fn add_bezier(&mut self, p1: PointF, p2: PointF, p3: PointF, p4: PointF)
        ensures
            final(self).subpaths@ == old(self).subpaths@.push(Subpath::Bezier { p1, p2, p3, p4 }),
    {
        self.subpaths.push(Subpath::Bezier { p1, p2, p3, p4 });
    }

    /// Adds a close of the current figure.
    pub fn add_close(&mut self)
        ensures
            final(self).subpaths@ == old(self).subpaths@.push(Subpath::Close),
    {
        self.subpaths.push(Subpath::Close);
    }

    /// Adds the rectangle with corners `tl`, `tr`, `br`, `bl` (see `after_rect`).
    pub fn add_rect_corners(&mut self, tl: PointF, tr: PointF, br: PointF, bl: PointF)
        ensures
            final(self).subpaths@ == after_rect(old(self).subpaths@, tl, tr, br, bl),
    {
        self.add_line(tl, tr);
        self.add_line(tr, br);
        self.add_line(br, bl);
        self.add_close();
    }

    /// Adds a line between each pair of consecutive points.
    pub fn add_polyline(&mut self, points: &[PointF])
        ensures
            final(self).subpaths@ == after_polyline(old(self).subpaths@, points@, points@.len() - 1),
    {
        let n = points.len();
        if n < 2 {
            return;
        }
        let mut i: usize = 0;
        while i < n - 1
            invariant
                n == points@.len(),
                2 <= n,
                i <= n - 1,
                self.subpaths@ == after_polyline(old(self).subpaths@, points@, i as int),
            decreases n - 1 - i,
        {
            self.add_line(points[i], points[i + 1]);
            i = i + 1;
        }
    }

    /// Adds the Bezier chain of `points`: a segment per window of four points, stepping
    /// by three.
    pub fn add_bezier_chain(&mut self, points: &[PointF])
        ensures
            final(self).subpaths@ == after_bezier_chain(old(self).subpaths@, points@, 0),
    {
        let ghost start = self.subpaths@;
        if points.len() < 4 {
            return;
        }
        let mut i: usize = 0;
        while points.len() - i > 3
            invariant
                i <= points@.len(),
                after_bezier_chain(self.subpaths@, points@, i as int) == after_bezier_chain(
                    start,
                    points@,
                    0,
                ),
            decreases points@.len() - i,
        {
            self.add_bezier(points[i], points[i + 1], points[i + 2], points[i + 3]);
            i = i + 3;
        }
    }
}

/// A render path: drawing settings (the light as an `f32` bit pattern) and its
/// commands.
#[derive(Debug)]
pub struct Path {
    pub style: Style,
    pub stroke_style: u8,
    pub extrusion_ok: u8,
    pub light_bits: u32,
    pub close_contains: u8,
    pub imp: Box<PathImpl>,
}

impl Path {
    /// The commands of the path.
    pub open spec fn subpaths(&self) -> Seq<Subpath> {
        self.imp.subpaths@
    }

    /// The default settings: style 0, stroke and extrusion on, light 0, close-contains
    /// off.
    pub open spec fn has_default_settings(&self) -> bool {
        &&& self.style == Style(0)
        &&& self.stroke_style == 1
        &&& self.extrusion_ok == 1
        &&& self.light_bits == 0
        &&& self.close_contains == 0
    }

    fn with_impl(imp: PathImpl) -> (p: Self)
        ensures
            p.has_default_settings(),
            p.subpaths() == imp.subpaths@,
    {
        Path {
            style: Style(0),
            stroke_style: 1,
            extrusion_ok: 1,
            light_bits: 0,
            close_contains: 0,
            imp: Box::new(imp),
        }
    }

    /// An empty path with the default settings.
    pub fn new() -> (p: Self)
        ensures
            p.has_default_settings(),
            p.subpaths() == Seq::<Subpath>::empty(),
    {
        Self::with_impl(PathImpl::new())
    }

    /// The path of a rectangle given by its corners (top-left, top-right, bottom-right,
    /// bottom-left): the implicit move, three edges and a close.
    pub fn from_rect_corners(tl: PointF, tr: PointF, br: PointF, bl: PointF) -> (p: Self)
        ensures
            p.has_default_settings(),
            p.subpaths() == after_rect(Seq::empty(), tl, tr, br, bl),
    {
        let mut imp = PathImpl::new();
        imp.add_rect_corners(tl, tr, br, bl);
        Self::with_impl(imp)
    }

    /// The path of the line from `p1` to `p2`.
    pub fn from_line_f(p1: PointF, p2: PointF) -> (p: Self)
        ensures
            p.has_default_settings(),
            p.subpaths() == after_add_line(Seq::empty(), p1, p2),
    {
        let mut imp = PathImpl::new();
        imp.add_line(p1, p2);
        Self::with_impl(imp)
    }

    /// The path of the polyline through `points` (empty for fewer than two points).
    pub fn from_polyline_f(points: &[PointF]) -> (p: Self)
        ensures
            p.has_default_settings(),
            p.subpaths() == after_polyline(Seq::empty(), points@, points@.len() - 1),
    {
        let mut imp = PathImpl::new();
        imp.add_polyline(points);
        Self::with_impl(imp)
    }

    /// The drawing style.
    pub fn get_style(&self) -> (s: Style)
        ensures
            s == self.style,
    {
        self.style
    }

    /// Whether the path is stroked.
    pub fn get_stroke_style(&self) -> (b: bool)
        ensures
            b == (self.stroke_style != 0),
    {
        self.stroke_style != 0
    }

    /// Whether the path may be extruded.
    pub fn get_extrusion_ok(&self) -> (b: bool)
        ensures
            b == (self.extrusion_ok != 0),
    {
        self.extrusion_ok != 0
    }

    /// The light (bit pattern).
    pub fn get_light(&self) -> (l: u32)
        ensures
            l == self.light_bits,
    {
        self.light_bits
    }

    /// Whether a close counts for containment.
    pub fn get_close_contains(&self) -> (b: bool)
        ensures
            b == (self.close_contains != 0),
    {
        self.close_contains != 0
    }

    /// Sets the drawing style.
    pub fn set_style(&mut self, style: Style)
        ensures
            *final(self) == (Path { style, ..*old(self) }),
    {
        self.style = style;
    }

    /// Sets whether the path is stroked.
    pub fn set_stroke_style(&mut self, v: bool)
        ensures
            *final(self) == (Path { stroke_style: if v { 1u8 } else { 0u8 }, ..*old(self) }),
    {
        self.stroke_style = if v { 1 } else { 0 };
    }

    /// Sets whether the path may be extruded.
    pub fn set_extrusion_ok(&mut self, v: bool)
        ensures
            *final(self) == (Path { extrusion_ok: if v { 1u8 } else { 0u8 }, ..*old(self) }),
    {
        self.extrusion_ok = if v { 1 } else { 0 };
    }

    /// Sets the light (bit pattern).
    pub fn set_light(&mut self, light_bits: u32)
        ensures
            *final(self) == (Path { light_bits, ..*old(self) }),
    {
        self.light_bits = light_bits;
    }

    /// Sets whether a close counts for containment.
    pub fn set_close_contains(&mut self, v: bool)
        ensures
            *final(self) == (Path { close_contains: if v { 1u8 } else { 0u8 }, ..*old(self) }),
    {
        self.close_contains = if v { 1 } else { 0 };
    }

    /// Adds a line from `p1` to `p2` (see `after_add_line`).
    pub fn add_line(&mut self, p1: PointF, p2: PointF)
        ensures
            final(self).subpaths() == after_add_line(old(self).subpaths(), p1, p2),
            final(self).style == old(self).style && final(self).light_bits == old(self).light_bits,
    {
        self.imp.add_line(p1, p2);
    }

    /// Adds a line between each pair of consecutive points.
    pub fn add_polyline(&mut self, points: &[PointF])
        ensures
            final(self).subpaths() == after_polyline(old(self).subpaths(), points@, points@.len() - 1),
    {
        self.imp.add_polyline(points);
    }

    /// Adds the rectangle with corners `tl`, `tr`, `br`, `bl` (see `after_rect`).
    pub fn add_rect_corners(&mut self, tl: PointF, tr: PointF, br: PointF, bl: PointF)
        ensures
            final(self).subpaths() == after_rect(old(self).subpaths(), tl, tr, br, bl),
    {
        self.imp.add_rect_corners(tl, tr, br, bl);
    }

    /// Adds a cubic Bezier segment.
    pub fn add_bezier(&mut self, p1: PointF, p2: PointF, p3: PointF, p4: PointF)
        ensures
            final(self).subpaths() == old(self).subpaths().push(Subpath::Bezier { p1, p2, p3, p4 }),
    {
        self.imp.add_bezier(p1, p2, p3, p4);
    }

    /// Adds the Bezier chain of `points` (see `after_bezier_chain`).
    pub fn add_bezier_chain(&mut self, points: &[PointF])
        ensures
            final(self).subpaths() == after_bezier_chain(old(self).subpaths(), points@, 0),
    {
        self.imp.add_bezier_chain(points);
    }

    /// Closes the current figure.
    pub fn close(&mut self)
        ensures
            final(self).subpaths() == old(self).subpaths().push(Subpath::Close),
    {
        self.imp.add_close();
    }

    /// Starts a new figure.
    pub fn start(&mut self)
        ensures
            final(self).subpaths() == old(self).subpaths().push(Subpath::Begin),
    {
        self.imp.add_begin();
    }

    /// A deep copy: the same settings and commands, in storage of its own.
    pub fn clone_path(&self) -> (c: Path)
        ensures
            c.style == self.style,
            c.stroke_style == self.stroke_style,
            c.extrusion_ok == self.extrusion_ok,
            c.light_bits == self.light_bits,
            c.close_contains == self.close_contains,
            c.subpaths() == self.subpaths(),
    {
        let mut subpaths: Vec<Subpath> = Vec::new();
        let mut i: usize = 0;
        while i < self.imp.subpaths.len()
            invariant
                i <= self.subpaths().len(),
                subpaths@ == self.subpaths().subrange(0, i as int),
            decreases self.subpaths().len() - i,
        {
            subpaths.push(self.imp.subpaths[i]);
            i = i + 1;
        }
        assert(subpaths@ == self.subpaths());
        Path {
            style: self.style,
            stroke_style: self.stroke_style,
            extrusion_ok: self.extrusion_ok,
            light_bits: self.light_bits,
            close_contains: self.close_contains,
            imp: Box::new(PathImpl { subpaths }),
        }
    }

    /// Replaces curves by line runs; the engine leaves the path as it is.
    pub fn flatten(&mut self)
        ensures
            *final(self) == *old(self),
    {
    }

    /// Outlines the path; the engine leaves the path as it is.
    pub fn outline(&mut self)
        ensures
            *final(self) == *old(self),
    {
    }

    /// The widened path; the engine produces none.
    pub fn expand(&self, width_bits: u32, outside: bool, inside: bool, close: bool, line_cap: u32) -> (r: Option<Path>)
        ensures
            r is None,
    {
        None
    }

    /// Unites overlapping figures; the engine leaves the path as it is.
    pub fn union(&mut self, flatness_bits: u32)
        ensures
            *final(self) == *old(self),
    {
    }

    /// The number of points the commands carry (see `subpath_points`).
    pub fn get_point_count(&self) -> (n: usize)
        requires
            4 * self.subpaths().len() <= usize::MAX,
        ensures
            n == all_points(self.subpaths()).len(),
    {
        let ghost s = self.subpaths();
        let mut n: usize = 0;
        let mut i: usize = 0;
        while i < self.imp.subpaths.len()
            invariant
                s == self.subpaths(),
                4 * s.len() <= usize::MAX,
                i <= s.len(),
                n == all_points(s.subrange(0, i as int)).len(),
            decreases s.len() - i,
        {
            proof {
                lemma_all_points_len(s.subrange(0, i as int));
                assert(s.subrange(0, i + 1).drop_last() == s.subrange(0, i as int));
            }
            let k: usize = match self.imp.subpaths[i] {
                Subpath::Move { .. } => 2,
                Subpath::Line { .. } => 2,
                Subpath::Bezier { .. } => 4,
                Subpath::Begin => 0,
                Subpath::Close => 0,
            };
            n = n + k;
            i = i + 1;
        }
        assert(s.subrange(0, s.len() as int) == s);
        n
    }

    /// The points the commands carry, in order.
    pub fn get_points(&self) -> (out: Vec<PointF>)
        ensures
            out@ == all_points(self.subpaths()),
    {
        let ghost s = self.subpaths();
        let mut out: Vec<PointF> = Vec::new();
        let mut i: usize = 0;
        while i < self.imp.subpaths.len()
            invariant
                s == self.subpaths(),
                i <= s.len(),
                out@ == all_points(s.subrange(0, i as int)),
            decreases s.len() - i,
        {
            proof {
                assert(s.subrange(0, i + 1).drop_last() == s.subrange(0, i as int));
            }
            match self.imp.subpaths[i] {
                Subpath::Move { p1, p2 } => {
                    out.push(p1);
                    out.push(p2);
                },
                Subpath::Line { p1, p2 } => {
                    out.push(p1);
                    out.push(p2);
                },
                Subpath::Bezier { p1, p2, p3, p4 } => {
                    out.push(p1);
                    out.push(p2);
                    out.push(p3);
                    out.push(p4);
                },
                _ => {},
            }
            i = i + 1;
        }
        assert(s.subrange(0, s.len() as int) == s);
        out
    }

    /// The type byte of each command (see `subpath_type`).
    pub fn get_types(&self) -> (out: Vec<u8>)
        ensures
            out@.len() == self.subpaths().len(),
            forall|i: int| 0 <= i < out@.len() ==> out@[i] == subpath_type(self.subpaths()[i]),
    {
        let mut out: Vec<u8> = Vec::new();
        let mut i: usize = 0;
        while i < self.imp.subpaths.len()
            invariant
                i <= self.subpaths().len(),
                out@.len() == i,
                forall|j: int| 0 <= j < i ==> out@[j] == subpath_type(self.subpaths()[j]),
            decreases self.subpaths().len() - i,
        {
            let t: u8 = match self.imp.subpaths[i] {
                Subpath::Move { .. } => 0,
                Subpath::Line { .. } => 2,
                Subpath::Bezier { .. } => 3,
                Subpath::Begin => 4,
                Subpath::Close => 5,
            };
            out.push(t);
            i = i + 1;
        }
        out
    }

    /// The command storage.
    pub fn get_impl_ptr(&self) -> (r: &PathImpl)
        ensures
            r.subpaths@ == self.subpaths(),
    {
        &self.imp
    }

    /// Exchanges settings and commands with `other`.
    pub fn swap(&mut self, other: &mut Path)
        ensures
            *final(self) == *old(other),
            *final(other) == *old(self),
    {
        core::mem::swap(self, other);
    }
}

/// The points of a path are its commands' points in the order the commands were
/// given, each command's in the order it received them: appending a line or move adds
/// its two points, a Bezier its start, first control point, second control point and
/// end, a begin or close nothing.
pub proof fn law_points_follow_commands(s: Seq<Subpath>, p1: PointF, p2: PointF, p3: PointF, p4: PointF)
    ensures
        all_points(s.push(Subpath::Bezier { p1, p2, p3, p4 })) == all_points(s) + seq![p1, p2, p3, p4],
        all_points(s.push(Subpath::Line { p1, p2 })) == all_points(s) + seq![p1, p2],
        all_points(s.push(Subpath::Move { p1, p2 })) == all_points(s) + seq![p1, p2],
        all_points(s.push(Subpath::Begin)) == all_points(s),
        all_points(s.push(Subpath::Close)) == all_points(s),
        all_points(Seq::<Subpath>::empty()) == Seq::<PointF>::empty(),
{
    assert(s.push(Subpath::Bezier { p1, p2, p3, p4 }).drop_last() =~= s);
    assert(s.push(Subpath::Line { p1, p2 }).drop_last() =~= s);
    assert(s.push(Subpath::Move { p1, p2 }).drop_last() =~= s);
    assert(s.push(Subpath::Begin).drop_last() =~= s);
    assert(s.push(Subpath::Close).drop_last() =~= s);
    assert(all_points(s) + Seq::<PointF>::empty() =~= all_points(s));
}

} // verus!
