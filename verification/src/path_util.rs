use vstd::prelude::*;
use crate::path::{origin, subpath_points, PathImpl, PointF, Subpath};

verus! {

/// Element type byte of a figure start.
pub const TYPE_MOVE: u8 = 0;

/// Element type byte of a line.
pub const TYPE_LINE: u8 = 1;

/// Element type byte of a Bezier control or end point.
pub const TYPE_BEZIER: u8 = 3;

/// The start of the figure after the first `k` commands of `s`: the first point of the
/// last segment among them, or the origin when there is none.
pub open spec fn figure_start(s: Seq<Subpath>, k: int) -> PointF
    decreases k,
{
    if k <= 0 {
        origin()
    } else {
        match s[k - 1] {
            Subpath::Move { p1, .. } => p1,
            Subpath::Line { p1, .. } => p1,
            Subpath::Bezier { p1, .. } => p1,
            _ => figure_start(s, k - 1),
        }
    }
}

/// The points command `k` of `s` contributes when flattened: all points of a segment,
/// the figure's start for a close, none for a begin.
pub open spec fn command_points(s: Seq<Subpath>, k: int) -> Seq<PointF> {
    match s[k] {
        Subpath::Close => seq![figure_start(s, k)],
        Subpath::Begin => Seq::empty(),
        c => subpath_points(c),
    }
}

/// The element types command `c` contributes: a move then a line for a move or a
/// line segment, a move then three Bezier points for a Bezier, a line for a close,
/// none for a begin.
pub open spec fn command_types(c: Subpath) -> Seq<u8> {
    match c {
        Subpath::Move { .. } => seq![TYPE_MOVE, TYPE_LINE],
        Subpath::Line { .. } => seq![TYPE_MOVE, TYPE_LINE],
        Subpath::Bezier { .. } => seq![TYPE_MOVE, TYPE_BEZIER, TYPE_BEZIER, TYPE_BEZIER],
        Subpath::Close => seq![TYPE_LINE],
        Subpath::Begin => Seq::empty(),
    }
}

/// The flattened points of the first `k` commands: each command's points in order.
pub open spec fn flat_points(s: Seq<Subpath>, k: int) -> Seq<PointF>
    decreases k,
{
    if k <= 0 {
        Seq::empty()
    } else {
        flat_points(s, k - 1) + command_points(s, k - 1)
    }
}

/// The element types of the first `k` commands: each command's types in order.
pub open spec fn flat_types(s: Seq<Subpath>, k: int) -> Seq<u8>
    decreases k,
{
    if k <= 0 {
        Seq::empty()
    } else {
        flat_types(s, k - 1) + command_types(s[k - 1])
    }
}

/// The flattening state machine the loops run, after the first `k` commands of `s`:
/// the point sequence, the
/// parallel element-type sequence, the start point of the current figure (where a close
/// returns to), and whether the next segment starts a new figure.
///
/// A segment that starts a figure emits all its points, the first typed as a move;
/// a segment that continues one emits its points but the first (which is the previous
/// end). A begin makes the next segment start a figure; a close emits a line back to
/// the figure's start and, unless it is the last command, keeps the start pending.
spec fn flatten_prefix(s: Seq<Subpath>, k: int) -> (Seq<PointF>, Seq<u8>, PointF, bool)
    decreases k,
{
    if k <= 0 {
        (Seq::empty(), Seq::empty(), origin(), true)
    } else {
        let (pts, tys, start, fresh) = flatten_prefix(s, k - 1);
        let not_last = k != s.len();
        match s[k - 1] {
            Subpath::Begin => (pts, tys, start, true),
            Subpath::Close => (pts.push(start), tys.push(TYPE_LINE), start, fresh || not_last),
            Subpath::Move { p1, p2 } => if fresh {
                (pts + seq![p1, p2], tys + seq![TYPE_MOVE, TYPE_LINE], p1, true)
            } else {
                (pts.push(p2), tys.push(TYPE_LINE), start, false)
            },
            Subpath::Line { p1, p2 } => if fresh {
                (pts + seq![p1, p2], tys + seq![TYPE_MOVE, TYPE_LINE], p1, true)
            } else {
                (pts.push(p2), tys.push(TYPE_LINE), start, false)
            },
            Subpath::Bezier { p1, p2, p3, p4 } => if fresh {
                (
                    pts + seq![p1, p2, p3, p4],
                    tys + seq![TYPE_MOVE, TYPE_BEZIER, TYPE_BEZIER, TYPE_BEZIER],
                    p1,
                    true,
                )
            } else {
                (pts + seq![p2, p3, p4], tys + seq![TYPE_BEZIER, TYPE_BEZIER, TYPE_BEZIER], start, false)
            },
        }
    }
}

/// The loops' state machine computes the direct flattening: a figure start is always
/// pending (nothing ever clears it), so every segment emits all its points.
proof fn lemma_flatten_prefix_direct(s: Seq<Subpath>, k: int)
    requires
        0 <= k <= s.len(),
    ensures
        flatten_prefix(s, k) == (flat_points(s, k), flat_types(s, k), figure_start(s, k), true),
    decreases k,
{
    if k > 0 {
        lemma_flatten_prefix_direct(s, k - 1);
        let (pts, tys, start, fresh) = flatten_prefix(s, k - 1);
        match s[k - 1] {
            Subpath::Move { p1, p2 } => {
                assert(flat_points(s, k) =~= pts + seq![p1, p2]);
                assert(flat_types(s, k) =~= tys + seq![TYPE_MOVE, TYPE_LINE]);
            },
            Subpath::Line { p1, p2 } => {
                assert(flat_points(s, k) =~= pts + seq![p1, p2]);
                assert(flat_types(s, k) =~= tys + seq![TYPE_MOVE, TYPE_LINE]);
            },
            Subpath::Bezier { p1, p2, p3, p4 } => {
                assert(flat_points(s, k) =~= pts + seq![p1, p2, p3, p4]);
                assert(flat_types(s, k) =~= tys + seq![TYPE_MOVE, TYPE_BEZIER, TYPE_BEZIER, TYPE_BEZIER]);
            },
            Subpath::Close => {
                assert(flat_points(s, k) =~= pts.push(start));
                assert(flat_types(s, k) =~= tys.push(TYPE_LINE));
            },
            Subpath::Begin => {
                assert(flat_points(s, k) =~= pts);
                assert(flat_types(s, k) =~= tys);
            },
        }
    }
}

/// The flattened points and element types always run in parallel: every emitted point
/// has exactly one type byte.
pub proof fn lemma_flatten_parallel(s: Seq<Subpath>, k: int)
    ensures
        flat_points(s, k).len() == flat_types(s, k).len(),
    decreases k,
{
    if k > 0 {
        lemma_flatten_parallel(s, k - 1);
    }
}

/// The points of the path's commands, flattened (see `flat_points` and `flat_types`).
pub fn flatten_path_points(impl_obj: &PathImpl) -> (out: Vec<PointF>)
    ensures
        out@ == flat_points(impl_obj.subpaths@, impl_obj.subpaths@.len() as int),
{
    let ghost s = impl_obj.subpaths@;
    let n = impl_obj.subpaths.len();
    let mut out: Vec<PointF> = Vec::new();
    if n == 0 {
        return out;
    }
    let mut start = PointF { x_bits: 0, y_bits: 0 };
    let mut fresh = true;
    let mut i: usize = 0;
    while i < n
        invariant
            s == impl_obj.subpaths@,
            n == s.len(),
            i <= n,
            out@ == flatten_prefix(s, i as int).0,
            start == flatten_prefix(s, i as int).2,
            fresh == flatten_prefix(s, i as int).3,
        decreases n - i,
    {
        let not_last = i != n - 1;
        match impl_obj.subpaths[i] {
            Subpath::Begin => {
                fresh = true;
            },
            Subpath::Close => {
                out.push(start);
                fresh = fresh || not_last;
            },
            Subpath::Move { p1, p2 } => {
                if fresh {
                    out.push(p1);
                    out.push(p2);
                    start = p1;
                } else {
                    out.push(p2);
                    fresh = false;
                }
            },
            Subpath::Line { p1, p2 } => {
                if fresh {
                    out.push(p1);
                    out.push(p2);
                    start = p1;
                } else {
                    out.push(p2);
                    fresh = false;
                }
            },
            Subpath::Bezier { p1, p2, p3, p4 } => {
                if fresh {
                    out.push(p1);
                    out.push(p2);
                    out.push(p3);
                    out.push(p4);
                    start = p1;
                } else {
                    out.push(p2);
                    out.push(p3);
                    out.push(p4);
                    fresh = false;
                }
            },
        }
        i = i + 1;
    }
    proof {
        lemma_flatten_prefix_direct(s, n as int);
    }
    out
}

/// The element types of the path's commands, flattened (see `flat_points` and `flat_types`).
pub fn flatten_path_types(impl_obj: &PathImpl) -> (out: Vec<u8>)
    ensures
        out@ == flat_types(impl_obj.subpaths@, impl_obj.subpaths@.len() as int),
{
    let ghost s = impl_obj.subpaths@;
    let n = impl_obj.subpaths.len();
    let mut out: Vec<u8> = Vec::new();
    if n == 0 {
        return out;
    }
    let mut fresh = true;
    let mut i: usize = 0;
    while i < n
        invariant
            s == impl_obj.subpaths@,
            n == s.len(),
            i <= n,
            out@ == flatten_prefix(s, i as int).1,
            fresh == flatten_prefix(s, i as int).3,
        decreases n - i,
    {
        let not_last = i != n - 1;
        match impl_obj.subpaths[i] {
            Subpath::Begin => {
                fresh = true;
            },
            Subpath::Close => {
                out.push(TYPE_LINE);
                fresh = fresh || not_last;
            },
            Subpath::Move { .. } | Subpath::Line { .. } => {
                if fresh {
                    out.push(TYPE_MOVE);
                    out.push(TYPE_LINE);
                } else {
                    out.push(TYPE_LINE);
                    fresh = false;
                }
            },
            Subpath::Bezier { .. } => {
                if fresh {
                    out.push(TYPE_MOVE);
                    out.push(TYPE_BEZIER);
                    out.push(TYPE_BEZIER);
                    out.push(TYPE_BEZIER);
                } else {
                    out.push(TYPE_BEZIER);
                    out.push(TYPE_BEZIER);
                    out.push(TYPE_BEZIER);
                    fresh = false;
                }
            },
        }
        i = i + 1;
    }
    proof {
        lemma_flatten_prefix_direct(s, n as int);
    }
    out
}

/// The flattened points and element types of the path's commands, of equal length.
pub fn flatten_path(impl_obj: &PathImpl) -> (r: (Vec<PointF>, Vec<u8>))
    ensures
        r.0@ == flat_points(impl_obj.subpaths@, impl_obj.subpaths@.len() as int),
        r.1@ == flat_types(impl_obj.subpaths@, impl_obj.subpaths@.len() as int),
        r.0@.len() == r.1@.len(),
{
    let points = flatten_path_points(impl_obj);
    let types = flatten_path_types(impl_obj);
    proof {
        lemma_flatten_parallel(impl_obj.subpaths@, impl_obj.subpaths@.len() as int);
    }
    (points, types)
}

/// A step of rebuilding a shape path from flattened points.
#[derive(Clone, Copy, Debug, PartialEq, Eq, Structural)]
pub enum ShapePathCommand {
    /// Start a figure at the point.
    Start(PointF),
    /// A line to the point.
    Line(PointF),
    /// A Bezier segment through two control points to an end point.
    Bezier(PointF, PointF, PointF),
}

/// The rebuilding steps for the flattened points from index `i` on, read by the low
/// three bits of each type byte: a Bezier takes three points (and is skipped, one point
/// at a time, when fewer than three remain), a line one, a move one (a start when
/// `with_moves`, else nothing); any other type is skipped.
pub open spec fn commands_from(points: Seq<PointF>, types: Seq<u8>, with_moves: bool, i: int) -> Seq<
    ShapePathCommand,
>
    decreases points.len() - i,
{
    if i < 0 || i >= points.len() {
        Seq::empty()
    } else {
        let t = types[i] % 8;
        if t == 3 {
            if i + 2 >= points.len() {
                commands_from(points, types, with_moves, i + 1)
            } else {
                seq![ShapePathCommand::Bezier(points[i], points[i + 1], points[i + 2])]
                    + commands_from(points, types, with_moves, i + 3)
            }
        } else if t == 1 {
            seq![ShapePathCommand::Line(points[i])] + commands_from(points, types, with_moves, i + 1)
        } else if t == 0 && with_moves {
            seq![ShapePathCommand::Start(points[i])] + commands_from(points, types, with_moves, i + 1)
        } else {
            commands_from(points, types, with_moves, i + 1)
        }
    }
}

/// The steps that rebuild a shape path from flattened points and their type bytes
/// (see `commands_from`); the caller scales each point and performs the steps.
pub fn render_path_commands(points: &[PointF], types: &[u8], with_moves: bool) -> (out: Vec<
    ShapePathCommand,
>)
    requires
        types@.len() == points@.len(),
    ensures
        out@ == commands_from(points@, types@, with_moves, 0),
{
    let count = points.len();
    let mut out: Vec<ShapePathCommand> = Vec::new();
    let mut i: usize = 0;
    while i < count
        invariant
            count == points@.len(),
            types@.len() == count,
            i <= count + 2,
            out@ + commands_from(points@, types@, with_moves, i as int) == commands_from(
                points@,
                types@,
                with_moves,
                0,
            ),
        decreases count + 3 - i,
    {
        let tb = types[i];
        let t = tb & 7;
        assert(tb & 7u8 == tb % 8) by (bit_vector);
        if t == 3 {
            if count - i <= 2 {
                i = i + 1;
            } else {
                let c = ShapePathCommand::Bezier(points[i], points[i + 1], points[i + 2]);
                proof {
                    assert(out@.push(c) + commands_from(points@, types@, with_moves, i + 3) == out@
                        + (seq![c] + commands_from(points@, types@, with_moves, i + 3)));
                }
                out.push(c);
                i = i + 3;
            }
        } else if t == 1 {
            let c = ShapePathCommand::Line(points[i]);
            proof {
                assert(out@.push(c) + commands_from(points@, types@, with_moves, i + 1) == out@ + (seq![c]
                    + commands_from(points@, types@, with_moves, i + 1)));
            }
            out.push(c);
            i = i + 1;
        } else if t == 0 && with_moves {
            let c = ShapePathCommand::Start(points[i]);
            proof {
                assert(out@.push(c) + commands_from(points@, types@, with_moves, i + 1) == out@ + (seq![c]
                    + commands_from(points@, types@, with_moves, i + 1)));
            }
            out.push(c);
            i = i + 1;
        } else {
            i = i + 1;
        }
    }
    assert(commands_from(points@, types@, with_moves, i as int) == Seq::<ShapePathCommand>::empty());
    assert(out@ + Seq::<ShapePathCommand>::empty() == out@);
    out
}

} // verus!
