use vstd::prelude::*;

verus! {

/// A rectangle of pixels.
#[derive(Clone, Copy, Debug, PartialEq, Eq, Structural)]
pub struct Rect {
    pub x: u32,
    pub y: u32,
    pub w: u32,
    pub h: u32,
}

/// Options of a pixel comparison.
///
/// `color_tolerance` is the largest per-channel difference counted as a match;
/// `aa_threshold`, when set, raises that tolerance to absorb anti-aliasing; `roi`
/// restricts the comparison to a region; `compare_alpha` includes the alpha channel.
#[derive(Clone, Copy, Debug)]
pub struct DiffOptions {
    pub color_tolerance: u8,
    pub aa_threshold: Option<u8>,
    pub roi: Option<Rect>,
    pub compare_alpha: bool,
}

impl Default for DiffOptions {
    /// Exact colours, an anti-aliasing margin of 2, the whole image, no alpha.
    fn default() -> (d: Self)
        ensures
            d.color_tolerance == 0,
            d.aa_threshold == Some(2u8),
            d.roi is None,
            !d.compare_alpha,
    {
        DiffOptions { color_tolerance: 0, aa_threshold: Some(2), roi: None, compare_alpha: false }
    }
}

/// The tolerance a comparison applies: the colour tolerance, or the anti-aliasing
/// threshold where that is larger.
pub open spec fn effective_threshold(opts: DiffOptions) -> u8 {
    match opts.aa_threshold {
        Some(t) => if opts.color_tolerance >= t { opts.color_tolerance } else { t },
        None => opts.color_tolerance,
    }
}

/// Absolute difference of two bytes.
pub open spec fn byte_diff(a: u8, b: u8) -> u8 {
    if a >= b { (a - b) as u8 } else { (b - a) as u8 }
}

/// The largest difference of the red, green and blue bytes of the pixels at byte
/// offset `i`.
pub open spec fn pixel_diff(a: Seq<u8>, b: Seq<u8>, i: int) -> u8 {
    let dr = byte_diff(a[i], b[i]);
    let dg = byte_diff(a[i + 1], b[i + 1]);
    let db = byte_diff(a[i + 2], b[i + 2]);
    let m = if dr >= dg { dr } else { dg };
    if m >= db { m } else { db }
}

/// The heat-map byte at offset `i` (channel `i % 4` of pixel `i / 4`): a mismatched
/// pixel is red with alpha twice its difference (saturating), a matched one
/// transparent white.
pub open spec fn heat_byte(a: Seq<u8>, b: Seq<u8>, threshold: u8, i: int) -> u8 {
    let p = i - i % 4;
    let d = pixel_diff(a, b, p);
    if d > threshold {
        if i % 4 == 0 {
            0xff
        } else if i % 4 == 3 {
            if 2 * d > 255 { 255 } else { (2 * d) as u8 }
        } else {
            0
        }
    } else {
        if i % 4 == 3 { 0 } else { 0xff }
    }
}

fn abs_diff(a: u8, b: u8) -> (r: u8)
    ensures
        r == byte_diff(a, b),
{
    if a >= b { a - b } else { b - a }
}

/// Builds the mismatch heat map of two RGBA images of `width` x `height` pixels: each
/// pixel whose largest RGB difference exceeds the effective threshold becomes red with
/// alpha twice that difference (saturating), every other pixel transparent white.
/// Fails when either buffer is not exactly `width * height * 4` bytes long.
pub fn make_heatmap_rgba(
    our_rgba: &[u8],
    gt_rgba: &[u8],
    width: u32,
    height: u32,
    opts: &DiffOptions,
) -> (r: Result<Vec<u8>, String>)
    requires
        width * height * 4 <= usize::MAX,
    ensures
        r is Err <==> (our_rgba@.len() != width * height * 4 || gt_rgba@.len() != width * height
            * 4),
        r matches Err(e) ==> e@ == "buffer size mismatch"@,
        r matches Ok(out) ==> out@.len() == width * height * 4 && forall|i: int|
            0 <= i < out@.len() ==> out@[i] == heat_byte(
                our_rgba@,
                gt_rgba@,
                effective_threshold(*opts),
                i,
            ),
{
    let expected_size = (width as usize) * (height as usize) * 4;
    if our_rgba.len() != expected_size || gt_rgba.len() != expected_size {
        return Err("buffer size mismatch".to_string());
    }
    let threshold = match opts.aa_threshold {
        Some(t) => if opts.color_tolerance >= t { opts.color_tolerance } else { t },
        None => opts.color_tolerance,
    };
    let ghost th = effective_threshold(*opts);
    let mut out: Vec<u8> = Vec::new();
    let mut i: usize = 0;
    while i < expected_size
        invariant
            expected_size == our_rgba@.len(),
            expected_size == gt_rgba@.len(),
            expected_size % 4 == 0,
            i % 4 == 0,
            i <= expected_size,
            threshold == th,
            out@.len() == i,
            forall|j: int| 0 <= j < i ==> out@[j] == heat_byte(our_rgba@, gt_rgba@, th, j),
        decreases expected_size - i,
    {
        let dr = abs_diff(our_rgba[i], gt_rgba[i]);
        let dg = abs_diff(our_rgba[i + 1], gt_rgba[i + 1]);
        let db = abs_diff(our_rgba[i + 2], gt_rgba[i + 2]);
        let m1 = if dr >= dg { dr } else { dg };
        let max_d = if m1 >= db { m1 } else { db };
        assert(max_d == pixel_diff(our_rgba@, gt_rgba@, i as int));
        if max_d > threshold {
            out.push(0xff);
            out.push(0);
            out.push(0);
            out.push(if max_d > 127 { 255 } else { max_d * 2 });
        } else {
            out.push(0xff);
            out.push(0xff);
            out.push(0xff);
            out.push(0);
        }
        assert forall|j: int| i <= j < i + 4 implies out@[j] == heat_byte(our_rgba@, gt_rgba@, th, j) by {
            assert(j - j % 4 == i);
        }
        i = i + 4;
    }
    Ok(out)
}

/// Why two images could not be compared.
#[derive(Clone, Copy, Debug, PartialEq, Eq)]
pub enum DiffError {
    /// Our buffer is not `expected` bytes long.
    OurSizeMismatch { actual: usize, expected: usize },
    /// The reference buffer is not `expected` bytes long.
    GtSizeMismatch { actual: usize, expected: usize },
    /// One of the two buffers is not `expected` bytes long.
    BufferSizeMismatch { expected: usize, our: usize, gt: usize },
}

/// The counts of a page comparison: pixels compared, pixels that matched, pixels
/// that did not, and the sum of the differences of those that did not.
#[derive(Clone, Copy, Debug, PartialEq, Eq)]
pub struct PageCounts {
    pub total: u64,
    pub matched: u64,
    pub mismatched: u64,
    pub delta_sum: u128,
}

/// The difference of the pixels at byte offset `i`: the largest RGB difference, or
/// the alpha difference where alpha is compared and that is larger.
pub open spec fn pixel_delta(a: Seq<u8>, b: Seq<u8>, compare_alpha: bool, i: int) -> u8 {
    let d = pixel_diff(a, b, i);
    let da = byte_diff(a[i + 3], b[i + 3]);
    if compare_alpha && da > d { da } else { d }
}

/// The matched pixels and the summed difference of the unmatched ones among pixels
/// `x0 .. x` of row `y` (row width `w`), a pixel matching when its difference is at
/// most `threshold`.
pub open spec fn row_counts(
    a: Seq<u8>,
    b: Seq<u8>,
    compare_alpha: bool,
    threshold: u8,
    w: int,
    y: int,
    x0: int,
    x: int,
) -> (nat, nat)
    decreases x - x0,
{
    if x <= x0 {
        (0, 0)
    } else {
        let (m, d) = row_counts(a, b, compare_alpha, threshold, w, y, x0, x - 1);
        let dd = pixel_delta(a, b, compare_alpha, 4 * (y * w + x - 1));
        if dd <= threshold {
            (m + 1, d)
        } else {
            (m, (d + dd) as nat)
        }
    }
}

/// `row_counts` summed over the rows `y0 .. y`.
pub open spec fn region_counts(
    a: Seq<u8>,
    b: Seq<u8>,
    compare_alpha: bool,
    threshold: u8,
    w: int,
    x0: int,
    x1: int,
    y0: int,
    y: int,
) -> (nat, nat)
    decreases y - y0,
{
    if y <= y0 {
        (0, 0)
    } else {
        let (m, d) = region_counts(a, b, compare_alpha, threshold, w, x0, x1, y0, y - 1);
        let (rm, rd) = row_counts(a, b, compare_alpha, threshold, w, y - 1, x0, x1);
        (m + rm, d + rd)
    }
}

proof fn lemma_row_counts_self(a: Seq<u8>, compare_alpha: bool, threshold: u8, w: int, y: int, x0: int, x: int)
    requires
        x0 <= x,
    ensures
        row_counts(a, a, compare_alpha, threshold, w, y, x0, x) == ((x - x0) as nat, 0nat),
    decreases x - x0,
{
    if x > x0 {
        lemma_row_counts_self(a, compare_alpha, threshold, w, y, x0, x - 1);
    }
}

/// Comparing an image with itself matches every pixel of the region, whatever the
/// options: the matched count is the region's area and the summed difference is 0.
pub proof fn law_self_comparison_matches_all(
    a: Seq<u8>,
    compare_alpha: bool,
    threshold: u8,
    w: int,
    x0: int,
    x1: int,
    y0: int,
    y1: int,
)
    requires
        x0 <= x1,
        y0 <= y1,
    ensures
        region_counts(a, a, compare_alpha, threshold, w, x0, x1, y0, y1) == (((x1 - x0) * (y1 - y0)) as nat, 0nat),
    decreases y1 - y0,
{
    if y1 > y0 {
        law_self_comparison_matches_all(a, compare_alpha, threshold, w, x0, x1, y0, y1 - 1);
        lemma_row_counts_self(a, compare_alpha, threshold, w, y1 - 1, x0, x1);
        assert((x1 - x0) * (y1 - 1 - y0) + (x1 - x0) == (x1 - x0) * (y1 - y0)) by (nonlinear_arith);
        assert((x1 - x0) * (y1 - 1 - y0) >= 0) by (nonlinear_arith)
            requires
                x0 <= x1,
                y0 <= y1 - 1,
        ;
    } else {
        assert((x1 - x0) * (y1 - y0) == 0) by (nonlinear_arith)
            requires
                y1 == y0,
        ;
    }
}

/// The smaller of two integers.
pub open spec fn min_int(a: int, b: int) -> int {
    if a <= b { a } else { b }
}

/// The pixel box `(x0, y0, x1, y1)` a comparison covers: the region of interest
/// clipped to the image, or the whole image.
pub open spec fn roi_box(opts: DiffOptions, w: int, h: int) -> (int, int, int, int) {
    match opts.roi {
        Some(r) => (
            min_int(r.x as int, w),
            min_int(r.y as int, h),
            min_int(r.x + r.w, w),
            min_int(r.y + r.h, h),
        ),
        None => (0, 0, w, h),
    }
}

/// A region of interest whose far edges fit in `u32`.
pub open spec fn roi_fits(opts: DiffOptions) -> bool {
    opts.roi matches Some(r) ==> r.x + r.w <= u32::MAX && r.y + r.h <= u32::MAX
}

proof fn lemma_row_counts_bounds(
    a: Seq<u8>,
    b: Seq<u8>,
    compare_alpha: bool,
    threshold: u8,
    w: int,
    y: int,
    x0: int,
    x: int,
)
    requires
        x0 <= x,
    ensures
        row_counts(a, b, compare_alpha, threshold, w, y, x0, x).0 <= x - x0,
        row_counts(a, b, compare_alpha, threshold, w, y, x0, x).1 <= 255 * (x - x0),
    decreases x - x0,
{
    if x > x0 {
        lemma_row_counts_bounds(a, b, compare_alpha, threshold, w, y, x0, x - 1);
    }
}

proof fn lemma_region_counts_bounds(
    a: Seq<u8>,
    b: Seq<u8>,
    compare_alpha: bool,
    threshold: u8,
    w: int,
    x0: int,
    x1: int,
    y0: int,
    y: int,
)
    requires
        x0 <= x1,
        y0 <= y,
    ensures
        region_counts(a, b, compare_alpha, threshold, w, x0, x1, y0, y).0 <= (x1 - x0) * (y - y0),
        region_counts(a, b, compare_alpha, threshold, w, x0, x1, y0, y).1 <= 255 * ((x1 - x0) * (y
            - y0)),
    decreases y - y0,
{
    if y > y0 {
        lemma_region_counts_bounds(a, b, compare_alpha, threshold, w, x0, x1, y0, y - 1);
        lemma_row_counts_bounds(a, b, compare_alpha, threshold, w, y - 1, x0, x1);
        assert((x1 - x0) * (y - y0) == (x1 - x0) * (y - 1 - y0) + (x1 - x0)) by (nonlinear_arith);
    }
}

proof fn lemma_pixel_in_image(w: int, h: int, x: int, y: int)
    requires
        0 <= x < w,
        0 <= y < h,
    ensures
        0 <= y * w + x,
        4 * (y * w + x) + 3 < 4 * (w * h),
        (y * w + x) * 4 == 4 * (y * w + x),
{
    assert(0 <= y * w) by (nonlinear_arith)
        requires
            0 <= y,
            0 <= w,
    ;
    assert(y * w + x < w * h) by (nonlinear_arith)
        requires
            0 <= x < w,
            0 <= y < h,
    ;
}

fn min_u32(a: u32, b: u32) -> (r: u32)
    ensures
        r == min_int(a as int, b as int),
{
    if a <= b { a } else { b }
}

/// Compares two RGBA images of `width` x `height` pixels over the region of interest
/// (the whole image without one): counts the pixels compared, those whose difference
/// (`pixel_delta`) is within the effective threshold, those that are not, and sums the
/// differences of the latter. Fails when our buffer, then the reference buffer, is not
/// exactly `width * height * 4` bytes long.
pub fn score_pages_counts(
    our_rgba: &[u8],
    gt_rgba: &[u8],
    width: u32,
    height: u32,
    opts: &DiffOptions,
) -> (r: Result<PageCounts, DiffError>)
    requires
        width * height * 4 <= usize::MAX,
        roi_fits(*opts),
    ensures
        our_rgba@.len() != width * height * 4 ==> r == Err::<PageCounts, DiffError>(
            DiffError::OurSizeMismatch {
                actual: our_rgba@.len() as usize,
                expected: (width * height * 4) as usize,
            },
        ),
        our_rgba@.len() == width * height * 4 && gt_rgba@.len() != width * height * 4 ==> r
            == Err::<PageCounts, DiffError>(
            DiffError::GtSizeMismatch {
                actual: gt_rgba@.len() as usize,
                expected: (width * height * 4) as usize,
            },
        ),
        (our_rgba@.len() == width * height * 4 && gt_rgba@.len() == width * height * 4) ==> r is Ok,
        r matches Ok(c) ==> {
            let (x0, y0, x1, y1) = roi_box(*opts, width as int, height as int);
            let (m, d) = region_counts(
                our_rgba@,
                gt_rgba@,
                opts.compare_alpha,
                effective_threshold(*opts),
                width as int,
                x0,
                x1,
                y0,
                y1,
            );
            &&& our_rgba@.len() == width * height * 4
            &&& gt_rgba@.len() == width * height * 4
            &&& c.total == (x1 - x0) * (y1 - y0)
            &&& c.matched == m
            &&& c.mismatched == c.total - c.matched
            &&& c.delta_sum == d
        },
{
    let expected_size = (width as usize) * (height as usize) * 4;
    if our_rgba.len() != expected_size {
        return Err(DiffError::OurSizeMismatch { actual: our_rgba.len(), expected: expected_size });
    }
    if gt_rgba.len() != expected_size {
        return Err(DiffError::GtSizeMismatch { actual: gt_rgba.len(), expected: expected_size });
    }
    let (x0, y0, x1, y1) = match opts.roi {
        Some(r) => (
            min_u32(r.x, width),
            min_u32(r.y, height),
            min_u32(r.x + r.w, width),
            min_u32(r.y + r.h, height),
        ),
        None => (0u32, 0u32, width, height),
    };
    let threshold = match opts.aa_threshold {
        Some(t) => if opts.color_tolerance >= t { opts.color_tolerance } else { t },
        None => opts.color_tolerance,
    };
    let compare_alpha = opts.compare_alpha;
    let ghost a = our_rgba@;
    let ghost b = gt_rgba@;
    let ghost w = width as int;
    let ghost h = height as int;
    assert(x0 <= x1 <= w && y0 <= y1 <= h);
    assert((x1 - x0) * (y1 - y0) <= w * h) by (nonlinear_arith)
        requires
            0 <= x0 <= x1 <= w,
            0 <= y0 <= y1 <= h,
    ;
    let mut total: u64 = 0;
    let mut matched: u64 = 0;
    let mut delta_sum: u128 = 0;
    let mut y: u32 = y0;
    while y < y1
        invariant
            a == our_rgba@,
            b == gt_rgba@,
            a.len() == 4 * (w * h),
            b.len() == 4 * (w * h),
            w == width,
            h == height,
            w * h * 4 <= usize::MAX,
            x0 <= x1 <= w,
            y0 <= y <= y1,
            y1 <= h,
            (x1 - x0) * (y1 - y0) <= w * h,
            threshold == effective_threshold(*opts),
            compare_alpha == opts.compare_alpha,
            total == (x1 - x0) * (y - y0),
            (matched as nat, delta_sum as nat) == region_counts(
                a,
                b,
                compare_alpha,
                threshold,
                w,
                x0 as int,
                x1 as int,
                y0 as int,
                y as int,
            ),
        decreases y1 - y,
    {
        proof {
            lemma_region_counts_bounds(a, b, compare_alpha, threshold, w, x0 as int, x1 as int, y0 as int, y as int);
            assert((x1 - x0) * (y - y0) + (x1 - x0) == (x1 - x0) * (y + 1 - y0)) by (nonlinear_arith);
            assert((x1 - x0) * (y + 1 - y0) <= (x1 - x0) * (y1 - y0)) by (nonlinear_arith)
                requires
                    y + 1 <= y1,
                    x0 <= x1,
            ;
        }
        let ghost base = region_counts(a, b, compare_alpha, threshold, w, x0 as int, x1 as int, y0 as int, y as int);
        let mut x: u32 = x0;
        while x < x1
            invariant
                a == our_rgba@,
                b == gt_rgba@,
                a.len() == 4 * (w * h),
                b.len() == 4 * (w * h),
                w == width,
                h == height,
                w * h * 4 <= usize::MAX,
                x0 <= x <= x1,
                x1 <= w,
                y0 <= y < y1,
                y1 <= h,
                (x1 - x0) * (y + 1 - y0) <= w * h,
                base.0 <= (x1 - x0) * (y - y0),
                base.1 <= 255 * ((x1 - x0) * (y - y0)),
                threshold == effective_threshold(*opts),
                compare_alpha == opts.compare_alpha,
                total == (x1 - x0) * (y - y0) + (x - x0),
                matched == base.0 + row_counts(a, b, compare_alpha, threshold, w, y as int, x0 as int, x as int).0,
                delta_sum == base.1 + row_counts(a, b, compare_alpha, threshold, w, y as int, x0 as int, x as int).1,
            decreases x1 - x,
        {
            proof {
                lemma_pixel_in_image(w, h, x as int, y as int);
                lemma_row_counts_bounds(a, b, compare_alpha, threshold, w, y as int, x0 as int, x as int);
                assert((x1 - x0) * (y + 1 - y0) == (x1 - x0) * (y - y0) + (x1 - x0)) by (nonlinear_arith);
                assert(w * h * 4 <= u64::MAX);
            }
            let idx: usize = ((y as usize) * (width as usize) + (x as usize)) * 4;
            let dr = abs_diff(our_rgba[idx], gt_rgba[idx]);
            let dg = abs_diff(our_rgba[idx + 1], gt_rgba[idx + 1]);
            let db = abs_diff(our_rgba[idx + 2], gt_rgba[idx + 2]);
            let da = abs_diff(our_rgba[idx + 3], gt_rgba[idx + 3]);
            let m1 = if dr >= dg { dr } else { dg };
            let max_d = if m1 >= db { m1 } else { db };
            let max_d_with_a = if compare_alpha && da > max_d { da } else { max_d };
            assert(max_d_with_a == pixel_delta(a, b, compare_alpha, 4 * (y * w + x)));
            total = total + 1;
            if max_d_with_a <= threshold {
                matched = matched + 1;
            } else {
                delta_sum = delta_sum + max_d_with_a as u128;
            }
            x = x + 1;
        }
        y = y + 1;
    }
    proof {
        lemma_region_counts_bounds(a, b, compare_alpha, threshold, w, x0 as int, x1 as int, y0 as int, y1 as int);
    }
    Ok(PageCounts { total, matched, mismatched: total - matched, delta_sum })
}

/// The absolute value of an integer.
pub open spec fn abs_int(v: int) -> int {
    if v >= 0 { v } else { -v }
}

/// The mask bit of pixel `(x, y)` of a row-major mask of width `w`.
pub open spec fn at(s: Seq<bool>, w: int, x: int, y: int) -> bool {
    s[y * w + x]
}

/// Whether `(tx, ty)` lies within Manhattan distance `r` of `(x, y)`.
pub open spec fn near(x: int, y: int, tx: int, ty: int, r: int) -> bool {
    abs_int(tx - x) + abs_int(ty - y) <= r
}

/// Whether pixel `(x, y)` of the dilation of `mask` (`w` x `h` pixels) by the
/// Manhattan ball of radius `r` is set: some set pixel of `mask` lies within distance
/// `r` of it.
pub open spec fn dilated_at(mask: Seq<bool>, w: int, h: int, r: int, x: int, y: int) -> bool {
    exists|qx: int, qy: int|
        #![trigger at(mask, w, qx, qy)]
        0 <= qx < w && 0 <= qy < h && at(mask, w, qx, qy) && near(qx, qy, x, y, r)
}

/// Whether source pixel `(qx, qy)` comes before `(sx, sy)` in row-major order.
pub open spec fn seen_before(qx: int, qy: int, sx: int, sy: int) -> bool {
    qy < sy || (qy == sy && qx < sx)
}

/// `dilated_at` restricted to the source pixels before `(sx, sy)`.
pub open spec fn covered(
    mask: Seq<bool>,
    w: int,
    h: int,
    r: int,
    sx: int,
    sy: int,
    tx: int,
    ty: int,
) -> bool {
    exists|qx: int, qy: int|
        #![trigger at(mask, w, qx, qy)]
        0 <= qx < w && 0 <= qy < h && seen_before(qx, qy, sx, sy) && at(mask, w, qx, qy) && near(
            qx,
            qy,
            tx,
            ty,
            r,
        )
}

proof fn lemma_covered_step(mask: Seq<bool>, w: int, h: int, r: int, sx: int, sy: int, tx: int, ty: int)
    requires
        0 <= sx < w,
        0 <= sy < h,
    ensures
        covered(mask, w, h, r, sx + 1, sy, tx, ty) == (covered(mask, w, h, r, sx, sy, tx, ty) || (
        at(mask, w, sx, sy) && near(sx, sy, tx, ty, r))),
{
    if covered(mask, w, h, r, sx + 1, sy, tx, ty) {
        let (qx, qy) = choose|qx: int, qy: int|
            #![trigger at(mask, w, qx, qy)]
            0 <= qx < w && 0 <= qy < h && seen_before(qx, qy, sx + 1, sy) && at(mask, w, qx, qy)
                && near(qx, qy, tx, ty, r);
        if !(qx == sx && qy == sy) {
            assert(seen_before(qx, qy, sx, sy));
            assert(covered(mask, w, h, r, sx, sy, tx, ty));
        }
    }
    if covered(mask, w, h, r, sx, sy, tx, ty) {
        let (qx, qy) = choose|qx: int, qy: int|
            #![trigger at(mask, w, qx, qy)]
            0 <= qx < w && 0 <= qy < h && seen_before(qx, qy, sx, sy) && at(mask, w, qx, qy)
                && near(qx, qy, tx, ty, r);
        assert(seen_before(qx, qy, sx + 1, sy));
    }
    if at(mask, w, sx, sy) && near(sx, sy, tx, ty, r) {
        assert(seen_before(sx, sy, sx + 1, sy));
    }
}

proof fn lemma_covered_row_wrap(mask: Seq<bool>, w: int, h: int, r: int, sy: int, tx: int, ty: int)
    ensures
        covered(mask, w, h, r, w, sy, tx, ty) == covered(mask, w, h, r, 0, sy + 1, tx, ty),
{
    if covered(mask, w, h, r, w, sy, tx, ty) {
        let (qx, qy) = choose|qx: int, qy: int|
            #![trigger at(mask, w, qx, qy)]
            0 <= qx < w && 0 <= qy < h && seen_before(qx, qy, w, sy) && at(mask, w, qx, qy) && near(
                qx,
                qy,
                tx,
                ty,
                r,
            );
        assert(seen_before(qx, qy, 0, sy + 1));
    }
    if covered(mask, w, h, r, 0, sy + 1, tx, ty) {
        let (qx, qy) = choose|qx: int, qy: int|
            #![trigger at(mask, w, qx, qy)]
            0 <= qx < w && 0 <= qy < h && seen_before(qx, qy, 0, sy + 1) && at(mask, w, qx, qy)
                && near(qx, qy, tx, ty, r);
        assert(seen_before(qx, qy, w, sy));
    }
}

proof fn lemma_covered_all(mask: Seq<bool>, w: int, h: int, r: int, tx: int, ty: int)
    ensures
        covered(mask, w, h, r, 0, h, tx, ty) == dilated_at(mask, w, h, r, tx, ty),
        !covered(mask, w, h, r, 0, 0, tx, ty),
{
    if dilated_at(mask, w, h, r, tx, ty) {
        let (qx, qy) = choose|qx: int, qy: int|
            #![trigger at(mask, w, qx, qy)]
            0 <= qx < w && 0 <= qy < h && at(mask, w, qx, qy) && near(qx, qy, tx, ty, r);
        assert(seen_before(qx, qy, 0, h));
    }
}

proof fn lemma_index_of(w: int, h: int, x: int, y: int)
    requires
        0 <= x < w,
        0 <= y < h,
    ensures
        0 <= y * w + x < w * h,
{
    assert(0 <= y * w) by (nonlinear_arith)
        requires
            0 <= y,
            0 <= w,
    ;
    assert(y * w + x < w * h) by (nonlinear_arith)
        requires
            0 <= x < w,
            0 <= y < h,
    ;
}

proof fn lemma_index_unique(w: int, x1: int, y1: int, x2: int, y2: int)
    requires
        0 <= x1 < w,
        0 <= x2 < w,
        y1 * w + x1 == y2 * w + x2,
    ensures
        x1 == x2,
        y1 == y2,
{
    if y1 < y2 {
        assert(y1 * w + w <= y2 * w) by (nonlinear_arith)
            requires
                y1 < y2,
                0 < w,
        ;
    } else if y2 < y1 {
        assert(y2 * w + w <= y1 * w) by (nonlinear_arith)
            requires
                y2 < y1,
                0 < w,
        ;
    }
}

/// Dilates a `w` x `h` pixel mask by the Manhattan ball of radius `radius`: a pixel
/// of the result is set when some set pixel of `mask` lies within that distance
/// (radius 0 gives the mask itself).
pub fn dilate_mask(mask: &[bool], w: usize, h: usize, radius: u32) -> (out: Vec<bool>)
    requires
        mask@.len() == w * h,
        radius > 0 ==> w + radius <= 0x8000_0000 && h + radius <= 0x8000_0000,
    ensures
        out@.len() == mask@.len(),
        forall|x: int, y: int|
            0 <= x < w && 0 <= y < h ==> #[trigger] at(out@, w as int, x, y) == dilated_at(
                mask@,
                w as int,
                h as int,
                radius as int,
                x,
                y,
            ),
{
    let n = mask.len();
    let ghost m = mask@;
    let ghost wi = w as int;
    let ghost hi = h as int;
    let ghost ri = radius as int;
    let mut out: Vec<bool> = Vec::new();
    if radius == 0 {
        let mut i: usize = 0;
        while i < n
            invariant
                n == m.len(),
                m == mask@,
                i <= n,
                out@ == m.subrange(0, i as int),
            decreases n - i,
        {
            out.push(mask[i]);
            i = i + 1;
        }
        assert(out@ == m);
        assert forall|x: int, y: int| 0 <= x < w && 0 <= y < h implies #[trigger] at(out@, wi, x, y)
            == dilated_at(m, wi, hi, 0, x, y) by {
            lemma_index_of(wi, hi, x, y);
            if at(m, wi, x, y) {
                assert(near(x, y, x, y, 0));
            }
            if dilated_at(m, wi, hi, 0, x, y) {
                let (qx, qy) = choose|qx: int, qy: int|
                    #![trigger at(m, wi, qx, qy)]
                    0 <= qx < wi && 0 <= qy < hi && at(m, wi, qx, qy) && near(qx, qy, x, y, 0);
                assert(qx == x && qy == y);
            }
        }
        return out;
    }
    let mut i: usize = 0;
    while i < n
        invariant
            i <= n,
            out@.len() == i,
            forall|j: int| 0 <= j < i ==> !out@[j],
        decreases n - i,
    {
        out.push(false);
        i = i + 1;
    }
    let r: i64 = radius as i64;
    let wl: i64 = w as i64;
    let hl: i64 = h as i64;
    proof {
        assert forall|tx: int, ty: int| 0 <= tx < w && 0 <= ty < h implies #[trigger] at(out@, wi, tx, ty)
            == covered(m, wi, hi, ri, 0, 0, tx, ty) by {
            lemma_index_of(wi, hi, tx, ty);
            lemma_covered_all(m, wi, hi, ri, tx, ty);
        }
    }
    let mut y: i64 = 0;
    while y < hl
        invariant
            m == mask@,
            n == m.len(),
            n == wi * hi,
            wi == w,
            hi == h,
            wl == w,
            hl == h,
            ri == radius,
            r == radius,
            0 < r,
            wi + ri <= 0x8000_0000,
            hi + ri <= 0x8000_0000,
            0 <= y <= hl,
            out@.len() == n,
            forall|tx: int, ty: int|
                0 <= tx < w && 0 <= ty < h ==> #[trigger] at(out@, wi, tx, ty) == covered(
                    m,
                    wi,
                    hi,
                    ri,
                    0,
                    y as int,
                    tx,
                    ty,
                ),
        decreases hl - y,
    {
        let mut x: i64 = 0;
        while x < wl
            invariant
                m == mask@,
                n == m.len(),
                n == wi * hi,
                wi == w,
                hi == h,
                wl == w,
                hl == h,
                ri == radius,
                r == radius,
                0 < r,
                wi + ri <= 0x8000_0000,
                hi + ri <= 0x8000_0000,
                0 <= y < hl,
                0 <= x <= wl,
                out@.len() == n,
                forall|tx: int, ty: int|
                    0 <= tx < w && 0 <= ty < h ==> #[trigger] at(out@, wi, tx, ty) == covered(
                        m,
                        wi,
                        hi,
                        ri,
                        x as int,
                        y as int,
                        tx,
                        ty,
                    ),
            decreases wl - x,
        {
            proof {
                lemma_index_of(wi, hi, x as int, y as int);
            }
            let src = (y as usize) * w + (x as usize);
            let ghost before = out@;
            if mask[src] {
                let mut dy: i64 = -r;
                while dy <= r
                    invariant
                        m == mask@,
                        n == m.len(),
                        n == wi * hi,
                        wi == w,
                        hi == h,
                        wl == w,
                        hl == h,
                        r == ri,
                        0 < r,
                        wi + ri <= 0x8000_0000,
                        hi + ri <= 0x8000_0000,
                        0 <= y < hl,
                        0 <= x < wl,
                        -r <= dy <= r + 1,
                        out@.len() == n,
                        before.len() == n,
                        forall|tx: int, ty: int|
                            0 <= tx < w && 0 <= ty < h ==> #[trigger] at(out@, wi, tx, ty) == (at(
                                before,
                                wi,
                                tx,
                                ty,
                            ) || (near(x as int, y as int, tx, ty, ri) && ty < y + dy)),
                    decreases r + 1 - dy,
                {
                    let ny = y + dy;
                    if 0 <= ny && ny < hl {
                        let ady: i64 = if dy >= 0 { dy } else { -dy };
                        let remain: i64 = r - ady;
                        let ghost row_start = out@;
                        let mut dx: i64 = -remain;
                        while dx <= remain
                            invariant
                                n == wi * hi,
                                wi == w,
                                hi == h,
                                wl == w,
                                hl == h,
                                r == ri,
                                0 < r,
                                wi + ri <= 0x8000_0000,
                                hi + ri <= 0x8000_0000,
                                0 <= y < hl,
                                0 <= x < wl,
                                -r <= dy <= r,
                                ny == y + dy,
                                0 <= ny < hl,
                                ady == abs_int(dy as int),
                                remain == r - ady,
                                0 <= remain,
                                -remain <= dx <= remain + 1,
                                out@.len() == n,
                                row_start.len() == n,
                                forall|tx: int, ty: int|
                                    0 <= tx < w && 0 <= ty < h ==> #[trigger] at(out@, wi, tx, ty) == (
                                    at(row_start, wi, tx, ty) || (ty == ny && abs_int(tx - x) <= remain
                                        && tx < x + dx)),
                            decreases remain + 1 - dx,
                        {
                            let nx = x + dx;
                            if 0 <= nx && nx < wl {
                                proof {
                                    lemma_index_of(wi, hi, nx as int, ny as int);
                                }
                                let t = (ny as usize) * w + (nx as usize);
                                let ghost prev = out@;
                                out.set(t, true);
                                proof {
                                    assert forall|tx: int, ty: int| 0 <= tx < w && 0 <= ty < h implies #[trigger] at(out@, wi, tx, ty) == (
                                        at(row_start, wi, tx, ty) || (ty == ny && abs_int(tx - x) <= remain
                                            && tx < x + dx + 1)) by {
                                        lemma_index_of(wi, hi, tx, ty);
                                        if ty * wi + tx == t {
                                            lemma_index_unique(wi, tx, ty, nx as int, ny as int);
                                        } else {
                                            assert(at(out@, wi, tx, ty) == at(prev, wi, tx, ty));
                                            if tx == nx && ty == ny {
                                                assert(ty * wi + tx == t);
                                            }
                                        }
                                    }
                                }
                            } else {
                                proof {
                                    assert forall|tx: int, ty: int| 0 <= tx < w && 0 <= ty < h implies #[trigger] at(out@, wi, tx, ty) == (
                                        at(row_start, wi, tx, ty) || (ty == ny && abs_int(tx - x) <= remain
                                            && tx < x + dx + 1)) by {
                                        assert(tx != nx);
                                    }
                                }
                            }
                            dx = dx + 1;
                        }
                        proof {
                            assert forall|tx: int, ty: int| 0 <= tx < w && 0 <= ty < h implies #[trigger] at(out@, wi, tx, ty) == (at(
                                before,
                                wi,
                                tx,
                                ty,
                            ) || (near(x as int, y as int, tx, ty, ri) && ty < y + dy + 1)) by {
                                assert(at(out@, wi, tx, ty) == (at(row_start, wi, tx, ty) || (ty == ny && abs_int(tx - x) <= remain)));
                            }
                        }
                    } else {
                        proof {
                            assert forall|tx: int, ty: int| 0 <= tx < w && 0 <= ty < h implies #[trigger] at(out@, wi, tx, ty) == (at(
                                before,
                                wi,
                                tx,
                                ty,
                            ) || (near(x as int, y as int, tx, ty, ri) && ty < y + dy + 1)) by {
                                assert(ty != ny);
                            }
                        }
                    }
                    dy = dy + 1;
                }
            }
            proof {
                assert forall|tx: int, ty: int| 0 <= tx < w && 0 <= ty < h implies #[trigger] at(out@, wi, tx, ty) == covered(
                    m,
                    wi,
                    hi,
                    ri,
                    x + 1,
                    y as int,
                    tx,
                    ty,
                ) by {
                    lemma_covered_step(m, wi, hi, ri, x as int, y as int, tx, ty);
                    assert(at(m, wi, x as int, y as int) == mask@[src as int]);
                    if !mask@[src as int] {
                        assert(out@ == before);
                    } else if near(x as int, y as int, tx, ty, ri) {
                        assert(ty <= y + r);
                    }
                }
            }
            x = x + 1;
        }
        proof {
            assert forall|tx: int, ty: int| 0 <= tx < w && 0 <= ty < h implies #[trigger] at(out@, wi, tx, ty) == covered(
                m,
                wi,
                hi,
                ri,
                0,
                y + 1,
                tx,
                ty,
            ) by {
                lemma_covered_row_wrap(m, wi, hi, ri, y as int, tx, ty);
            }
        }
        y = y + 1;
    }
    proof {
        assert forall|tx: int, ty: int| 0 <= tx < w && 0 <= ty < h implies #[trigger] at(out@, wi, tx, ty) == dilated_at(
            m,
            wi,
            hi,
            ri,
            tx,
            ty,
        ) by {
            lemma_covered_all(m, wi, hi, ri, tx, ty);
        }
    }
    out
}

/// Whether a pixel of luminance `lum` counts as ink: darker than `ink_threshold`.
pub open spec fn is_ink(lum: u32, ink_threshold: u8) -> bool {
    lum < ink_threshold
}

/// The pixels compared, the matched ones and the summed difference of the unmatched
/// ones among pixels `0 .. k`, comparing only pixels that are ink in either image; a
/// pixel matches when its largest RGB difference is at most `threshold`.
pub open spec fn ink_counts(
    a: Seq<u8>,
    b: Seq<u8>,
    our_lum: Seq<u32>,
    gt_lum: Seq<u32>,
    ink_threshold: u8,
    threshold: u8,
    k: int,
) -> (nat, nat, nat)
    decreases k,
{
    if k <= 0 {
        (0, 0, 0)
    } else {
        let (t, m, d) = ink_counts(a, b, our_lum, gt_lum, ink_threshold, threshold, k - 1);
        let p = k - 1;
        if !is_ink(our_lum[p], ink_threshold) && !is_ink(gt_lum[p], ink_threshold) {
            (t, m, d)
        } else {
            let dd = pixel_diff(a, b, 4 * p);
            if dd <= threshold {
                (t + 1, m + 1, d)
            } else {
                (t + 1, m, (d + dd) as nat)
            }
        }
    }
}

/// Comparing an image with itself on its ink matches every pixel compared: the
/// matched count equals the compared count and the summed difference is 0.
pub proof fn law_self_ink_comparison_matches_all(
    a: Seq<u8>,
    our_lum: Seq<u32>,
    gt_lum: Seq<u32>,
    ink_threshold: u8,
    threshold: u8,
    k: int,
)
    ensures
        ink_counts(a, a, our_lum, gt_lum, ink_threshold, threshold, k).1 == ink_counts(a, a, our_lum, gt_lum, ink_threshold, threshold, k).0,
        ink_counts(a, a, our_lum, gt_lum, ink_threshold, threshold, k).2 == 0,
    decreases k,
{
    if k > 0 {
        law_self_ink_comparison_matches_all(a, our_lum, gt_lum, ink_threshold, threshold, k - 1);
    }
}

proof fn lemma_ink_counts_bounds(
    a: Seq<u8>,
    b: Seq<u8>,
    our_lum: Seq<u32>,
    gt_lum: Seq<u32>,
    ink_threshold: u8,
    threshold: u8,
    k: int,
)
    requires
        0 <= k,
    ensures
        ink_counts(a, b, our_lum, gt_lum, ink_threshold, threshold, k).1 <= ink_counts(
            a,
            b,
            our_lum,
            gt_lum,
            ink_threshold,
            threshold,
            k,
        ).0 <= k,
        ink_counts(a, b, our_lum, gt_lum, ink_threshold, threshold, k).2 <= 255 * k,
    decreases k,
{
    if k > 0 {
        lemma_ink_counts_bounds(a, b, our_lum, gt_lum, ink_threshold, threshold, k - 1);
    }
}

/// Compares two RGBA images of `width` x `height` pixels on their ink only: a pixel
/// takes part when its luminance (`our_lum`, `gt_lum`, one per pixel) marks it as ink
/// in either image; the counts are those of `ink_counts`. Fails when either buffer is
/// not exactly `width * height * 4` bytes long.
pub fn score_pages_ink_only_counts(
    our_rgba: &[u8],
    gt_rgba: &[u8],
    our_lum: &[u32],
    gt_lum: &[u32],
    width: u32,
    height: u32,
    opts: &DiffOptions,
    ink_threshold: u8,
) -> (r: Result<PageCounts, DiffError>)
    requires
        width * height * 4 <= usize::MAX,
        our_rgba@.len() == width * height * 4 && gt_rgba@.len() == width * height * 4 ==> our_lum@.len()
            == width * height && gt_lum@.len() == width * height,
    ensures
        r is Err <==> (our_rgba@.len() != width * height * 4 || gt_rgba@.len() != width * height
            * 4),
        r matches Err(e) ==> e == (DiffError::BufferSizeMismatch {
            expected: (width * height * 4) as usize,
            our: our_rgba@.len() as usize,
            gt: gt_rgba@.len() as usize,
        }),
        r matches Ok(c) ==> {
            let (t, m, d) = ink_counts(
                our_rgba@,
                gt_rgba@,
                our_lum@,
                gt_lum@,
                ink_threshold,
                effective_threshold(*opts),
                width * height,
            );
            &&& c.total == t
            &&& c.matched == m
            &&& c.mismatched == t - m
            &&& c.delta_sum == d
        },
{
    let expected_size = (width as usize) * (height as usize) * 4;
    if our_rgba.len() != expected_size || gt_rgba.len() != expected_size {
        return Err(
            DiffError::BufferSizeMismatch {
                expected: expected_size,
                our: our_rgba.len(),
                gt: gt_rgba.len(),
            },
        );
    }
    let threshold = match opts.aa_threshold {
        Some(t) => if opts.color_tolerance >= t { opts.color_tolerance } else { t },
        None => opts.color_tolerance,
    };
    let n: usize = (width as usize) * (height as usize);
    let ghost a = our_rgba@;
    let ghost b = gt_rgba@;
    let mut total: u64 = 0;
    let mut matched: u64 = 0;
    let mut delta_sum: u128 = 0;
    let mut p: usize = 0;
    while p < n
        invariant
            a == our_rgba@,
            b == gt_rgba@,
            n == width * height,
            a.len() == 4 * n,
            b.len() == 4 * n,
            our_lum@.len() == n,
            gt_lum@.len() == n,
            4 * n <= usize::MAX,
            p <= n,
            threshold == effective_threshold(*opts),
            (total as nat, matched as nat, delta_sum as nat) == ink_counts(
                a,
                b,
                our_lum@,
                gt_lum@,
                ink_threshold,
                threshold,
                p as int,
            ),
        decreases n - p,
    {
        proof {
            lemma_ink_counts_bounds(a, b, our_lum@, gt_lum@, ink_threshold, threshold, p as int);
            assert(4 * n <= u64::MAX);
        }
        let our_ink = our_lum[p] < ink_threshold as u32;
        let gt_ink = gt_lum[p] < ink_threshold as u32;
        if our_ink || gt_ink {
            let idx = p * 4;
            let dr = abs_diff(our_rgba[idx], gt_rgba[idx]);
            let dg = abs_diff(our_rgba[idx + 1], gt_rgba[idx + 1]);
            let db = abs_diff(our_rgba[idx + 2], gt_rgba[idx + 2]);
            let m1 = if dr >= dg { dr } else { dg };
            let max_d = if m1 >= db { m1 } else { db };
            assert(max_d == pixel_diff(a, b, 4 * p));
            total = total + 1;
            if max_d <= threshold {
                matched = matched + 1;
            } else {
                delta_sum = delta_sum + max_d as u128;
            }
        }
        p = p + 1;
    }
    proof {
        lemma_ink_counts_bounds(a, b, our_lum@, gt_lum@, ink_threshold, threshold, n as int);
    }
    Ok(PageCounts { total, matched, mismatched: total - matched, delta_sum })
}

/// The ink mask of a luminance image.
pub open spec fn ink_mask(lum: Seq<u32>, ink_threshold: u8) -> Seq<bool> {
    Seq::new(lum.len(), |i: int| is_ink(lum[i], ink_threshold))
}

/// The dilation of a `w` x `h` mask by the Manhattan ball of radius `r`, as a
/// row-major sequence.
pub open spec fn dilation(mask: Seq<bool>, w: int, h: int, r: int) -> Seq<bool> {
    Seq::new(mask.len(), |p: int| dilated_at(mask, w, h, r, p % w, p / w))
}

/// Entry `p` of a row-major `w` x `h` mask is pixel `(p % w, p / w)`, inside the image.
proof fn lemma_pixel_of_index(p: int, w: int, h: int)
    requires
        0 <= p < w * h,
        0 < w,
        0 <= h,
    ensures
        0 <= p % w < w,
        0 <= p / w < h,
        (p / w) * w + p % w == p,
{
    vstd::arithmetic::div_mod::lemma_fundamental_div_mod(p, w);
    vstd::arithmetic::div_mod::lemma_mod_pos_bound(p, w);
    vstd::arithmetic::div_mod::lemma_div_pos_is_pos(p, w);
    let q = p / w;
    assert(q * w == w * q) by (nonlinear_arith);
    assert(q < h) by (nonlinear_arith)
        requires
            w * q <= p,
            p < w * h,
            0 < w,
    ;
}

/// Dilating by radius 0 gives the mask itself, and every set pixel of a mask stays
/// set in its dilation by any radius.
pub proof fn law_dilation_keeps_mask(mask: Seq<bool>, w: int, h: int, r: int)
    requires
        mask.len() == w * h,
        0 <= w,
        0 <= h,
        0 <= r,
    ensures
        dilation(mask, w, h, 0) == mask,
        forall|p: int| 0 <= p < mask.len() && #[trigger] mask[p] ==> dilation(mask, w, h, r)[p],
{
    assert forall|p: int| 0 <= p < mask.len() implies #[trigger] dilation(mask, w, h, 0)[p] == mask[p]
        && (mask[p] ==> dilation(mask, w, h, r)[p]) by {
        assert(0 < w) by (nonlinear_arith)
            requires
                0 <= p < w * h,
                0 <= w,
                0 <= h,
        ;
        lemma_pixel_of_index(p, w, h);
        let x = p % w;
        let y = p / w;
        assert(at(mask, w, x, y) == mask[p]);
        assert(near(x, y, x, y, r));
        if dilated_at(mask, w, h, 0, x, y) {
            let (qx, qy) = choose|qx: int, qy: int|
                #![trigger at(mask, w, qx, qy)]
                0 <= qx < w && 0 <= qy < h && at(mask, w, qx, qy) && near(qx, qy, x, y, 0);
            assert(qx == x && qy == y);
        }
    }
    assert(dilation(mask, w, h, 0) =~= mask);
}

/// Dilation grows with the radius: a pixel set at radius `r1` is set at any larger
/// radius `r2`.
pub proof fn law_dilation_monotone(mask: Seq<bool>, w: int, h: int, r1: int, r2: int)
    requires
        mask.len() == w * h,
        0 <= r1 <= r2,
    ensures
        forall|p: int| 0 <= p < mask.len() && #[trigger] dilation(mask, w, h, r1)[p] ==> dilation(mask, w, h, r2)[p],
{
    assert forall|p: int| 0 <= p < mask.len() && #[trigger] dilation(mask, w, h, r1)[p] implies dilation(mask, w, h, r2)[p] by {
        let x = p % w;
        let y = p / w;
        let (qx, qy) = choose|qx: int, qy: int|
            #![trigger at(mask, w, qx, qy)]
            0 <= qx < w && 0 <= qy < h && at(mask, w, qx, qy) && near(qx, qy, x, y, r1);
        assert(near(qx, qy, x, y, r2));
    }
}

/// The number of set entries among the first `k` of `s`.
pub open spec fn count_true(s: Seq<bool>, k: int) -> nat
    decreases k,
{
    if k <= 0 {
        0
    } else {
        count_true(s, k - 1) + if s[k - 1] { 1nat } else { 0nat }
    }
}

/// The number of positions among the first `k` set in both `s` and `t`.
pub open spec fn count_both(s: Seq<bool>, t: Seq<bool>, k: int) -> nat
    decreases k,
{
    if k <= 0 {
        0
    } else {
        count_both(s, t, k - 1) + if s[k - 1] && t[k - 1] { 1nat } else { 0nat }
    }
}

/// The number of positions among the first `k` set in `s` or in `t`.
pub open spec fn count_either(s: Seq<bool>, t: Seq<bool>, k: int) -> nat
    decreases k,
{
    if k <= 0 {
        0
    } else {
        count_either(s, t, k - 1) + if s[k - 1] || t[k - 1] { 1nat } else { 0nat }
    }
}

/// The IoU counts do not depend on which image is ours: intersection and union are
/// symmetric, and an image compared with itself has its intersection equal to its
/// union (an IoU of 100 %).
pub proof fn law_iou_counts_symmetric(s: Seq<bool>, t: Seq<bool>, k: int)
    ensures
        count_both(s, t, k) == count_both(t, s, k),
        count_either(s, t, k) == count_either(t, s, k),
        count_both(s, s, k) == count_either(s, s, k),
        count_both(s, s, k) == count_true(s, k),
    decreases k,
{
    if k > 0 {
        law_iou_counts_symmetric(s, t, k - 1);
    }
}

proof fn lemma_counts_bounded(s: Seq<bool>, t: Seq<bool>, k: int)
    requires
        0 <= k,
    ensures
        count_true(s, k) <= k,
        count_both(s, t, k) <= k,
        count_either(s, t, k) <= k,
    decreases k,
{
    if k > 0 {
        lemma_counts_bounded(s, t, k - 1);
    }
}

proof fn lemma_pixel_coords(w: int, h: int, p: int)
    requires
        0 < w,
        0 <= p < w * h,
    ensures
        0 <= p % w < w,
        0 <= p / w < h,
        (p / w) * w + p % w == p,
{
    vstd::arithmetic::div_mod::lemma_fundamental_div_mod(p, w);
    vstd::arithmetic::div_mod::lemma_mod_pos_bound(p, w);
    vstd::arithmetic::div_mod::lemma_div_pos_is_pos(p, w);
    assert((p / w) * w == w * (p / w)) by (nonlinear_arith);
    if p / w >= h {
        assert(w * (p / w) >= w * h) by (nonlinear_arith)
            requires
                p / w >= h,
                0 < w,
        ;
    }
}

/// The counts of an ink IoU comparison: ink pixels of each image, and the pixels set
/// in both, and in either, of the two dilated ink masks.
#[derive(Clone, Copy, Debug, PartialEq, Eq)]
pub struct IouCounts {
    pub gt_ink: u64,
    pub our_ink: u64,
    pub intersection: u64,
    pub union: u64,
}

/// Compares the ink of two images of `width` x `height` pixels with tolerance for
/// small shifts: each image's ink mask (from its luminance, one value per pixel) is
/// dilated by the Manhattan ball of radius `dilate_radius`, and the pixels set in both
/// and in either dilated mask are counted, together with the ink pixels of each image.
/// Fails when either RGBA buffer is not exactly `width * height * 4` bytes long.
pub fn score_pages_ink_iou_counts(
    our_rgba: &[u8],
    gt_rgba: &[u8],
    our_lum: &[u32],
    gt_lum: &[u32],
    width: u32,
    height: u32,
    ink_threshold: u8,
    dilate_radius: u32,
) -> (r: Result<IouCounts, DiffError>)
    requires
        width * height * 4 <= usize::MAX,
        our_rgba@.len() == width * height * 4 && gt_rgba@.len() == width * height * 4 ==> our_lum@.len()
            == width * height && gt_lum@.len() == width * height,
        dilate_radius > 0 ==> width + dilate_radius <= 0x8000_0000 && height + dilate_radius
            <= 0x8000_0000,
    ensures
        r is Err <==> (our_rgba@.len() != width * height * 4 || gt_rgba@.len() != width * height
            * 4),
        r matches Err(e) ==> e == (DiffError::BufferSizeMismatch {
            expected: (width * height * 4) as usize,
            our: our_rgba@.len() as usize,
            gt: gt_rgba@.len() as usize,
        }),
        r matches Ok(c) ==> {
            let n = width * height;
            let gt_mask = ink_mask(gt_lum@, ink_threshold);
            let our_mask = ink_mask(our_lum@, ink_threshold);
            let gt_dil = dilation(gt_mask, width as int, height as int, dilate_radius as int);
            let our_dil = dilation(our_mask, width as int, height as int, dilate_radius as int);
            &&& c.gt_ink == count_true(gt_mask, n)
            &&& c.our_ink == count_true(our_mask, n)
            &&& c.intersection == count_both(gt_dil, our_dil, n)
            &&& c.union == count_either(gt_dil, our_dil, n)
        },
{
    let expected_size = (width as usize) * (height as usize) * 4;
    if our_rgba.len() != expected_size || gt_rgba.len() != expected_size {
        return Err(
            DiffError::BufferSizeMismatch {
                expected: expected_size,
                our: our_rgba.len(),
                gt: gt_rgba.len(),
            },
        );
    }
    let w = width as usize;
    let h = height as usize;
    let n: usize = w * h;
    let ghost gt_spec = ink_mask(gt_lum@, ink_threshold);
    let ghost our_spec = ink_mask(our_lum@, ink_threshold);
    let mut gt_ink: Vec<bool> = Vec::new();
    let mut our_ink: Vec<bool> = Vec::new();
    let mut gt_ink_count: u64 = 0;
    let mut our_ink_count: u64 = 0;
    let mut i: usize = 0;
    while i < n
        invariant
            n == width * height,
            4 * n <= usize::MAX,
            our_lum@.len() == n,
            gt_lum@.len() == n,
            gt_spec == ink_mask(gt_lum@, ink_threshold),
            our_spec == ink_mask(our_lum@, ink_threshold),
            i <= n,
            gt_ink@ == gt_spec.subrange(0, i as int),
            our_ink@ == our_spec.subrange(0, i as int),
            gt_ink_count == count_true(gt_spec, i as int),
            our_ink_count == count_true(our_spec, i as int),
        decreases n - i,
    {
        proof {
            lemma_counts_bounded(gt_spec, our_spec, i as int);
            lemma_counts_bounded(our_spec, gt_spec, i as int);
            assert(4 * n <= u64::MAX);
        }
        let g = gt_lum[i] < ink_threshold as u32;
        let o = our_lum[i] < ink_threshold as u32;
        gt_ink.push(g);
        our_ink.push(o);
        if g {
            gt_ink_count = gt_ink_count + 1;
        }
        if o {
            our_ink_count = our_ink_count + 1;
        }
        i = i + 1;
    }
    assert(gt_ink@ == gt_spec);
    assert(our_ink@ == our_spec);
    let gt_dil = dilate_mask(&gt_ink, w, h, dilate_radius);
    let our_dil = dilate_mask(&our_ink, w, h, dilate_radius);
    let ghost gt_dil_spec = dilation(gt_spec, w as int, h as int, dilate_radius as int);
    let ghost our_dil_spec = dilation(our_spec, w as int, h as int, dilate_radius as int);
    proof {
        if n > 0 {
            assert(w > 0) by (nonlinear_arith)
                requires
                    n == w * h,
                    n > 0,
            ;
            assert forall|p: int| 0 <= p < n implies gt_dil@[p] == gt_dil_spec[p] && our_dil@[p]
                == our_dil_spec[p] by {
                lemma_pixel_coords(w as int, h as int, p);
                assert(at(gt_dil@, w as int, p % (w as int), p / (w as int)) == gt_dil_spec[p]);
                assert(at(our_dil@, w as int, p % (w as int), p / (w as int)) == our_dil_spec[p]);
            }
        }
        assert(gt_dil@ == gt_dil_spec);
        assert(our_dil@ == our_dil_spec);
    }
    let mut intersection: u64 = 0;
    let mut union: u64 = 0;
    let mut j: usize = 0;
    while j < n
        invariant
            n == width * height,
            4 * n <= usize::MAX,
            gt_dil@ == gt_dil_spec,
            our_dil@ == our_dil_spec,
            gt_dil@.len() == n,
            our_dil@.len() == n,
            j <= n,
            intersection == count_both(gt_dil_spec, our_dil_spec, j as int),
            union == count_either(gt_dil_spec, our_dil_spec, j as int),
        decreases n - j,
    {
        proof {
            lemma_counts_bounded(gt_dil_spec, our_dil_spec, j as int);
            assert(4 * n <= u64::MAX);
        }
        if gt_dil[j] || our_dil[j] {
            union = union + 1;
        }
        if gt_dil[j] && our_dil[j] {
            intersection = intersection + 1;
        }
        j = j + 1;
    }
    Ok(IouCounts { gt_ink: gt_ink_count, our_ink: our_ink_count, intersection, union })
}

} // verus!
