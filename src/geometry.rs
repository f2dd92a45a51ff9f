//! Points, paths and the vertical flip between the host's coordinates and
//! the presentation surface's.
//!
//! Every real-valued quantity of this library (a coordinate, a radius, a
//! line width, a font size, an angle in degrees, a fraction) is a fixed-point
//! number: an integer that counts 1/64 of the unit, so that `ONE` stands
//! for 1.0. Canvas sizes are whole pixels.
use vstd::prelude::*;

verus! {

/// The fixed-point value of 1.0.
pub const ONE: i32 = 64;

/// A point in fixed-point pixels.
#[derive(Clone, Copy, Debug, PartialEq, Eq, Structural)]
pub struct Point {
    pub x: i32,
    pub y: i32,
}

/// One element of a path made of straight segments.
#[derive(Clone, Copy, Debug, PartialEq, Eq, Structural)]
pub enum PathEl {
    MoveTo(Point),
    LineTo(Point),
    ClosePath,
}

/// The points that two coordinate lists make, paired up to the shorter one.
pub open spec fn zip_points(x: Seq<i32>, y: Seq<i32>) -> Seq<Point> {
    Seq::new(
        if x.len() <= y.len() {
            x.len()
        } else {
            y.len()
        },
        |i: int| Point { x: x[i], y: y[i] },
    )
}

/// Segments to the points of `pts` from index `from` up to (not including) `to`.
pub open spec fn line_tos(pts: Seq<Point>, from: int, to: int) -> Seq<PathEl> {
    Seq::new((to - from) as nat, |k: int| PathEl::LineTo(pts[from + k]))
}

/// The path through `pts` in order, closed back to its start when `close`;
/// empty when there is no point.
pub open spec fn polyline_path(pts: Seq<Point>, close: bool) -> Seq<PathEl> {
    if pts.len() == 0 {
        Seq::empty()
    } else {
        seq![PathEl::MoveTo(pts[0])] + line_tos(pts, 1, pts.len() as int) + if close {
            seq![PathEl::ClosePath]
        } else {
            Seq::empty()
        }
    }
}

/// The end of the sub-polygon that starts at `start` and should hold `n` points.
pub open spec fn ring_end(len: int, start: int, n: int) -> int {
    if start + n <= len {
        start + n
    } else {
        len
    }
}

/// A path made of closed sub-polygons: the `k`-th takes the next `nper[k]`
/// points (fewer where the points run out); it stops when no point is left.
pub open spec fn rings_path(pts: Seq<Point>, start: int, nper: Seq<i32>) -> Seq<PathEl>
    decreases nper.len(),
{
    if nper.len() == 0 || start < 0 || start >= pts.len() {
        Seq::empty()
    } else {
        let end = ring_end(pts.len() as int, start, nper[0] as int);
        seq![PathEl::MoveTo(pts[start])] + line_tos(pts, start + 1, end) + seq![
            PathEl::ClosePath,
        ] + rings_path(pts, end, nper.drop_first())
    }
}

/// The path through the points `(x[i], y[i])`, closed when `close`.
pub fn xy_to_path(x: &[i32], y: &[i32], close: bool) -> (path: Vec<PathEl>)
    ensures
        path@ == polyline_path(zip_points(x@, y@), close),
{
    let ghost pts = zip_points(x@, y@);
    let n: usize = if x.len() <= y.len() {
        x.len()
    } else {
        y.len()
    };
    let mut path: Vec<PathEl> = Vec::new();
    if n == 0 {
        assert(path@ =~= polyline_path(pts, close));
        return path;
    }
    path.push(PathEl::MoveTo(Point { x: x[0], y: y[0] }));
    let mut i: usize = 1;
    while i < n
        invariant
            1 <= i <= n,
            n == pts.len(),
            n <= x.len(),
            n <= y.len(),
            pts == zip_points(x@, y@),
            path@ =~= seq![PathEl::MoveTo(pts[0])] + line_tos(pts, 1, i as int),
        decreases n - i,
    {
        path.push(PathEl::LineTo(Point { x: x[i], y: y[i] }));
        i = i + 1;
    }
    if close {
        path.push(PathEl::ClosePath);
    }
    assert(path@ =~= polyline_path(pts, close));
    path
}

/// The path of closed sub-polygons (a polygon with holes): `nper[k]` is the
/// number of points of the `k`-th one.
pub fn xy_to_path_with_hole(x: &[i32], y: &[i32], nper: &[i32]) -> (path: Vec<PathEl>)
    requires
        forall|k: int| 0 <= k < nper@.len() ==> nper@[k] >= 1,
    ensures
        path@ == rings_path(zip_points(x@, y@), 0, nper@),
{
    let ghost pts = zip_points(x@, y@);
    let len: usize = if x.len() <= y.len() {
        x.len()
    } else {
        y.len()
    };
    let mut path: Vec<PathEl> = Vec::new();
    let mut start: usize = 0;
    let mut j: usize = 0;
    assert(nper@.skip(0) =~= nper@);
    assert(path@ + rings_path(pts, 0, nper@) =~= rings_path(pts, 0, nper@));
    while j < nper.len()
        invariant
            j <= nper.len(),
            start <= len,
            len == pts.len(),
            len <= x.len(),
            len <= y.len(),
            pts == zip_points(x@, y@),
            forall|k: int| 0 <= k < nper@.len() ==> nper@[k] >= 1,
            path@ + rings_path(pts, start as int, nper@.skip(j as int)) == rings_path(
                pts,
                0,
                nper@,
            ),
        decreases nper.len() - j,
    {
        let ghost rest = nper@.skip(j as int);
        assert(rest.drop_first() =~= nper@.skip(j as int + 1));
        if start >= len {
            assert(rings_path(pts, start as int, rest) =~= Seq::empty());
            assert(path@ =~= path@ + rings_path(pts, start as int, rest));
            return path;
        }
        let n = nper[j];
        let end: usize = if (n as usize) <= len - start {
            start + n as usize
        } else {
            len
        };
        assert(end == ring_end(len as int, start as int, rest[0] as int));
        let ghost before = path@;
        path.push(PathEl::MoveTo(Point { x: x[start], y: y[start] }));
        let mut i: usize = start + 1;
        while i < end
            invariant
                start < i <= end,
                end <= len,
                len == pts.len(),
                len <= x.len(),
                len <= y.len(),
                pts == zip_points(x@, y@),
                path@ =~= before + seq![PathEl::MoveTo(pts[start as int])] + line_tos(
                    pts,
                    start + 1,
                    i as int,
                ),
            decreases end - i,
        {
            path.push(PathEl::LineTo(Point { x: x[i], y: y[i] }));
            i = i + 1;
        }
        path.push(PathEl::ClosePath);
        assert(path@ + rings_path(pts, end as int, nper@.skip(j as int + 1)) =~= before
            + rings_path(pts, start as int, rest));
        start = end;
        j = j + 1;
    }
    assert(nper@.skip(j as int) =~= Seq::empty());
    assert(path@ =~= path@ + rings_path(pts, start as int, nper@.skip(j as int)));
    path
}

/// The map from the host's bottom-left-origin coordinates to the surface's
/// top-left-origin ones: `(x, y)` goes to `(x + shift_x, flip_at - y)`.
#[derive(Clone, Copy, Debug, PartialEq, Eq, Structural)]
pub struct YTransform {
    pub shift_x: i64,
    pub flip_at: i64,
}

/// Where the transform puts a point.
pub open spec fn apply(t: YTransform, p: Point) -> (int, int) {
    (p.x + t.shift_x, t.flip_at - p.y)
}

/// The canvas transform for a canvas `height` pixels high.
pub open spec fn canvas_transform(height: int) -> YTransform {
    YTransform { shift_x: 0, flip_at: (height * ONE) as i64 }
}

/// The transform for a canvas `height` pixels high: the bottom edge goes
/// to the top of the surface and the top edge to its bottom.
pub fn calc_y_translate(height: u32) -> (t: YTransform)
    ensures
        t == canvas_transform(height as int),
{
    assert(0 <= height as i64 * 64 <= 0x40_0000_0000) by (nonlinear_arith);
    YTransform { shift_x: 0, flip_at: height as i64 * 64 }
}

/// The transform that puts the bottom-left corner `(x, y)` of a tile
/// `height` high at the bottom-left corner of a canvas of that height.
pub open spec fn tile_transform_of(x: i32, y: i32, height: i32) -> YTransform {
    YTransform { shift_x: -x as i64, flip_at: (y + height) as i64 }
}

/// The transform that draws a tile whose bottom-left corner is at `(x, y)`
/// and that is `height` high as if that corner were the origin of a canvas
/// of that height.
pub fn tile_transform(x: i32, y: i32, height: i32) -> (t: YTransform)
    ensures
        t == tile_transform_of(x, y, height),
        apply(t, Point { x, y }) == (0int, height as int),
{
    YTransform { shift_x: -(x as i64), flip_at: y as i64 + height as i64 }
}

} // verus!
