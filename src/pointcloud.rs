//! Point-cloud state: the loaded points, the scalar that normalizes them, the
//! billboard size, and the draw call that renders them.
//!
//! A normalized instance is a point's position divided, coordinate by
//! coordinate, by the cloud's divisor: the greatest coordinate over all three
//! axes of all points. The renderer performs that division when it uploads
//! the instances.
use vstd::prelude::*;

use crate::scalar::{fmax, less, less_than, max_value, nan, rank, MIN_FINITE};

verus! {

/// Bit pattern of `1.5`, the billboard size of a new point cloud.
pub const DEFAULT_POINT_SIZE: u32 = 0x3fc0_0000;

/// Vertices of the quad (two triangles) drawn for every point.
pub const QUAD_VERTICES: u32 = 6;

/// A record read from a point-cloud file; the intensity is not used.
#[derive(Clone, Copy, Debug, PartialEq, Eq, Structural)]
pub struct Point {
    pub x: u32,
    pub y: u32,
    pub z: u32,
    pub intensity: u32,
}

/// Why a point-cloud file could not be loaded.
#[derive(Clone, Debug, PartialEq, Eq)]
pub enum LoadError {
    /// The file is malformed or could not be read; the text describes it.
    Parse(String),
}

/// One instanced draw: `vertex_count` vertices for each of `instance_count`
/// points.
#[derive(Clone, Copy, Debug, PartialEq, Eq, Structural)]
pub struct DrawCall {
    pub vertex_count: u32,
    pub instance_count: usize,
}

/// The greatest of a point's three coordinates.
pub open spec fn point_max(p: Point) -> u32 {
    fmax(fmax(p.x, p.y), p.z)
}

/// The normalization divisor of `points`: starting from the smallest finite
/// value, each point's greatest coordinate replaces the running value when it
/// compares strictly greater.
pub open spec fn divisor_of(points: Seq<Point>) -> u32
    decreases points.len(),
{
    if points.len() == 0 {
        MIN_FINITE
    } else {
        let m = divisor_of(points.drop_last());
        let t = point_max(points.last());
        if less(m, t) {
            t
        } else {
            m
        }
    }
}

/// Coordinate `k` (0, 1 or 2) of `p`.
pub open spec fn coord(p: Point, k: int) -> u32 {
    if k == 0 {
        p.x
    } else if k == 1 {
        p.y
    } else {
        p.z
    }
}

pub struct PointCloud {
    points: Vec<Point>,
    divisor: u32,
    point_size: u32,
}

/// What a `PointCloud` holds: the loaded points, the divisor that
/// normalizes them, and the billboard size (a bit pattern, not bounded).
pub struct CloudView {
    pub points: Seq<Point>,
    pub divisor: u32,
    pub point_size: u32,
}

impl View for PointCloud {
    type V = CloudView;

    closed spec fn view(&self) -> CloudView {
        CloudView { points: self.points@, divisor: self.divisor, point_size: self.point_size }
    }
}

impl PointCloud {
    /// The divisor always belongs to the points held.
    #[verifier::type_invariant]
    spec fn normalized(&self) -> bool {
        self.divisor == divisor_of(self.points@)
    }

    /// The cloud holds exactly what a load of `points` leaves.
    pub open spec fn loaded(&self, points: Seq<Point>) -> bool {
        self@.points == points && self@.divisor == divisor_of(points)
    }

    pub fn new() -> (r: Self)
        ensures
            r.loaded(Seq::empty()),
            r@.point_size == DEFAULT_POINT_SIZE,
    {
        PointCloud { points: Vec::new(), divisor: MIN_FINITE, point_size: DEFAULT_POINT_SIZE }
    }

    /// Installs the outcome of reading a file: on success the points replace
    /// the previous ones wholesale; on failure nothing changes and the error
    /// is handed back.
    pub fn load_pcd(&mut self, read: Result<Vec<Point>, LoadError>) -> (r: Result<(), LoadError>)
        ensures
            match read {
                Ok(points) => r is Ok && final(self).loaded(points@),
                Err(e) => r == Err::<(), LoadError>(e) && final(self)@ == old(self)@,
            },
            final(self)@.point_size == old(self)@.point_size,
    {
        match read {
            Ok(points) => {
                let divisor = normalization_divisor(&points);
                *self = PointCloud { points, divisor, point_size: self.point_size };
                Ok(())
            },
            Err(e) => Err(e),
        }
    }

    /// The draw to issue for this frame: none while no point is loaded.
    pub fn draw(&self) -> (r: Option<DrawCall>)
        ensures
            self@.points.len() == 0 <==> r is None,
            r matches Some(d) ==> d.vertex_count == QUAD_VERTICES && d.instance_count
                == self@.points.len(),
    {
        if self.points.len() == 0 {
            None
        } else {
            Some(DrawCall { vertex_count: QUAD_VERTICES, instance_count: self.points.len() })
        }
    }

    pub fn points(&self) -> (r: &Vec<Point>)
        ensures
            r@ == self@.points,
    {
        &self.points
    }

    /// The divisor of the points held: each instance is a point divided by it.
    pub fn divisor(&self) -> (r: u32)
        ensures
            r == self@.divisor,
            r == divisor_of(self@.points),
    {
        proof {
            use_type_invariant(self);
        }
        self.divisor
    }

    pub fn point_size(&self) -> (r: u32)
        ensures
            r == self@.point_size,
    {
        self.point_size
    }

    pub fn set_point_size(&mut self, size: u32)
        ensures
            final(self)@ == (CloudView { point_size: size, ..old(self)@ }),
    {
        proof {
            use_type_invariant(&*self);
        }
        self.point_size = size;
    }
}

pub fn point_maximum(p: &Point) -> (r: u32)
    ensures
        r == point_max(*p),
{
    max_value(max_value(p.x, p.y), p.z)
}

/// The divisor that normalizes `points` (see `divisor_of`).
pub fn normalization_divisor(points: &Vec<Point>) -> (r: u32)
    ensures
        r == divisor_of(points@),
{
    let mut m: u32 = MIN_FINITE;
    let mut i: usize = 0;
    while i < points.len()
        invariant
            i <= points@.len(),
            m == divisor_of(points@.subrange(0, i as int)),
        decreases points@.len() - i,
    {
        proof {
            assert(points@.subrange(0, i + 1).drop_last() =~= points@.subrange(0, i as int));
        }
        let t = point_maximum(&points[i]);
        if less_than(m, t) {
            m = t;
        }
        i += 1;
    }
    proof {
        assert(points@.subrange(0, i as int) =~= points@);
    }
    m
}

proof fn lemma_point_max_bounds(p: Point)
    ensures
        forall|k: int|
            0 <= k < 3 && !nan(#[trigger] coord(p, k)) ==> !nan(point_max(p)) && rank(coord(p, k))
                <= rank(point_max(p)),
        point_max(p) == p.x || point_max(p) == p.y || point_max(p) == p.z,
{
}

proof fn lemma_divisor_grows(points: Seq<Point>)
    ensures
        !nan(divisor_of(points)),
        divisor_of(points) == MIN_FINITE || exists|i: int, k: int|
            0 <= i < points.len() && 0 <= k < 3 && #[trigger] coord(points[i], k) == divisor_of(
                points,
            ),
        forall|i: int, k: int|
            0 <= i < points.len() && 0 <= k < 3 && !nan(#[trigger] coord(points[i], k)) ==> rank(
                coord(points[i], k),
            ) <= rank(divisor_of(points)),
    decreases points.len(),
{
    if points.len() > 0 {
        let rest = points.drop_last();
        lemma_divisor_grows(rest);
        lemma_point_max_bounds(points.last());
        let m = divisor_of(rest);
        let t = point_max(points.last());
        let last = points.len() - 1;
        assert forall|i: int, k: int|
            0 <= i < points.len() && 0 <= k < 3 && !nan(#[trigger] coord(points[i], k)) implies rank(
                coord(points[i], k),
            ) <= rank(divisor_of(points)) by {
            if i < last {
                assert(coord(rest[i], k) == coord(points[i], k));
            }
        }
        if less(m, t) {
            if t == points.last().x {
                assert(coord(points[last], 0) == t);
            } else if t == points.last().y {
                assert(coord(points[last], 1) == t);
            } else {
                assert(coord(points[last], 2) == t);
            }
        } else if m != MIN_FINITE {
            let (i, k) = choose|i: int, k: int|
                0 <= i < rest.len() && 0 <= k < 3 && #[trigger] coord(rest[i], k) == m;
            assert(coord(points[i], k) == m);
        }
    }
}

/// Normalization bound: the divisor is a number (no NaN), and no coordinate
/// of any point compares greater than it.
pub proof fn lemma_divisor_is_upper_bound(points: Seq<Point>)
    ensures
        !nan(divisor_of(points)),
        forall|i: int, k: int|
            0 <= i < points.len() && 0 <= k < 3 ==> !less(
                divisor_of(points),
                #[trigger] coord(points[i], k),
            ),
{
    lemma_divisor_grows(points);
}

/// The divisor is attained: once some coordinate is a number no smaller than
/// the smallest finite value, the divisor is exactly one of the coordinates,
/// so that coordinate normalizes to 1.
pub proof fn lemma_divisor_is_attained(points: Seq<Point>, i: int, k: int)
    requires
        0 <= i < points.len(),
        0 <= k < 3,
        !nan(coord(points[i], k)),
        !less(coord(points[i], k), MIN_FINITE),
    ensures
        exists|j: int, l: int|
            0 <= j < points.len() && 0 <= l < 3 && #[trigger] coord(points[j], l) == divisor_of(
                points,
            ),
{
    lemma_divisor_grows(points);
    if divisor_of(points) == MIN_FINITE {
        assert(coord(points[i], k) == MIN_FINITE);
    }
}

/// Loading the same points into any two clouds, or twice into one, leaves
/// identical instance data: the same positions and the same divisor.
pub proof fn lemma_load_is_deterministic(a: PointCloud, b: PointCloud, points: Seq<Point>)
    requires
        a.loaded(points),
        b.loaded(points),
    ensures
        a@.points == b@.points,
        a@.divisor == b@.divisor,
{
}

} // verus!
