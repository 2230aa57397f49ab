//! Shape variants and their exact geometric bookkeeping.
//!
//! Ray intersection against these shapes is delegated to the collision
//! pipeline in the renderer's shell; what stands here is the data each shape
//! carries, the invariants a scene may rely on (mesh indices in bounds,
//! extents within range), and the exact quantities surface sampling needs.
//! Lengths are in thousandths of a unit, areas in millionths of a square
//! unit.

use vstd::prelude::*;
use crate::math::{in_range, Vec3};

verus! {

/// Magnitude bound on shape extents, chosen so that summed face areas of a
/// cuboid stay inside `i64`.
pub const EXTENT_LIMIT: i64 = 100_000_000;

/// A sphere of the given radius about the object's origin.
#[derive(Clone, Copy, Debug, PartialEq, Eq, Structural)]
pub struct Ball {
    pub radius: i64,
}

impl Ball {
    pub open spec fn wf(self) -> bool {
        0 <= self.radius <= EXTENT_LIMIT
    }

    pub fn new(radius: i64) -> (s: Ball)
        ensures
            s.radius == radius,
    {
        Ball { radius }
    }
}

/// An axis-aligned box given by its half-extents.
#[derive(Clone, Copy, Debug, PartialEq, Eq, Structural)]
pub struct Cuboid {
    pub half_extents: Vec3,
}

impl Cuboid {
    pub open spec fn wf(self) -> bool {
        &&& 0 <= self.half_extents.x <= EXTENT_LIMIT
        &&& 0 <= self.half_extents.y <= EXTENT_LIMIT
        &&& 0 <= self.half_extents.z <= EXTENT_LIMIT
    }

    pub fn new(half_extents: Vec3) -> (s: Cuboid)
        ensures
            s.half_extents == half_extents,
    {
        Cuboid { half_extents }
    }

    /// Area of one face pair member orthogonal to x: `4 * hy * hz`.
    pub open spec fn face_area_x(self) -> int {
        4 * self.half_extents.y * self.half_extents.z
    }

    pub open spec fn face_area_y(self) -> int {
        4 * self.half_extents.x * self.half_extents.z
    }

    pub open spec fn face_area_z(self) -> int {
        4 * self.half_extents.x * self.half_extents.y
    }

    /// The summed area of one face per axis; the surface sampler picks a
    /// face proportionally to this and a sign bit for the opposite face.
    pub open spec fn total_area(self) -> int {
        self.face_area_x() + self.face_area_y() + self.face_area_z()
    }

    /// Computes `total_area` exactly.
    pub fn compute_total_area(&self) -> (t: i64)
        requires
            self.wf(),
        ensures
            t == self.total_area(),
            0 <= t <= 300_000_000_000_000_000,
    {
        let hx = self.half_extents.x;
        let hy = self.half_extents.y;
        let hz = self.half_extents.z;
        assert(0 <= 4 * hy * hz <= 100_000_000_000_000_000
            && 0 <= 4 * hx * hz <= 100_000_000_000_000_000
            && 0 <= 4 * hx * hy <= 100_000_000_000_000_000)
            by (nonlinear_arith)
            requires
                0 <= hx <= 100_000_000,
                0 <= hy <= 100_000_000,
                0 <= hz <= 100_000_000,
        ;
        4 * hy * hz + 4 * hx * hz + 4 * hx * hy
    }

    /// A point lies on this cuboid's surface: every coordinate within the
    /// half-extents, and on some axis exactly at one of them.
    pub open spec fn on_surface(self, p: Vec3) -> bool {
        &&& -self.half_extents.x <= p.x <= self.half_extents.x
        &&& -self.half_extents.y <= p.y <= self.half_extents.y
        &&& -self.half_extents.z <= p.z <= self.half_extents.z
        &&& {
            ||| p.x == self.half_extents.x || p.x == -self.half_extents.x
            ||| p.y == self.half_extents.y || p.y == -self.half_extents.y
            ||| p.z == self.half_extents.z || p.z == -self.half_extents.z
        }
    }
}

/// One triangle of a mesh, as indices into the vertex list.
#[derive(Clone, Copy, Debug, PartialEq, Eq, Structural)]
pub struct Triangle {
    pub a: usize,
    pub b: usize,
    pub c: usize,
}

impl Triangle {
    /// All three corners index into a vertex list of length `n`.
    pub open spec fn in_bounds(self, n: int) -> bool {
        self.a < n && self.b < n && self.c < n
    }
}

/// Loading a mesh failed validation.
#[derive(Clone, Copy, Debug, PartialEq, Eq, Structural)]
pub enum MeshError {
    /// Some triangle names a vertex index outside the vertex list.
    IndexOutOfBounds,
}

/// A triangle mesh: vertex points plus triangles over them.  Construction
/// checks every index, so a built mesh never refers outside its vertices.
#[derive(Clone, Debug)]
pub struct TriMesh {
    pub vertices: Vec<Vec3>,
    pub indices: Vec<Triangle>,
}

impl TriMesh {
    pub open spec fn wf(self) -> bool {
        forall|i: int|
            0 <= i < self.indices@.len() ==> #[trigger] self.indices@[i].in_bounds(
                self.vertices@.len() as int,
            )
    }

    /// Builds a mesh from loaded data.  Returns the mesh exactly when every
    /// triangle's indices lie inside the vertex list; otherwise the data is
    /// rejected, so the renderer never sees partially valid geometry.
    pub fn new(vertices: Vec<Vec3>, indices: Vec<Triangle>) -> (r: Result<TriMesh, MeshError>)
        ensures
            r is Ok <==> (forall|i: int|
                0 <= i < indices@.len() ==> #[trigger] indices@[i].in_bounds(
                    vertices@.len() as int,
                )),
            r matches Ok(m) ==> m.vertices@ == vertices@ && m.indices@ == indices@ && m.wf(),
    {
        let n = vertices.len();
        let mut i: usize = 0;
        while i < indices.len()
            invariant
                0 <= i <= indices@.len(),
                forall|j: int| 0 <= j < i ==> #[trigger] indices@[j].in_bounds(n as int),
                n == vertices@.len(),
            decreases indices@.len() - i,
        {
            let t = indices[i];
            if t.a >= n || t.b >= n || t.c >= n {
                assert(!indices@[i as int].in_bounds(vertices@.len() as int));
                return Err(MeshError::IndexOutOfBounds);
            }
            i = i + 1;
        }
        Ok(TriMesh { vertices, indices })
    }
}

/// An implicit blob: source points, a field radius and an iso-level.  Its
/// exact intersection is an extension point; only its bounding volume is
/// computed here.
#[derive(Clone, Debug)]
pub struct Metaball {
    pub points: Vec<Vec3>,
    pub radius: i64,
    pub level: i64,
}

impl Metaball {
    pub open spec fn wf(self) -> bool {
        &&& self.points@.len() > 0
        &&& forall|i: int| 0 <= i < self.points@.len() ==> (#[trigger] self.points@[i]).bounded()
        &&& 0 <= self.radius <= EXTENT_LIMIT
    }

    pub fn new(points: Vec<Vec3>, radius: i64, level: i64) -> (s: Metaball)
        ensures
            s.points@ == points@ && s.radius == radius && s.level == level,
    {
        Metaball { points, radius, level }
    }

    /// The axis-aligned bounding box of the blob in its local frame: the
    /// componentwise minimum and maximum over the source points, padded by
    /// the field radius on every side.  The box contains every padded point,
    /// and each bound is attained by some point.
    pub fn local_aabb(&self) -> (r: (Vec3, Vec3))
        requires
            self.wf(),
        ensures
            forall|i: int|
                0 <= i < self.points@.len() ==> {
                    let p = #[trigger] self.points@[i];
                    r.0.x <= p.x - self.radius && r.0.y <= p.y - self.radius && r.0.z <= p.z
                        - self.radius && p.x + self.radius <= r.1.x && p.y + self.radius <= r.1.y
                        && p.z + self.radius <= r.1.z
                },
            exists|i: int|
                0 <= i < self.points@.len() && (#[trigger] self.points@[i]).x - self.radius
                    == r.0.x,
            exists|i: int|
                0 <= i < self.points@.len() && (#[trigger] self.points@[i]).y - self.radius
                    == r.0.y,
            exists|i: int|
                0 <= i < self.points@.len() && (#[trigger] self.points@[i]).z - self.radius
                    == r.0.z,
            exists|i: int|
                0 <= i < self.points@.len() && (#[trigger] self.points@[i]).x + self.radius
                    == r.1.x,
            exists|i: int|
                0 <= i < self.points@.len() && (#[trigger] self.points@[i]).y + self.radius
                    == r.1.y,
            exists|i: int|
                0 <= i < self.points@.len() && (#[trigger] self.points@[i]).z + self.radius
                    == r.1.z,
    {
        let first = self.points[0];
        let mut lo = first;
        let mut hi = first;
        let mut i: usize = 1;
        while i < self.points.len()
            invariant
                1 <= i <= self.points@.len(),
                self.wf(),
                lo.bounded(),
                hi.bounded(),
                forall|j: int|
                    0 <= j < i ==> {
                        let p = #[trigger] self.points@[j];
                        lo.x <= p.x && lo.y <= p.y && lo.z <= p.z && p.x <= hi.x && p.y <= hi.y
                            && p.z <= hi.z
                    },
                exists|j: int| 0 <= j < i && (#[trigger] self.points@[j]).x == lo.x,
                exists|j: int| 0 <= j < i && (#[trigger] self.points@[j]).y == lo.y,
                exists|j: int| 0 <= j < i && (#[trigger] self.points@[j]).z == lo.z,
                exists|j: int| 0 <= j < i && (#[trigger] self.points@[j]).x == hi.x,
                exists|j: int| 0 <= j < i && (#[trigger] self.points@[j]).y == hi.y,
                exists|j: int| 0 <= j < i && (#[trigger] self.points@[j]).z == hi.z,
            decreases self.points@.len() - i,
        {
            let p = self.points[i];
            if p.x < lo.x {
                lo.x = p.x;
            }
            if p.y < lo.y {
                lo.y = p.y;
            }
            if p.z < lo.z {
                lo.z = p.z;
            }
            if p.x > hi.x {
                hi.x = p.x;
            }
            if p.y > hi.y {
                hi.y = p.y;
            }
            if p.z > hi.z {
                hi.z = p.z;
            }
            i = i + 1;
        }
        (
            Vec3 { x: lo.x - self.radius, y: lo.y - self.radius, z: lo.z - self.radius },
            Vec3 { x: hi.x + self.radius, y: hi.y + self.radius, z: hi.z + self.radius },
        )
    }
}

/// The closed set of shapes a scene object may carry.
#[derive(Clone, Debug)]
pub enum Shape {
    TriMesh(TriMesh),
    Cuboid(Cuboid),
    Ball(Ball),
    Metaball(Metaball),
}

impl Shape {
    /// The shape's data is within the ranges the samplers rely on.
    pub open spec fn wf(self) -> bool {
        match self {
            Shape::TriMesh(m) => m.wf(),
            Shape::Cuboid(c) => c.wf(),
            Shape::Ball(b) => b.wf(),
            Shape::Metaball(m) => m.wf(),
        }
    }
}

/// Conversion of a concrete shape into the scene's shape variant.
pub trait ObjectToShape {
    type ShapeType;

    fn to_shape(self) -> Self::ShapeType;
}

impl ObjectToShape for Ball {
    type ShapeType = Shape;

    fn to_shape(self) -> (r: Shape)
        ensures
            r == Shape::Ball(self),
    {
        Shape::Ball(self)
    }
}

impl ObjectToShape for Cuboid {
    type ShapeType = Shape;

    fn to_shape(self) -> (r: Shape)
        ensures
            r == Shape::Cuboid(self),
    {
        Shape::Cuboid(self)
    }
}

impl ObjectToShape for TriMesh {
    type ShapeType = Shape;

    fn to_shape(self) -> (r: Shape)
        ensures
            r == Shape::TriMesh(self),
    {
        Shape::TriMesh(self)
    }
}

impl ObjectToShape for Metaball {
    type ShapeType = Shape;

    fn to_shape(self) -> (r: Shape)
        ensures
            r == Shape::Metaball(self),
    {
        Shape::Metaball(self)
    }
}

} // verus!
