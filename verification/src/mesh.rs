//! The mesh accumulator: a flat vertex buffer, a flat triangle-index buffer,
//! and the one way to grow them, a quad at a time.

use vstd::prelude::*;

verus! {

/// The most quads a mesh can hold. A quad brings four vertices, and the
/// index of every vertex has to fit in 32 bits.
pub const MAX_QUADS: usize = 0x4000_0000;

/// A position in cylindrical coordinates about the adapter's axis: distance
/// from the axis and height along it in nanometres, and the angle as a count
/// of angular steps.
#[derive(Clone, Copy, Debug, PartialEq, Eq, Structural)]
pub struct Point {
    pub radius: i64,
    pub step: i64,
    pub z: i64,
}

impl Point {
    /// The three numbers that the point puts into the vertex buffer.
    pub open spec fn coords(self) -> Seq<int> {
        seq![self.radius as int, self.step as int, self.z as int]
    }
}

/// The numbers of a buffer as mathematical integers.
pub open spec fn ints(s: Seq<i64>) -> Seq<int> {
    s.map_values(|x: i64| x as int)
}

/// The indices of a buffer as mathematical integers.
pub open spec fn index_ints(s: Seq<u32>) -> Seq<int> {
    s.map_values(|x: u32| x as int)
}

/// What a mesh holds: three numbers per vertex, three indices per triangle.
pub struct MeshView {
    pub vertices: Seq<int>,
    pub indices: Seq<int>,
}

impl MeshView {
    /// Number of vertices.
    pub open spec fn vertex_count(self) -> int {
        self.vertices.len() as int / 3
    }

    /// The three coordinates of vertex `n`.
    pub open spec fn vertex(self, n: int) -> Seq<int> {
        self.vertices.subrange(3 * n, 3 * n + 3)
    }

    /// The positions of the three corners of triangle `t`, in winding order.
    pub open spec fn triangle(self, t: int) -> (Seq<int>, Seq<int>, Seq<int>) {
        (
            self.vertex(self.indices[3 * t]),
            self.vertex(self.indices[3 * t + 1]),
            self.vertex(self.indices[3 * t + 2]),
        )
    }
}

/// The six indices of the quad whose first vertex is `base`: the triangles
/// `(0, 1, 2)` and `(0, 2, 3)`, which share the diagonal.
pub open spec fn quad_corners(base: int) -> Seq<int> {
    seq![base, base + 1, base + 2, base, base + 2, base + 3]
}

/// The index buffer of a mesh of `quads` quads: entry `j` belongs to quad
/// `j / 6`, whose first vertex is `4 * (j / 6)`.
pub open spec fn quad_indices(quads: int) -> Seq<int> {
    Seq::new((6 * quads) as nat, |j: int| quad_corners(4 * (j / 6))[j % 6])
}

/// The coordinates that one quad appends.
pub open spec fn quad_coords(a: Seq<int>, b: Seq<int>, c: Seq<int>, d: Seq<int>) -> Seq<int> {
    a + b + c + d
}

/// Corner `n` of the four that `quad_coords` put together.
pub open spec fn corner(quad: Seq<int>, n: int) -> Seq<int> {
    quad.subrange(3 * n, 3 * n + 3)
}

/// The sense in which the triangle `a, b, c` turns on a wall about the
/// axis: twice its area in the chart of angular step and height. For a
/// viewer who stands outside the wall and looks at the upright axis, steps
/// run to the right and height upwards. Where the value is positive the
/// corners run counter-clockwise for that viewer, and the right-hand rule
/// gives a normal that points away from the axis; where it is negative, one
/// that points towards the axis.
pub open spec fn wall_turning(a: Seq<int>, b: Seq<int>, c: Seq<int>) -> int {
    (b[1] - a[1]) * (c[2] - a[2]) - (b[2] - a[2]) * (c[1] - a[1])
}

/// The sense in which the triangle `a, b, c` turns on a face across the
/// axis: twice its area in the chart of radius and angular step. Where the
/// value is positive the right-hand rule gives a normal that points up the
/// axis; where it is negative, one that points down.
pub open spec fn face_turning(a: Seq<int>, b: Seq<int>, c: Seq<int>) -> int {
    (b[0] - a[0]) * (c[1] - a[1]) - (b[1] - a[1]) * (c[0] - a[0])
}

/// The turning of a triangle on a wall from the steps and heights by which
/// its second and third corners differ from its first.
pub proof fn wall_turning_of(a: Seq<int>, b: Seq<int>, c: Seq<int>)
    ensures
        b[1] == a[1] && c[1] == a[1] + 1 ==> wall_turning(a, b, c) == -(b[2] - a[2]),
        b[1] == a[1] + 1 && c[1] == a[1] + 1 ==> wall_turning(a, b, c) == (c[2] - a[2])
            - (b[2] - a[2]),
        b[1] == a[1] + 1 && c[1] == a[1] ==> wall_turning(a, b, c) == c[2] - a[2],
{
    let round_b = b[1] - a[1];
    let up_b = b[2] - a[2];
    let round_c = c[1] - a[1];
    let up_c = c[2] - a[2];
    assert(round_b == 0 ==> round_b * up_c == 0) by (nonlinear_arith);
    assert(round_b == 1 ==> round_b * up_c == up_c) by (nonlinear_arith);
    assert(round_c == 0 ==> up_b * round_c == 0) by (nonlinear_arith);
    assert(round_c == 1 ==> up_b * round_c == up_b) by (nonlinear_arith);
}

/// A triangle mesh under construction.
pub struct TriMesh {
    v: Vec<i64>,
    i: Vec<u32>,
}

impl View for TriMesh {
    type V = MeshView;

    closed spec fn view(&self) -> MeshView {
        MeshView { vertices: ints(self.v@), indices: index_ints(self.i@) }
    }
}

impl TriMesh {
    /// Number of quads appended so far.
    pub open spec fn quads(&self) -> int {
        self@.vertices.len() as int / 12
    }

    /// The mesh is made of whole quads, none sharing a vertex with another,
    /// and its index buffer is the one that such a mesh has.
    pub open spec fn wf(&self) -> bool {
        &&& self@.vertices.len() % 12 == 0
        &&& self.quads() <= MAX_QUADS
        &&& self@.indices == quad_indices(self.quads())
    }

    /// Every index of a well-formed mesh names one of its vertices, and the
    /// index buffer is half as long as the vertex buffer.
    pub proof fn indices_in_range(&self)
        requires
            self.wf(),
        ensures
            self@.indices.len() == 6 * self.quads(),
            self@.vertices.len() == 12 * self.quads(),
            self@.vertex_count() == 4 * self.quads(),
            forall|j: int|
                0 <= j < self@.indices.len() ==> 0 <= #[trigger] self@.indices[j]
                    < self@.vertex_count(),
    {
    }

    /// Quad `q` of a well-formed mesh owns the vertices `4q` to `4q + 3`:
    /// its six indices count up from `4q` in steps of one, and neither of
    /// its triangles names a vertex twice.
    pub proof fn quad_owns_its_vertices(&self, q: int)
        requires
            self.wf(),
            0 <= q < self.quads(),
        ensures
            self@.indices.subrange(6 * q, 6 * q + 6) == quad_corners(4 * q),
            self@.indices[6 * q] < self@.indices[6 * q + 1] < self@.indices[6 * q + 2],
            self@.indices[6 * q + 3] < self@.indices[6 * q + 4] < self@.indices[6 * q + 5],
            self@.indices[6 * q + 5] == 4 * q + 3,
    {
        assert(self@.indices.subrange(6 * q, 6 * q + 6) =~= quad_corners(4 * q));
    }

    /// Indices never fall from one quad to the next: every index of a later
    /// quad is above every index of an earlier one.
    pub proof fn indices_rise_quad_by_quad(&self, i: int, j: int)
        requires
            self.wf(),
            0 <= i < j < self@.indices.len(),
            i / 6 < j / 6,
        ensures
            self@.indices[i] < self@.indices[j],
    {
    }

    /// An empty mesh.
    pub fn new() -> (mesh: TriMesh)
        ensures
            mesh.wf(),
            mesh@.vertices == Seq::<int>::empty(),
            mesh@.indices == Seq::<int>::empty(),
    {
        let mesh = TriMesh { v: Vec::new(), i: Vec::new() };
        assert(mesh@.vertices =~= Seq::<int>::empty());
        assert(mesh@.indices =~= quad_indices(0));
        mesh
    }

    /// Appends the quad `a, b, c, d` as four new vertices and the two
    /// triangles `(a, b, c)` and `(a, c, d)`.
    pub fn quad(&mut self, a: Point, b: Point, c: Point, d: Point)
        requires
            old(self).wf(),
            old(self).quads() < MAX_QUADS,
        ensures
            final(self).wf(),
            final(self).quads() == old(self).quads() + 1,
            final(self)@.vertices == old(self)@.vertices + quad_coords(
                a.coords(),
                b.coords(),
                c.coords(),
                d.coords(),
            ),
            final(self)@.indices == old(self)@.indices + quad_corners(old(self)@.vertex_count()),
            final(self)@.triangle(2 * old(self).quads()) == (a.coords(), b.coords(), c.coords()),
            final(self)@.triangle(2 * old(self).quads() + 1) == (a.coords(), c.coords(), d.coords()),
    {
        let base: u32 = (self.v.len() / 3) as u32;
        self.v.push(a.radius);
        self.v.push(a.step);
        self.v.push(a.z);
        self.v.push(b.radius);
        self.v.push(b.step);
        self.v.push(b.z);
        self.v.push(c.radius);
        self.v.push(c.step);
        self.v.push(c.z);
        self.v.push(d.radius);
        self.v.push(d.step);
        self.v.push(d.z);
        self.i.push(base);
        self.i.push(base + 1);
        self.i.push(base + 2);
        self.i.push(base);
        self.i.push(base + 2);
        self.i.push(base + 3);
        proof {
            let n = old(self).quads();
            let added = quad_coords(a.coords(), b.coords(), c.coords(), d.coords());
            assert(self@.vertices =~= old(self)@.vertices + added);
            assert(self@.indices =~= old(self)@.indices + quad_corners(4 * n));
            assert(self@.indices =~= quad_indices(n + 1));
            let after = self@;
            assert(after.vertex(4 * n) =~= a.coords());
            assert(after.vertex(4 * n + 1) =~= b.coords());
            assert(after.vertex(4 * n + 2) =~= c.coords());
            assert(after.vertex(4 * n + 3) =~= d.coords());
        }
    }
}

/// What a finished mesh holds: the two buffers, and how many angular steps
/// make a full turn about the axis.
pub struct MeshDataView {
    pub vertices: Seq<int>,
    pub indices: Seq<int>,
    pub segments: int,
}

/// A finished mesh.
pub struct MeshData {
    vertices: Vec<i64>,
    indices: Vec<u32>,
    segments: usize,
}

impl View for MeshData {
    type V = MeshDataView;

    closed spec fn view(&self) -> MeshDataView {
        MeshDataView {
            vertices: ints(self.vertices@),
            indices: index_ints(self.indices@),
            segments: self.segments as int,
        }
    }
}

impl MeshData {
    /// The vertex buffer: radius, angular step and height of each vertex.
    pub fn vertices(&self) -> (buffer: Vec<i64>)
        ensures
            ints(buffer@) == self@.vertices,
    {
        let buffer = self.vertices.clone();
        assert(buffer@ =~= self.vertices@);
        buffer
    }

    /// The index buffer: three vertex indices to the triangle.
    pub fn indices(&self) -> (buffer: Vec<u32>)
        ensures
            index_ints(buffer@) == self@.indices,
    {
        let buffer = self.indices.clone();
        assert(buffer@ =~= self.indices@);
        buffer
    }

    /// The number of angular steps in a full turn.
    pub fn segments(&self) -> (n: usize)
        ensures
            n == self@.segments,
    {
        self.segments
    }
}

impl TriMesh {
    /// Closes the mesh, whose angles are counted in steps of which
    /// `segments` make a full turn.
    pub fn into_data(self, segments: usize) -> (data: MeshData)
        ensures
            data@.vertices == self@.vertices,
            data@.indices == self@.indices,
            data@.segments == segments,
    {
        MeshData { vertices: self.v, indices: self.i, segments }
    }
}

} // verus!
