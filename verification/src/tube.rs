//! The hollow cylindrical body: outer wall, inner wall and the two annular
//! end faces, laid down one angular step at a time.

use vstd::prelude::*;
use crate::mesh::{corner, face_turning, quad_coords, wall_turning, wall_turning_of, Point, TriMesh, MAX_QUADS};

verus! {

/// The buffer entries of the position at `radius` from the axis, `step`
/// angular steps round it and `z` along it.
pub open spec fn polar(radius: int, step: int, z: int) -> Seq<int> {
    seq![radius, step, z]
}

/// The outer wall of angular step `s`, wound so that it faces away from the
/// axis.
pub open spec fn outer_wall(outer: int, half: int, s: int) -> Seq<int> {
    quad_coords(
        polar(outer, s, -half),
        polar(outer, s + 1, -half),
        polar(outer, s + 1, half),
        polar(outer, s, half),
    )
}

/// The inner wall of angular step `s`, wound the other way, so that it
/// faces the axis.
pub open spec fn inner_wall(inner: int, half: int, s: int) -> Seq<int> {
    quad_coords(
        polar(inner, s, -half),
        polar(inner, s, half),
        polar(inner, s + 1, half),
        polar(inner, s + 1, -half),
    )
}

/// The ring segment of angular step `s` in the lower end face, wound so that
/// it faces down.
pub open spec fn lower_face(outer: int, inner: int, half: int, s: int) -> Seq<int> {
    quad_coords(
        polar(inner, s, -half),
        polar(inner, s + 1, -half),
        polar(outer, s + 1, -half),
        polar(outer, s, -half),
    )
}

/// The ring segment of angular step `s` in the upper end face, wound so that
/// it faces up.
pub open spec fn upper_face(outer: int, inner: int, half: int, s: int) -> Seq<int> {
    quad_coords(
        polar(inner, s, half),
        polar(outer, s, half),
        polar(outer, s + 1, half),
        polar(inner, s + 1, half),
    )
}

/// The four quads of angular step `s` of a tube whose end faces lie at
/// `-half` and `half`: outer wall, inner wall, lower end face, upper end
/// face.
pub open spec fn tube_step(outer: int, inner: int, half: int, s: int) -> Seq<int> {
    outer_wall(outer, half, s) + inner_wall(inner, half, s) + lower_face(outer, inner, half, s)
        + upper_face(outer, inner, half, s)
}

/// Every quad of a tube faces out of the material. With `half` above 0 and
/// the outer radius above the inner one, both triangles of the outer wall
/// turn so that their normals point away from the axis, both of the inner
/// wall so that they point towards it, both of the lower end face so that
/// they point down, and both of the upper end face so that they point up.
pub proof fn tube_faces_out_of_material(outer: int, inner: int, half: int, s: int)
    ensures
        ({
            let q = outer_wall(outer, half, s);
            &&& wall_turning(corner(q, 0), corner(q, 1), corner(q, 2)) == 2 * half
            &&& wall_turning(corner(q, 0), corner(q, 2), corner(q, 3)) == 2 * half
        }),
        ({
            let q = inner_wall(inner, half, s);
            &&& wall_turning(corner(q, 0), corner(q, 1), corner(q, 2)) == -2 * half
            &&& wall_turning(corner(q, 0), corner(q, 2), corner(q, 3)) == -2 * half
        }),
        ({
            let q = lower_face(outer, inner, half, s);
            &&& face_turning(corner(q, 0), corner(q, 1), corner(q, 2)) == inner - outer
            &&& face_turning(corner(q, 0), corner(q, 2), corner(q, 3)) == inner - outer
        }),
        ({
            let q = upper_face(outer, inner, half, s);
            &&& face_turning(corner(q, 0), corner(q, 1), corner(q, 2)) == outer - inner
            &&& face_turning(corner(q, 0), corner(q, 2), corner(q, 3)) == outer - inner
        }),
{
    let q = outer_wall(outer, half, s);
    assert(corner(q, 0) =~= polar(outer, s, -half));
    assert(corner(q, 1) =~= polar(outer, s + 1, -half));
    assert(corner(q, 2) =~= polar(outer, s + 1, half));
    assert(corner(q, 3) =~= polar(outer, s, half));
    wall_turning_of(corner(q, 0), corner(q, 1), corner(q, 2));
    wall_turning_of(corner(q, 0), corner(q, 2), corner(q, 3));
    let q = inner_wall(inner, half, s);
    assert(corner(q, 0) =~= polar(inner, s, -half));
    assert(corner(q, 1) =~= polar(inner, s, half));
    assert(corner(q, 2) =~= polar(inner, s + 1, half));
    assert(corner(q, 3) =~= polar(inner, s + 1, -half));
    wall_turning_of(corner(q, 0), corner(q, 1), corner(q, 2));
    wall_turning_of(corner(q, 0), corner(q, 2), corner(q, 3));
    let q = lower_face(outer, inner, half, s);
    assert(corner(q, 0) =~= polar(inner, s, -half));
    assert(corner(q, 1) =~= polar(inner, s + 1, -half));
    assert(corner(q, 2) =~= polar(outer, s + 1, -half));
    assert(corner(q, 3) =~= polar(outer, s, -half));
    let q = upper_face(outer, inner, half, s);
    assert(corner(q, 0) =~= polar(inner, s, half));
    assert(corner(q, 1) =~= polar(outer, s, half));
    assert(corner(q, 2) =~= polar(outer, s + 1, half));
    assert(corner(q, 3) =~= polar(inner, s + 1, half));
}

/// The vertex buffer of the first `steps` angular steps of a tube of the
/// given radii and length, centred on the origin.
pub open spec fn tube_vertices(outer: int, inner: int, length: int, steps: nat) -> Seq<int>
    decreases steps,
{
    if steps == 0 {
        Seq::empty()
    } else {
        tube_vertices(outer, inner, length, (steps - 1) as nat) + tube_step(
            outer,
            inner,
            length / 2,
            steps - 1,
        )
    }
}

/// A tube has sixteen vertices to the angular step.
pub proof fn tube_vertices_len(outer: int, inner: int, length: int, steps: nat)
    ensures
        tube_vertices(outer, inner, length, steps).len() == 48 * steps,
    decreases steps,
{
    if steps > 0 {
        tube_vertices_len(outer, inner, length, (steps - 1) as nat);
    }
}

/// Half of a length, rounded towards minus infinity.
pub fn half_of(length: i64) -> (h: i64)
    ensures
        h == length as int / 2,
{
    let q: i64 = length / 2;
    if length < 0 && length % 2 != 0 {
        q - 1
    } else {
        q
    }
}

impl TriMesh {
    /// Appends a hollow tube of `seg` angular steps, centred on the origin:
    /// four quads to the step.
    pub fn add_tube(&mut self, outer_r: i64, inner_r: i64, length: i64, seg: usize)
        requires
            old(self).wf(),
            old(self).quads() + 4 * seg <= MAX_QUADS,
        ensures
            final(self).wf(),
            final(self).quads() == old(self).quads() + 4 * seg,
            final(self)@.vertices == old(self)@.vertices + tube_vertices(
                outer_r as int,
                inner_r as int,
                length as int,
                seg as nat,
            ),
            final(self)@.vertices.len() == old(self)@.vertices.len() + 16 * seg * 3,
            final(self)@.indices.len() == old(self)@.indices.len() + 24 * seg,
            forall|j: int|
                0 <= j < final(self)@.indices.len() ==> 0 <= #[trigger] final(self)@.indices[j]
                    < final(self)@.vertex_count(),
    {
        let z1: i64 = half_of(length);
        let z0: i64 = -z1;
        let mut s: usize = 0;
        while s < seg
            invariant
                s <= seg,
                self.wf(),
                old(self).wf(),
                old(self).quads() + 4 * seg <= MAX_QUADS,
                self.quads() == old(self).quads() + 4 * s,
                z1 == length as int / 2,
                z0 == -z1,
                self@.vertices == old(self)@.vertices + tube_vertices(
                    outer_r as int,
                    inner_r as int,
                    length as int,
                    s as nat,
                ),
            decreases seg - s,
        {
            let ghost before = self@.vertices;
            let t0: i64 = s as i64;
            let t1: i64 = t0 + 1;
            let o00 = Point { radius: outer_r, step: t0, z: z0 };
            let o01 = Point { radius: outer_r, step: t1, z: z0 };
            let o10 = Point { radius: outer_r, step: t0, z: z1 };
            let o11 = Point { radius: outer_r, step: t1, z: z1 };
            self.quad(o00, o01, o11, o10);

            let i00 = Point { radius: inner_r, step: t0, z: z0 };
            let i01 = Point { radius: inner_r, step: t1, z: z0 };
            let i10 = Point { radius: inner_r, step: t0, z: z1 };
            let i11 = Point { radius: inner_r, step: t1, z: z1 };
            self.quad(i00, i10, i11, i01);

            self.quad(i00, i01, o01, o00);
            self.quad(i10, o10, o11, i11);
            proof {
                assert(self@.vertices =~= before + tube_step(
                    outer_r as int,
                    inner_r as int,
                    length as int / 2,
                    s as int,
                ));
            }
            s = s + 1;
        }
        proof {
            tube_vertices_len(outer_r as int, inner_r as int, length as int, seg as nat);
            self.indices_in_range();
        }
    }
}

} // verus!
