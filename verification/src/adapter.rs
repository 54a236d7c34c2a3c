//! The whole adapter: the body and a thread on each end.

use vstd::prelude::*;
use crate::dims::{bsp_dim, dim_of, dims_are_positive, half_inch, is_nominal, unknown_size_is_half_inch, Dim};
use crate::mesh::{quad_indices, MeshData, TriMesh, MAX_QUADS};
use crate::params::{in_extent, EndSpecView, Params, ParamsView, MAX_EXTENT};
use crate::thread::{add_end_thread, axial_steps, ceil_div, ceil_div_covers, sweep_vertices_len, thread_faces_out_of_material, thread_sweep, Side, Sweep};
use crate::tube::{half_of, tube_vertices, tube_vertices_len};

verus! {

/// The fewest angular steps that a body is given.
pub const MIN_SEGMENTS: usize = 24;

/// Why no mesh was made.
#[derive(Clone, Copy, Debug, PartialEq, Eq, Structural)]
pub enum MeshError {
    /// A length lies beyond `MAX_EXTENT`.
    OutOfRange,
    /// The mesh would have more than `MAX_QUADS` quads.
    TooLarge,
}

/// The angular steps that a body gets when `requested` are asked for.
pub open spec fn effective_segments(requested: int) -> int {
    if requested < MIN_SEGMENTS {
        MIN_SEGMENTS as int
    } else {
        requested
    }
}

/// Outer radius of the body: the wider end's nominal radius and the wall.
pub open spec fn outer_radius_of(a: Dim, b: Dim, wall: int) -> int {
    (if a.major >= b.major {
        a.major
    } else {
        b.major
    }) / 2 + wall
}

/// Inner radius of the body: the narrower end's nominal radius less 0.7 mm
/// and the tolerance, but never under 0.8 mm.
pub open spec fn inner_radius_of(a: Dim, b: Dim, tol: int) -> int {
    let bore = (if a.major <= b.major {
        a.major
    } else {
        b.major
    }) / 2 - 700_000 - tol;
    if bore < 800_000 {
        800_000
    } else {
        bore
    }
}

/// Axial length of both threads: as many turns of the coarser pitch as were
/// asked for.
pub open spec fn thread_length_of(a: Dim, b: Dim, turns: int) -> int {
    (if a.pitch >= b.pitch {
        a.pitch
    } else {
        b.pitch
    }) * turns
}

/// The angular steps of the body.
pub fn tube_segments(requested: usize) -> (seg: usize)
    ensures
        seg == effective_segments(requested as int),
        requested < 24 ==> seg == 24,
        requested >= 24 ==> seg == requested,
{
    if requested < MIN_SEGMENTS {
        MIN_SEGMENTS
    } else {
        requested
    }
}

/// Outer radius of the body.
pub fn outer_radius(a: Dim, b: Dim, wall: i64) -> (r: i64)
    requires
        in_extent(wall as int),
    ensures
        r == outer_radius_of(a, b, wall as int),
{
    let major: u32 = if a.major >= b.major {
        a.major
    } else {
        b.major
    };
    ((major / 2) as i64) + wall
}

/// Inner radius of the body.
pub fn inner_radius(a: Dim, b: Dim, tol: i64) -> (r: i64)
    requires
        in_extent(tol as int),
    ensures
        r == inner_radius_of(a, b, tol as int),
{
    let major: u32 = if a.major <= b.major {
        a.major
    } else {
        b.major
    };
    let bore: i64 = ((major / 2) as i64) - 700_000 - tol;
    if bore < 800_000 {
        800_000
    } else {
        bore
    }
}

/// Axial length of both threads.
pub fn thread_length(a: Dim, b: Dim, turns: u32) -> (length: u64)
    ensures
        length == thread_length_of(a, b, turns as int),
{
    let pitch: u32 = if a.pitch >= b.pitch {
        a.pitch
    } else {
        b.pitch
    };
    assert(0 <= pitch * turns <= 0xffff_ffff * 0xffff_ffff) by (nonlinear_arith)
        requires
            0 <= pitch <= 0xffff_ffff,
            0 <= turns <= 0xffff_ffff,
    ;
    (pitch as u64) * (turns as u64)
}

impl ParamsView {
    /// Whether every length is one the engine computes with.
    pub open spec fn in_range(self) -> bool {
        &&& in_extent(self.length)
        &&& in_extent(self.wall_thickness)
        &&& in_extent(self.tolerance)
    }

    /// Angular steps of body and threads.
    pub open spec fn segments(self) -> int {
        effective_segments(self.radial_segments)
    }

    /// Axial length of both threads.
    pub open spec fn thread_length(self) -> int {
        thread_length_of(dim_of(self.end_a.size), dim_of(self.end_b.size), self.turns_per_thread)
    }

    /// The thread of end A, which starts at the lower end face.
    pub open spec fn sweep_a(self) -> Sweep {
        thread_sweep(
            Side::A,
            -(self.length / 2),
            self.end_a,
            dim_of(self.end_a.size),
            self.thread_length(),
            self.segments(),
            self.tolerance,
        )
    }

    /// The thread of end B, which starts at the upper end face.
    pub open spec fn sweep_b(self) -> Sweep {
        thread_sweep(
            Side::B,
            self.length / 2,
            self.end_b,
            dim_of(self.end_b.size),
            self.thread_length(),
            self.segments(),
            self.tolerance,
        )
    }

    /// Number of quads of the whole adapter.
    pub open spec fn quad_count(self) -> int {
        4 * self.segments() + self.sweep_a().quad_count() + self.sweep_b().quad_count()
    }

    /// Whether a mesh can hold the adapter.
    pub open spec fn fits(self) -> bool {
        self.quad_count() <= MAX_QUADS
    }

    /// The vertex buffer of the body.
    pub open spec fn body_vertices(self) -> Seq<int> {
        tube_vertices(
            outer_radius_of(
                dim_of(self.end_a.size),
                dim_of(self.end_b.size),
                self.wall_thickness,
            ),
            inner_radius_of(dim_of(self.end_a.size), dim_of(self.end_b.size), self.tolerance),
            self.length,
            self.segments() as nat,
        )
    }

    /// The vertex buffer of the adapter: the body, then the thread of end A,
    /// then the thread of end B.
    pub open spec fn vertices(self) -> Seq<int> {
        self.body_vertices() + self.sweep_a().surface() + self.sweep_b().surface()
    }

    /// The index buffer of the adapter.
    pub open spec fn indices(self) -> Seq<int> {
        quad_indices(self.quad_count())
    }
}

/// What `generate_adapter_mesh` owes for the parameters `p`: the one mesh
/// of the adapter, or the reason why there is none.
pub open spec fn generated(p: ParamsView, result: Result<MeshData, MeshError>) -> bool {
    match result {
        Ok(mesh) => {
            &&& p.in_range()
            &&& p.fits()
            &&& mesh@.vertices == p.vertices()
            &&& mesh@.indices == p.indices()
            &&& mesh@.segments == p.segments()
        },
        Err(MeshError::OutOfRange) => !p.in_range(),
        Err(MeshError::TooLarge) => p.in_range() && !p.fits(),
    }
}

/// A thread of more than `MAX_QUADS` turns has more slices than a mesh can
/// hold.
proof fn too_many_turns(p: ParamsView)
    requires
        p.turns_per_thread > MAX_QUADS,
        p.radial_segments >= 0,
    ensures
        !p.fits(),
{
    let a = dim_of(p.end_a.size);
    let b = dim_of(p.end_b.size);
    dims_are_positive(p.end_a.size);
    dims_are_positive(p.end_b.size);
    let length = p.thread_length();
    let seg = p.segments();
    let t = p.turns_per_thread;
    assert(length >= a.pitch * t && length >= 0) by (nonlinear_arith)
        requires
            length == (if a.pitch >= b.pitch {
                a.pitch
            } else {
                b.pitch
            }) * t,
            t > 0,
            a.pitch > 0,
            b.pitch > 0,
    ;
    ceil_div_covers(length, a.pitch as int);
    let ca = ceil_div(length, a.pitch as int);
    assert(ca >= t) by (nonlinear_arith)
        requires
            a.pitch * t <= length,
            length <= a.pitch * ca,
            a.pitch > 0,
    ;
    let sa = p.sweep_a().steps();
    let sb = p.sweep_b().steps();
    assert(sa * seg + sb * seg > MAX_QUADS) by (nonlinear_arith)
        requires
            sa >= 24 * t,
            sb >= 36,
            seg >= 24,
            t > MAX_QUADS,
    ;
}

/// Generates the mesh of the adapter that `params` describes.
pub fn generate_adapter_mesh(params: &Params) -> (result: Result<MeshData, MeshError>)
    ensures
        generated(params@, result),
{
    let ghost p = params@;
    let length: i64 = params.body.length_nm;
    let wall: i64 = params.wall_thickness_nm;
    let tol: i64 = params.tolerance_nm;
    if length < -MAX_EXTENT || length > MAX_EXTENT || wall < -MAX_EXTENT || wall > MAX_EXTENT
        || tol < -MAX_EXTENT || tol > MAX_EXTENT {
        return Err(MeshError::OutOfRange);
    }
    let a = bsp_dim(params.end_a.size.as_str());
    let b = bsp_dim(params.end_b.size.as_str());
    proof {
        dims_are_positive(p.end_a.size);
        dims_are_positive(p.end_b.size);
    }
    let outer_r = outer_radius(a, b, wall);
    let inner_r = inner_radius(a, b, tol);
    let seg = tube_segments(params.resolution.radial_segments);

    let turns: usize = params.resolution.turns_per_thread;
    if turns > MAX_QUADS {
        proof {
            too_many_turns(p);
        }
        return Err(MeshError::TooLarge);
    }
    let thread_len = thread_length(a, b, turns as u32);
    let ghost sweep_a = p.sweep_a();
    let ghost sweep_b = p.sweep_b();
    proof {
        assert(0 <= sweep_a.steps() * seg && 0 <= sweep_b.steps() * seg) by (nonlinear_arith)
            requires
                36 <= sweep_a.steps(),
                36 <= sweep_b.steps(),
                0 <= seg,
        ;
    }
    if seg > MAX_QUADS / 4 {
        return Err(MeshError::TooLarge);
    }
    let steps_a: usize = match axial_steps(thread_len, a.pitch) {
        Some(n) => n,
        None => {
            proof {
                assert(sweep_a.steps() * seg > MAX_QUADS) by (nonlinear_arith)
                    requires
                        sweep_a.steps() > MAX_QUADS,
                        seg >= 24,
                ;
            }
            return Err(MeshError::TooLarge);
        },
    };
    let steps_b: usize = match axial_steps(thread_len, b.pitch) {
        Some(n) => n,
        None => {
            proof {
                assert(sweep_b.steps() * seg > MAX_QUADS) by (nonlinear_arith)
                    requires
                        sweep_b.steps() > MAX_QUADS,
                        seg >= 24,
                ;
            }
            return Err(MeshError::TooLarge);
        },
    };
    proof {
        assert(0 <= steps_a * seg <= 0x4000_0000 * 0x1000_0000 && 0 <= steps_b * seg <= 0x4000_0000
            * 0x1000_0000) by (nonlinear_arith)
            requires
                0 <= steps_a <= 0x4000_0000,
                0 <= steps_b <= 0x4000_0000,
                0 <= seg <= 0x1000_0000,
        ;
    }
    let quads_a: u64 = (steps_a as u64) * (seg as u64);
    let quads_b: u64 = (steps_b as u64) * (seg as u64);
    if 4 * (seg as u64) + quads_a + quads_b > MAX_QUADS as u64 {
        return Err(MeshError::TooLarge);
    }
    let half: i64 = half_of(length);
    let mut mesh = TriMesh::new();
    mesh.add_tube(outer_r, inner_r, length, seg);
    add_end_thread(&mut mesh, Side::A, -half, &params.end_a, a, thread_len, seg, tol);
    add_end_thread(&mut mesh, Side::B, half, &params.end_b, b, thread_len, seg, tol);
    proof {
        assert(mesh@.vertices =~= p.vertices());
    }
    Ok(mesh.into_data(seg))
}

/// Whether two outcomes are the same: the same buffers over the same
/// number of angular steps, or the same refusal.
pub open spec fn same_outcome(
    first: Result<MeshData, MeshError>,
    second: Result<MeshData, MeshError>,
) -> bool {
    match (first, second) {
        (Ok(x), Ok(y)) => x@ == y@,
        (Err(e), Err(f)) => e == f,
        _ => false,
    }
}

/// Generation is deterministic: whatever the generator returns for one
/// parameter record, it returns for every record that holds the same values.
pub proof fn generation_is_deterministic(
    p: Params,
    q: Params,
    first: Result<MeshData, MeshError>,
    second: Result<MeshData, MeshError>,
)
    requires
        p@ == q@,
        generated(p@, first),
        generated(q@, second),
    ensures
        same_outcome(first, second),
{
}

/// A size outside the table gives the adapter of the 1/2 size: putting
/// `1/2` in its place, on either end or on both, changes nothing in the
/// outcome.
pub proof fn unknown_size_generates_half_inch(
    p: ParamsView,
    q: ParamsView,
    first: Result<MeshData, MeshError>,
    second: Result<MeshData, MeshError>,
)
    requires
        q.end_a.size == p.end_a.size || (!is_nominal(p.end_a.size) && q.end_a.size == half_inch()),
        q.end_b.size == p.end_b.size || (!is_nominal(p.end_b.size) && q.end_b.size == half_inch()),
        q == (ParamsView {
            end_a: EndSpecView { size: q.end_a.size, ..p.end_a },
            end_b: EndSpecView { size: q.end_b.size, ..p.end_b },
            ..p
        }),
        generated(p, first),
        generated(q, second),
    ensures
        q.vertices() == p.vertices(),
        q.indices() == p.indices(),
        same_outcome(first, second),
{
    if q.end_a.size != p.end_a.size {
        unknown_size_is_half_inch(p.end_a.size);
    }
    if q.end_b.size != p.end_b.size {
        unknown_size_is_half_inch(p.end_b.size);
    }
    assert(q.sweep_a() == p.sweep_a());
    assert(q.sweep_b() == p.sweep_b());
}

/// The body comes first in the vertex buffer and has sixteen vertices to
/// the angular step, of which there are as many as were asked for and never
/// fewer than 24; the whole buffer has four vertices to the quad.
pub proof fn body_comes_first(p: ParamsView)
    requires
        p.radial_segments >= 0,
        p.turns_per_thread >= 0,
    ensures
        p.segments() >= 24,
        p.radial_segments >= 24 ==> p.segments() == p.radial_segments,
        p.body_vertices().len() == 16 * p.segments() * 3,
        p.vertices().len() == 12 * p.quad_count(),
        p.vertices().subrange(0, 48 * p.segments()) == p.body_vertices(),
        p.indices().len() == 6 * p.quad_count(),
{
    let a = dim_of(p.end_a.size);
    let b = dim_of(p.end_b.size);
    let seg = p.segments();
    tube_vertices_len(
        outer_radius_of(a, b, p.wall_thickness),
        inner_radius_of(a, b, p.tolerance),
        p.length,
        seg as nat,
    );
    assert(0 <= p.sweep_a().quad_count() && 0 <= p.sweep_b().quad_count()) by (nonlinear_arith)
        requires
            p.sweep_a().quad_count() == p.sweep_a().steps() * seg,
            p.sweep_b().quad_count() == p.sweep_b().steps() * seg,
            36 <= p.sweep_a().steps(),
            36 <= p.sweep_b().steps(),
            0 <= seg,
    ;
    sweep_vertices_len(p.sweep_a(), p.sweep_a().quad_count() as nat);
    sweep_vertices_len(p.sweep_b(), p.sweep_b().quad_count() as nat);
    assert(p.vertices().subrange(0, 48 * seg) =~= p.body_vertices());
}

/// With a turn or more asked for, both threads have at least a nanometre
/// to the slice, so that every slice gains height and every thread quad has
/// a face to turn out of the material.
pub proof fn adapter_threads_gain_height(p: ParamsView)
    requires
        1 <= p.turns_per_thread,
    ensures
        p.sweep_a().steps() <= p.sweep_a().length,
        p.sweep_b().steps() <= p.sweep_b().length,
        forall|k: int| 0 <= k ==> p.sweep_a().travel(k) < #[trigger] p.sweep_a().travel(k + 1),
        forall|k: int| 0 <= k ==> p.sweep_b().travel(k) < #[trigger] p.sweep_b().travel(k + 1),
{
    let a = dim_of(p.end_a.size);
    let b = dim_of(p.end_b.size);
    dims_are_positive(p.end_a.size);
    dims_are_positive(p.end_b.size);
    let length = p.thread_length();
    let t = p.turns_per_thread;
    assert(length >= 1_337_000) by (nonlinear_arith)
        requires
            length == (if a.pitch >= b.pitch {
                a.pitch
            } else {
                b.pitch
            }) * t,
            1 <= t,
            1_337_000 <= a.pitch,
            1_337_000 <= b.pitch,
    ;
    ceil_div_covers(length, a.pitch as int);
    ceil_div_covers(length, b.pitch as int);
    let ca = ceil_div(length, a.pitch as int);
    let cb = ceil_div(length, b.pitch as int);
    assert(24 * ca <= length) by (nonlinear_arith)
        requires
            a.pitch * ca < length + a.pitch,
            1_337_000 <= a.pitch,
            1_337_000 <= length,
            0 <= ca,
    ;
    assert(24 * cb <= length) by (nonlinear_arith)
        requires
            b.pitch * cb < length + b.pitch,
            1_337_000 <= b.pitch,
            1_337_000 <= length,
            0 <= cb,
    ;
    assert forall|k: int| 0 <= k implies p.sweep_a().travel(k) < #[trigger] p.sweep_a().travel(
        k + 1,
    ) by {
        thread_faces_out_of_material(p.sweep_a(), k, 0);
    }
    assert forall|k: int| 0 <= k implies p.sweep_b().travel(k) < #[trigger] p.sweep_b().travel(
        k + 1,
    ) by {
        thread_faces_out_of_material(p.sweep_b(), k, 0);
    }
}

} // verus!
