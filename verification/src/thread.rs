//! The helical thread surface of one end: a surface of revolution whose
//! radius follows the triangular profile along a helix.

use vstd::prelude::*;
use vstd::arithmetic::div_mod::{lemma_fundamental_div_mod, lemma_fundamental_div_mod_converse, lemma_mod_bound};
use crate::dims::Dim;
use crate::mesh::{corner, quad_coords, wall_turning, wall_turning_of, Point, TriMesh, MAX_QUADS};
use crate::params::{in_extent, EndSpec, EndSpecView, Gender, Standard};
use crate::profile::{profile, profile_is_bounded, profile_is_periodic, tri_profile};
use crate::tube::polar;

verus! {

/// The quotient of `a` by `b`, rounded up.
pub open spec fn ceil_div(a: int, b: int) -> int {
    (a + b - 1) / b
}

/// The number of axial slices of a thread: 24 to each started turn, and at
/// least 36.
pub open spec fn axial_step_count(length: int, pitch: int) -> int {
    let n = 24 * ceil_div(length, pitch);
    if n < 36 {
        36
    } else {
        n
    }
}

/// The end of the adapter that a thread is on: A is the lower end, B the
/// upper one.
#[derive(Clone, Copy, Debug, PartialEq, Eq, Structural)]
pub enum Side {
    A,
    B,
}

impl Side {
    /// The way a thread runs along the axis, which is away from the body:
    /// downwards on end A, upwards on end B.
    pub open spec fn direction(self) -> int {
        match self {
            Side::A => -1,
            Side::B => 1,
        }
    }
}

/// One thread as the mathematics sees it. Lengths are in nanometres.
pub struct Sweep {
    pub side: Side,
    /// Height of the end face that the thread starts from.
    pub z0: int,
    pub standard: Standard,
    pub gender: Gender,
    /// Major diameter.
    pub major: int,
    pub pitch: int,
    /// Axial length of the thread.
    pub length: int,
    /// Angular steps to the turn.
    pub seg: int,
    /// Manufacturing tolerance.
    pub tol: int,
}

impl Sweep {
    /// Number of axial slices.
    pub open spec fn steps(self) -> int {
        axial_step_count(self.length, self.pitch)
    }

    /// The way the thread runs along the axis.
    pub open spec fn direction(self) -> int {
        self.side.direction()
    }

    /// Whether a quad goes a step round the axis before it goes a slice
    /// along it. Seen from outside, with the axis upright, its corners then
    /// run counter-clockwise where the thread runs upwards, so that the
    /// right-hand rule gives a normal that points away from the axis; they
    /// run clockwise where it runs downwards. A male thread has its material
    /// inside the surface and a female thread outside it, so the one needs
    /// its normals away from the axis and the other towards it.
    pub open spec fn rounds_first(self) -> bool {
        match (self.gender, self.side) {
            (Gender::Male, Side::B) => true,
            (Gender::Female, Side::A) => true,
            (Gender::Male, Side::A) => false,
            (Gender::Female, Side::B) => false,
        }
    }

    /// Radius of the crest circle of the nominal thread.
    pub open spec fn base_radius(self) -> int {
        self.major / 2
    }

    /// Depth of the thread: 0.64 of the pitch, in whole nanometres.
    pub open spec fn depth(self) -> int {
        16 * self.pitch / 25
    }

    /// Units of phase in one full turn. One angular step is
    /// `pitch * steps` of them, and one nanometre of axial travel at slice
    /// boundary `k` comes to `seg * steps` of them.
    pub open spec fn turn(self) -> int {
        self.seg * (self.pitch * self.steps())
    }

    /// Axial distance from the end face to slice boundary `k`, in whole
    /// nanometres.
    pub open spec fn travel(self, k: int) -> int {
        self.length * k / self.steps()
    }

    /// Height of slice boundary `k`.
    pub open spec fn z(self, k: int) -> int {
        self.z0 + self.direction() * self.travel(k)
    }

    /// How far the taper has moved the surface at slice boundary `k`: one in
    /// 32 of the travel on a tapered thread, nothing on a straight one.
    pub open spec fn taper(self, k: int) -> int {
        match self.standard {
            Standard::Tapered => self.travel(k) / 32,
            Standard::Straight => 0,
        }
    }

    /// Helix phase at slice boundary `k` and angular step `s`: the angle,
    /// plus one full turn for every pitch of travel.
    pub open spec fn phase(self, k: int, s: int) -> int {
        s * (self.pitch * self.steps()) + self.length * k * self.seg
    }

    /// Height of the profile above the root at that place: the thread depth
    /// times the profile, in whole nanometres.
    pub open spec fn rise(self, k: int, s: int) -> int {
        self.depth() * profile(self.phase(k, s), self.turn()) / self.turn()
    }

    /// Distance of the surface from the axis at that place. A male thread
    /// gives way to the tolerance and the taper, a female thread follows the
    /// complementary profile and makes room by both.
    pub open spec fn radius(self, k: int, s: int) -> int {
        match self.gender {
            Gender::Male => self.base_radius() + self.rise(k, s) - self.tol - self.taper(k),
            Gender::Female => (self.base_radius() - self.depth()) + (self.depth() - self.rise(k, s))
                + self.tol + self.taper(k),
        }
    }

    /// The vertex at slice boundary `k` and angular step `s`.
    pub open spec fn point(self, k: int, s: int) -> Seq<int> {
        polar(self.radius(k, s), s, self.z(k))
    }

    /// The quad of slice `k` and angular step `s`, wound so that its normal
    /// points out of the material: away from the axis on a male thread,
    /// towards it on a female one, on either end.
    pub open spec fn quad(self, k: int, s: int) -> Seq<int> {
        let a0 = self.point(k, s);
        let a1 = self.point(k, s + 1);
        let b0 = self.point(k + 1, s);
        let b1 = self.point(k + 1, s + 1);
        if self.rounds_first() {
            quad_coords(a0, a1, b1, b0)
        } else {
            quad_coords(a0, b0, b1, a1)
        }
    }

    /// The vertex buffer of the first `quads` quads of the surface, which
    /// runs slice by slice and, within a slice, step by step round the axis.
    pub open spec fn vertices(self, quads: nat) -> Seq<int>
        decreases quads,
    {
        if quads == 0 {
            Seq::empty()
        } else {
            self.vertices((quads - 1) as nat) + self.quad(
                (quads - 1) / self.seg,
                (quads - 1) % self.seg,
            )
        }
    }

    /// Number of quads of the whole surface.
    pub open spec fn quad_count(self) -> int {
        self.steps() * self.seg
    }

    /// The vertex buffer of the whole surface.
    pub open spec fn surface(self) -> Seq<int> {
        self.vertices(self.quad_count() as nat)
    }
}

/// The thread that the arguments of `add_end_thread` describe.
pub open spec fn thread_sweep(
    side: Side,
    z0: int,
    end: EndSpecView,
    dim: Dim,
    length: int,
    seg: int,
    tol: int,
) -> Sweep {
    Sweep {
        side,
        z0,
        standard: end.standard,
        gender: end.gender,
        major: dim.major as int,
        pitch: dim.pitch as int,
        length,
        seg,
        tol,
    }
}

/// A thread surface has four vertices to the quad.
pub proof fn sweep_vertices_len(sweep: Sweep, quads: nat)
    ensures
        sweep.vertices(quads).len() == 12 * quads,
    decreases quads,
{
    if quads > 0 {
        sweep_vertices_len(sweep, (quads - 1) as nat);
    }
}

/// A thread starts on its end face and ends one thread length away from it.
pub proof fn sweep_spans_length(sweep: Sweep)
    requires
        0 <= sweep.length,
        0 < sweep.pitch,
    ensures
        sweep.z(0) == sweep.z0,
        sweep.z(sweep.steps()) == sweep.z0 + sweep.direction() * sweep.length,
{
    let steps = sweep.steps();
    assert(sweep.length * 0 / steps == 0) by (nonlinear_arith)
        requires
            0 < steps,
    ;
    assert(sweep.length * steps / steps == sweep.length) by (nonlinear_arith)
        requires
            0 < steps,
    ;
}

/// The surface closes on itself: after a full turn round the axis it is at
/// the radius and height at which it started.
pub proof fn sweep_seam_closes(sweep: Sweep, k: int)
    requires
        0 < sweep.seg,
        0 < sweep.pitch,
    ensures
        sweep.radius(k, sweep.seg) == sweep.radius(k, 0),
        sweep.point(k, sweep.seg) == polar(sweep.radius(k, 0), sweep.seg, sweep.z(k)),
{
    let per_step = sweep.pitch * sweep.steps();
    assert(0 < sweep.turn() && sweep.phase(k, sweep.seg) == sweep.phase(k, 0) + 1 * sweep.turn())
        by (nonlinear_arith)
        requires
            sweep.turn() == sweep.seg * per_step,
            per_step == sweep.pitch * sweep.steps(),
            sweep.phase(k, sweep.seg) == sweep.seg * per_step + sweep.length * k * sweep.seg,
            sweep.phase(k, 0) == 0 * per_step + sweep.length * k * sweep.seg,
            0 < sweep.seg,
            0 < sweep.pitch,
            36 <= sweep.steps(),
    ;
    profile_is_periodic(sweep.phase(k, 0), sweep.turn(), 1);
}

/// The profile lifts the surface by no less than nothing and no more than
/// the thread depth.
pub proof fn rise_is_within_depth(sweep: Sweep, k: int, s: int)
    requires
        0 < sweep.seg,
        0 < sweep.pitch,
    ensures
        0 <= sweep.rise(k, s) <= sweep.depth(),
{
    let turn = sweep.turn();
    assert(0 < turn) by (nonlinear_arith)
        requires
            turn == sweep.seg * (sweep.pitch * sweep.steps()),
            0 < sweep.seg,
            0 < sweep.pitch,
            36 <= sweep.steps(),
    ;
    let h = profile(sweep.phase(k, s), turn);
    profile_is_bounded(sweep.phase(k, s), turn);
    let depth = sweep.depth();
    assert(0 <= depth * h / turn <= depth) by (nonlinear_arith)
        requires
            0 <= h <= turn,
            0 < turn,
            0 <= depth,
    ;
}

/// Every quad of a thread faces out of the material, on either end. A quad
/// starts at the corner of its slice and step and has the corner one slice
/// and one step on opposite it; in between it goes round the axis first on a
/// male thread that runs upwards and on a female thread that runs downwards,
/// and along the axis first on the two others. Both its triangles then turn
/// by the height that the slice gains, which is never negative and is above
/// 0 where the thread has a nanometre to the slice: on a male thread so that
/// their normals point away from the axis, on a female thread so that they
/// point towards it.
pub proof fn thread_faces_out_of_material(sweep: Sweep, k: int, s: int)
    requires
        0 <= sweep.length,
        0 < sweep.pitch,
        0 <= k,
    ensures
        ({
            let q = sweep.quad(k, s);
            let gain = sweep.travel(k + 1) - sweep.travel(k);
            let outward = match sweep.gender {
                Gender::Male => gain,
                Gender::Female => -gain,
            };
            &&& 0 <= gain
            &&& sweep.steps() <= sweep.length ==> 0 < gain
            &&& corner(q, 0) == sweep.point(k, s)
            &&& corner(q, 2) == sweep.point(k + 1, s + 1)
            &&& corner(q, 1) == if sweep.rounds_first() {
                sweep.point(k, s + 1)
            } else {
                sweep.point(k + 1, s)
            }
            &&& corner(q, 3) == if sweep.rounds_first() {
                sweep.point(k + 1, s)
            } else {
                sweep.point(k, s + 1)
            }
            &&& wall_turning(corner(q, 0), corner(q, 1), corner(q, 2)) == outward
            &&& wall_turning(corner(q, 0), corner(q, 2), corner(q, 3)) == outward
        }),
{
    let q = sweep.quad(k, s);
    let steps = sweep.steps();
    let length = sweep.length;
    let near = sweep.travel(k);
    let far = sweep.travel(k + 1);
    assert(near <= far && (steps <= length ==> near < far)) by (nonlinear_arith)
        requires
            near == length * k / steps,
            far == length * (k + 1) / steps,
            0 <= length,
            0 <= k,
            0 < steps,
    ;
    assert(corner(q, 0) =~= sweep.point(k, s));
    assert(corner(q, 2) =~= sweep.point(k + 1, s + 1));
    if sweep.rounds_first() {
        assert(corner(q, 1) =~= sweep.point(k, s + 1));
        assert(corner(q, 3) =~= sweep.point(k + 1, s));
    } else {
        assert(corner(q, 1) =~= sweep.point(k + 1, s));
        assert(corner(q, 3) =~= sweep.point(k, s + 1));
    }
    assert(sweep.point(k, s)[1] == s && sweep.point(k, s)[2] == sweep.z(k));
    assert(sweep.point(k, s + 1)[1] == s + 1 && sweep.point(k, s + 1)[2] == sweep.z(k));
    assert(sweep.point(k + 1, s)[1] == s && sweep.point(k + 1, s)[2] == sweep.z(k + 1));
    assert(sweep.point(k + 1, s + 1)[1] == s + 1 && sweep.point(k + 1, s + 1)[2] == sweep.z(
        k + 1,
    ));
    assert(sweep.z(k + 1) - sweep.z(k) == sweep.direction() * (far - near)) by (nonlinear_arith)
        requires
            sweep.z(k + 1) == sweep.z0 + sweep.direction() * far,
            sweep.z(k) == sweep.z0 + sweep.direction() * near,
    ;
    wall_turning_of(corner(q, 0), corner(q, 1), corner(q, 2));
    wall_turning_of(corner(q, 0), corner(q, 2), corner(q, 3));
}

/// Rounding up never loses any of the dividend.
pub proof fn ceil_div_covers(a: int, b: int)
    requires
        0 <= a,
        0 < b,
    ensures
        0 <= ceil_div(a, b),
        a <= b * ceil_div(a, b) < a + b,
        a % b == 0 ==> ceil_div(a, b) == a / b,
        a % b != 0 ==> ceil_div(a, b) == a / b + 1,
{
    lemma_fundamental_div_mod(a, b);
    lemma_mod_bound(a, b);
    let q = a / b;
    let r = a % b;
    if r == 0 {
        assert(a + b - 1 == q * b + (b - 1)) by (nonlinear_arith)
            requires
                a == b * q + r,
                r == 0,
        ;
        lemma_fundamental_div_mod_converse(a + b - 1, b, q, b - 1);
    } else {
        assert(a + b - 1 == (q + 1) * b + (r - 1)) by (nonlinear_arith)
            requires
                a == b * q + r,
        ;
        lemma_fundamental_div_mod_converse(a + b - 1, b, q + 1, r - 1);
        assert(b * (q + 1) == b * q + b) by (nonlinear_arith);
    }
}

/// The number of axial slices of a thread, or `None` where a mesh could not
/// hold even one quad to the slice.
pub fn axial_steps(length: u64, pitch: u32) -> (n: Option<usize>)
    requires
        pitch > 0,
    ensures
        match n {
            Some(count) => count == axial_step_count(length as int, pitch as int) && count
                <= MAX_QUADS,
            None => axial_step_count(length as int, pitch as int) > MAX_QUADS,
        },
{
    proof {
        ceil_div_covers(length as int, pitch as int);
    }
    let q: u64 = length / (pitch as u64);
    let r: u64 = length % (pitch as u64);
    if q >= 44_739_243 {
        return None;
    }
    let turns: u64 = if r != 0 {
        q + 1
    } else {
        q
    };
    if turns >= 44_739_243 {
        return None;
    }
    let n: u64 = 24 * turns;
    if n < 36 {
        Some(36)
    } else {
        Some(n as usize)
    }
}

/// A thread that is being cut: the arguments of `add_end_thread` and the
/// number of slices that follows from them.
struct Cut {
    side: Side,
    z0: i64,
    standard: Standard,
    gender: Gender,
    dim: Dim,
    length: u64,
    seg: usize,
    tol: i64,
    steps: usize,
}

impl Cut {
    spec fn sweep(&self) -> Sweep {
        Sweep {
            side: self.side,
            z0: self.z0 as int,
            standard: self.standard,
            gender: self.gender,
            major: self.dim.major as int,
            pitch: self.dim.pitch as int,
            length: self.length as int,
            seg: self.seg as int,
            tol: self.tol as int,
        }
    }

    /// What `point` relies on: the slice count is the thread's own, and the
    /// surface is one that a mesh can hold.
    spec fn ok(&self) -> bool {
        &&& self.dim.pitch > 0
        &&& in_extent(self.z0 as int)
        &&& in_extent(self.tol as int)
        &&& self.steps == self.sweep().steps()
        &&& 1 <= self.seg
        &&& self.seg * self.steps <= MAX_QUADS
    }

    /// A thread that a mesh can hold is shorter than 2^58 nanometres, and
    /// one turn of it has fewer than 2^62 units of phase.
    proof fn bounds(&self)
        requires
            self.ok(),
        ensures
            36 <= self.steps <= MAX_QUADS,
            self.seg <= MAX_QUADS,
            self.length < 0x400_0000_0000_0000,
            self.dim.pitch * self.steps < 0x4000_0000_0000_0000,
            0 < self.sweep().turn() < 0x4000_0000_0000_0000,
            self.sweep().turn() == self.seg * (self.dim.pitch * self.steps),
    {
        let l = self.length as int;
        let p = self.dim.pitch as int;
        let st = self.steps as int;
        let sg = self.seg as int;
        ceil_div_covers(l, p);
        let c = ceil_div(l, p);
        assert(st <= MAX_QUADS && sg <= MAX_QUADS) by (nonlinear_arith)
            requires
                1 <= sg,
                36 <= st,
                sg * st <= MAX_QUADS,
        ;
        assert(24 * c <= st);
        assert(l < 0x400_0000_0000_0000) by (nonlinear_arith)
            requires
                l <= p * c,
                0 <= c <= 44_739_242,
                0 < p <= 0xffff_ffff,
        ;
        assert(p * st < 0x4000_0000_0000_0000 && 0 < sg * (p * st) < 0x4000_0000_0000_0000)
            by (nonlinear_arith)
            requires
                1 <= sg,
                36 <= st,
                sg * st <= 0x4000_0000,
                0 < p <= 0xffff_ffff,
        ;
    }

    /// The vertex at slice boundary `k` and angular step `s`.
    fn point(&self, k: usize, s: usize) -> (p: Point)
        requires
            self.ok(),
            k <= self.steps,
            s <= self.seg,
        ensures
            p.coords() == self.sweep().point(k as int, s as int),
    {
        let ghost sweep = self.sweep();
        proof {
            self.bounds();
        }
        let steps: u64 = self.steps as u64;
        let seg: u64 = self.seg as u64;
        let pitch: u64 = self.dim.pitch as u64;

        // Axial travel, height and taper.
        proof {
            assert(0 <= self.length * k < 0x1_0000_0000_0000_0000_0000_0000) by (nonlinear_arith)
                requires
                    0 <= self.length < 0x400_0000_0000_0000,
                    0 <= k <= 0x4000_0000,
            ;
        }
        let lk: u128 = (self.length as u128) * (k as u128);
        proof {
            assert(0 <= lk as int / steps as int <= self.length) by (nonlinear_arith)
                requires
                    lk == self.length * k,
                    0 <= k <= steps,
                    0 < steps,
            ;
        }
        let travel: u64 = (lk / (steps as u128)) as u64;
        assert(travel == sweep.travel(k as int));
        let z: i64 = match self.side {
            Side::A => self.z0 - (travel as i64),
            Side::B => self.z0 + (travel as i64),
        };
        let taper: i64 = match self.standard {
            Standard::Tapered => (travel / 32) as i64,
            Standard::Straight => 0,
        };

        // Helix phase, taken within one turn.
        let per_step: u64 = pitch * steps;
        let turn: u64 = seg * per_step;
        proof {
            assert(0 < per_step) by (nonlinear_arith)
                requires
                    per_step == pitch * steps,
                    0 < pitch,
                    0 < steps,
            ;
            lemma_mod_bound(lk as int, per_step as int);
        }
        let within: u64 = (lk % (per_step as u128)) as u64;
        proof {
            assert(s * per_step <= turn && within * seg < turn) by (nonlinear_arith)
                requires
                    turn == seg * per_step,
                    0 <= s <= seg,
                    0 <= within < per_step,
                    1 <= seg,
            ;
        }
        let phase: u64 = (s as u64) * per_step + within * seg;
        let height: u64 = tri_profile(phase as i64, turn);
        proof {
            let whole = (lk as int) / (per_step as int);
            lemma_fundamental_div_mod(lk as int, per_step as int);
            assert(sweep.phase(k as int, s as int) == phase + whole * turn) by (nonlinear_arith)
                requires
                    sweep.phase(k as int, s as int) == s * per_step + lk * seg,
                    phase == s * per_step + within * seg,
                    lk == per_step * whole + within,
                    turn == seg * per_step,
            ;
            profile_is_periodic(phase as int, turn as int, whole);
            assert(height == profile(sweep.phase(k as int, s as int), sweep.turn()));
        }

        // Radius.
        let depth: u64 = 16 * pitch / 25;
        proof {
            assert(0 <= depth * height < 0x1_0000_0000_0000_0000_0000_0000) by (nonlinear_arith)
                requires
                    0 <= depth < 0x1_0000_0000,
                    0 <= height < 0x4000_0000_0000_0000,
            ;
            assert(0 <= (depth * height) / (turn as int) <= depth) by (nonlinear_arith)
                requires
                    0 <= height <= turn,
                    0 < turn,
                    0 <= depth,
            ;
        }
        let rise: i64 = (((depth as u128) * (height as u128)) / (turn as u128)) as i64;
        assert(rise == sweep.rise(k as int, s as int));
        let base: i64 = (self.dim.major / 2) as i64;
        let radius: i64 = match self.gender {
            Gender::Male => base + rise - self.tol - taper,
            Gender::Female => (base - (depth as i64)) + ((depth as i64) - rise) + self.tol + taper,
        };
        let p = Point { radius, step: s as i64, z };
        proof {
            assert(p.coords() =~= sweep.point(k as int, s as int));
        }
        p
    }
}

/// Quad number `k * seg + s` of a surface is the quad of slice `k` and
/// angular step `s`.
proof fn next_quad(sweep: Sweep, k: int, s: int)
    requires
        0 <= k,
        0 <= s < sweep.seg,
    ensures
        sweep.vertices((k * sweep.seg + s + 1) as nat) == sweep.vertices((k * sweep.seg + s) as nat)
            + sweep.quad(k, s),
        0 <= k * sweep.seg,
{
    let n = k * sweep.seg + s;
    assert(0 <= k * sweep.seg) by (nonlinear_arith)
        requires
            0 <= k,
            0 < sweep.seg,
    ;
    lemma_fundamental_div_mod_converse(n, sweep.seg, k, s);
}

/// Appends the thread surface of one end to `mesh`. The thread starts at the
/// end face at height `z0` and runs `length` nanometres away from the body,
/// downwards on end A and upwards on end B, in slices of `seg` quads each.
pub fn add_end_thread(
    mesh: &mut TriMesh,
    side: Side,
    z0: i64,
    end: &EndSpec,
    dim: Dim,
    length: u64,
    seg: usize,
    tol: i64,
)
    requires
        old(mesh).wf(),
        dim.pitch > 0,
        in_extent(z0 as int),
        in_extent(tol as int),
        old(mesh).quads() + thread_sweep(
            side,
            z0 as int,
            end@,
            dim,
            length as int,
            seg as int,
            tol as int,
        ).quad_count() <= MAX_QUADS,
    ensures
        final(mesh).wf(),
        final(mesh).quads() == old(mesh).quads() + thread_sweep(
            side,
            z0 as int,
            end@,
            dim,
            length as int,
            seg as int,
            tol as int,
        ).quad_count(),
        final(mesh)@.vertices == old(mesh)@.vertices + thread_sweep(
            side,
            z0 as int,
            end@,
            dim,
            length as int,
            seg as int,
            tol as int,
        ).surface(),
{
    let ghost sweep = thread_sweep(
        side,
        z0 as int,
        end@,
        dim,
        length as int,
        seg as int,
        tol as int,
    );
    if seg == 0 {
        assert(sweep.quad_count() == 0) by (nonlinear_arith)
            requires
                sweep.quad_count() == sweep.steps() * sweep.seg,
                sweep.seg == 0,
        ;
        assert(mesh@.vertices =~= old(mesh)@.vertices + sweep.surface());
        return ;
    }
    proof {
        assert(sweep.steps() <= MAX_QUADS) by (nonlinear_arith)
            requires
                sweep.steps() * sweep.seg <= MAX_QUADS,
                1 <= sweep.seg,
                36 <= sweep.steps(),
        ;
    }
    let steps: usize = match axial_steps(length, dim.pitch) {
        Some(count) => count,
        // A mesh with room for the surface has room for one quad to the slice.
        None => { return ; },
    };
    let cut = Cut {
        side,
        z0,
        standard: end.standard,
        gender: end.gender,
        dim,
        length,
        seg,
        tol,
        steps,
    };
    assert(cut.sweep() == sweep);
    assert(cut.ok()) by (nonlinear_arith)
        requires
            cut.dim.pitch > 0,
            in_extent(cut.z0 as int),
            in_extent(cut.tol as int),
            cut.steps == cut.sweep().steps(),
            1 <= cut.seg,
            cut.sweep().steps() * cut.seg <= MAX_QUADS,
    ;
    let mut k: usize = 0;
    while k < steps
        invariant
            k <= steps,
            cut.ok(),
            cut.sweep() == sweep,
            cut.steps == steps,
            cut.seg == seg,
            sweep.seg == seg,
            sweep.gender == cut.gender,
            sweep.side == cut.side,
            sweep.quad_count() == steps * seg,
            old(mesh).wf(),
            old(mesh).quads() + steps * seg <= MAX_QUADS,
            mesh.wf(),
            mesh.quads() == old(mesh).quads() + k * seg,
            mesh@.vertices == old(mesh)@.vertices + sweep.vertices((k * seg) as nat),
        decreases steps - k,
    {
        let mut s: usize = 0;
        while s < seg
            invariant
                s <= seg,
                k < steps,
                cut.ok(),
                cut.sweep() == sweep,
                cut.steps == steps,
                cut.seg == seg,
                sweep.seg == seg,
                sweep.gender == cut.gender,
                sweep.side == cut.side,
                old(mesh).wf(),
                old(mesh).quads() + steps * seg <= MAX_QUADS,
                mesh.wf(),
                mesh.quads() == old(mesh).quads() + k * seg + s,
                mesh@.vertices == old(mesh)@.vertices + sweep.vertices((k * seg + s) as nat),
            decreases seg - s,
        {
            proof {
                next_quad(sweep, k as int, s as int);
                assert(k * seg + s < steps * seg) by (nonlinear_arith)
                    requires
                        0 <= k < steps,
                        0 <= s < seg,
                ;
            }
            let ghost before = mesh@.vertices;
            let a0 = cut.point(k, s);
            let a1 = cut.point(k, s + 1);
            let b0 = cut.point(k + 1, s);
            let b1 = cut.point(k + 1, s + 1);
            let rounds_first: bool = match (cut.gender, cut.side) {
                (Gender::Male, Side::B) => true,
                (Gender::Female, Side::A) => true,
                (Gender::Male, Side::A) => false,
                (Gender::Female, Side::B) => false,
            };
            if rounds_first {
                mesh.quad(a0, a1, b1, b0);
            } else {
                mesh.quad(a0, b0, b1, a1);
            }
            proof {
                assert(mesh@.vertices == before + sweep.quad(k as int, s as int));
                assert(mesh@.vertices =~= old(mesh)@.vertices + sweep.vertices(
                    (k * seg + s + 1) as nat,
                ));
            }
            s = s + 1;
        }
        proof {
            assert(k * seg + seg == (k + 1) * seg) by (nonlinear_arith);
        }
        k = k + 1;
    }
}

} // verus!
