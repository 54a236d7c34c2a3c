use thread_adapter::dims::{bsp_dim, Dim};
use thread_adapter::mesh::{MeshData, TriMesh, MAX_QUADS};
use thread_adapter::params::{EndSpec, Gender, Standard};
use thread_adapter::thread::{add_end_thread, axial_steps, Side};

fn end(standard: Standard, size: &str, gender: Gender) -> EndSpec {
    EndSpec { standard, size: size.to_string(), gender }
}

fn cut(side: Side, z0: i64, end: &EndSpec, length: u64, seg: usize, tol: i64) -> MeshData {
    let mut mesh = TriMesh::new();
    add_end_thread(&mut mesh, side, z0, end, bsp_dim(&end.size), length, seg, tol);
    mesh.into_data(seg)
}

/// The vertex that quad `(k, s)` holds in place `corner`.
fn corner(v: &[i64], seg: usize, k: usize, s: usize, corner: usize) -> (i64, i64, i64) {
    let at = 12 * (k * seg + s) + 3 * corner;
    (v[at], v[at + 1], v[at + 2])
}

#[test]
fn axial_steps_are_24_to_the_started_turn() {
    assert_eq!(axial_steps(10_884_000, 1_814_000), Some(144));
    assert_eq!(axial_steps(10_884_000, 1_337_000), Some(216));
    assert_eq!(axial_steps(10_884_001, 1_814_000), Some(168));
    assert_eq!(axial_steps(2 * 2_309_000, 2_309_000), Some(48));
}

#[test]
fn axial_steps_are_never_under_36() {
    assert_eq!(axial_steps(0, 1_814_000), Some(36));
    assert_eq!(axial_steps(1, 1_814_000), Some(36));
    assert_eq!(axial_steps(1_814_000, 1_814_000), Some(36));
    assert_eq!(axial_steps(1_814_001, 1_814_000), Some(48));
}

#[test]
fn axial_steps_stop_at_the_quad_limit() {
    assert_eq!(axial_steps(44_739_242, 1), Some(24 * 44_739_242));
    assert!(24 * 44_739_242 <= MAX_QUADS);
    assert_eq!(axial_steps(44_739_243, 1), None);
    assert_eq!(axial_steps(u64::MAX, 1), None);
    assert_eq!(axial_steps(u64::MAX, u32::MAX), None);
    assert_eq!(axial_steps(u64::MAX / 2, u32::MAX), None);
}

#[test]
fn thread_has_a_quad_to_each_slice_and_step() {
    let data = cut(Side::A, -20_000_000, &end(Standard::Straight, "1/2", Gender::Male), 10_884_000, 32, 100_000);
    assert_eq!(data.vertices().len(), 12 * 144 * 32);
    assert_eq!(data.indices().len(), 6 * 144 * 32);
    let count = (data.vertices().len() / 3) as u32;
    assert!(data.indices().iter().all(|&i| i < count));
}

#[test]
fn thread_of_no_steps_is_empty() {
    let data = cut(Side::B, 0, &end(Standard::Straight, "1/2", Gender::Male), u64::MAX, 0, 0);
    assert!(data.vertices().is_empty());
    assert!(data.indices().is_empty());
}

#[test]
fn male_thread_follows_the_profile() {
    let v = cut(Side::A, -20_000_000, &end(Standard::Straight, "1/2", Gender::Male), 10_884_000, 32, 100_000)
        .vertices();
    // Root at the start, crest half a turn round, crest half a pitch along.
    assert_eq!(corner(&v, 32, 0, 0, 0), (10_377_500, 0, -20_000_000));
    assert_eq!(corner(&v, 32, 0, 16, 0), (11_538_460, 16, -20_000_000));
    assert_eq!(corner(&v, 32, 12, 0, 0), (11_538_460, 0, -20_907_000));
    assert_eq!(corner(&v, 32, 7, 5, 0), (11_417_526, 5, -20_529_083));
}

#[test]
fn male_quad_on_end_a_is_wound_along_the_axis_first() {
    let v = cut(Side::A, -20_000_000, &end(Standard::Straight, "1/4", Gender::Male), 10_884_000, 24, 100_000)
        .vertices();
    assert_eq!(v.len(), 12 * 216 * 24);
    assert_eq!(corner(&v, 24, 5, 7, 0), (7_300_135, 7, -20_251_944));
    assert_eq!(corner(&v, 24, 5, 7, 1), (7_303_726, 7, -20_302_333));
    assert_eq!(corner(&v, 24, 5, 7, 2), (7_232_420, 8, -20_302_333));
    assert_eq!(corner(&v, 24, 5, 7, 3), (7_296_917, 8, -20_251_944));
    assert_eq!(corner(&v, 24, 100, 3, 0), (6_660_242, 3, -25_038_888));
    assert_eq!(corner(&v, 24, 215, 23, 0), (6_583_335, 23, -30_833_611));
    assert_eq!(corner(&v, 24, 215, 23, 2), (6_719_140, 24, -30_884_000));
}

#[test]
fn male_quad_on_end_b_is_wound_round_the_axis_first() {
    let v = cut(Side::B, 20_000_000, &end(Standard::Straight, "1/4", Gender::Male), 10_884_000, 24, 100_000)
        .vertices();
    assert_eq!(corner(&v, 24, 5, 7, 0), (7_300_135, 7, 20_251_944));
    assert_eq!(corner(&v, 24, 5, 7, 1), (7_296_917, 8, 20_251_944));
    assert_eq!(corner(&v, 24, 5, 7, 2), (7_232_420, 8, 20_302_333));
    assert_eq!(corner(&v, 24, 5, 7, 3), (7_303_726, 7, 20_302_333));
}

#[test]
fn female_quad_on_end_a_is_wound_round_the_axis_first() {
    let v = cut(Side::A, -20_000_000, &end(Standard::Tapered, "3/4", Gender::Female), 10_884_000, 32, 100_000)
        .vertices();
    assert_eq!(corner(&v, 32, 5, 7, 0), (12_340_656, 7, -20_377_916));
    assert_eq!(corner(&v, 32, 5, 7, 1), (12_268_096, 8, -20_377_916));
    assert_eq!(corner(&v, 32, 5, 7, 2), (12_173_711, 8, -20_453_500));
    assert_eq!(corner(&v, 32, 5, 7, 3), (12_246_271, 7, -20_453_500));
}

#[test]
fn female_quad_on_end_b_is_wound_along_the_axis_first() {
    let v = cut(Side::B, 20_000_000, &end(Standard::Tapered, "3/4", Gender::Female), 10_884_000, 32, 100_000)
        .vertices();
    assert_eq!(corner(&v, 32, 5, 7, 0), (12_340_656, 7, 20_377_916));
    assert_eq!(corner(&v, 32, 5, 7, 1), (12_246_271, 7, 20_453_500));
    assert_eq!(corner(&v, 32, 5, 7, 2), (12_173_711, 8, 20_453_500));
    assert_eq!(corner(&v, 32, 5, 7, 3), (12_268_096, 8, 20_377_916));
}

#[test]
fn female_tapered_thread_widens_along_its_travel() {
    let v = cut(Side::B, 20_000_000, &end(Standard::Tapered, "3/4", Gender::Female), 10_884_000, 32, 100_000)
        .vertices();
    assert_eq!(corner(&v, 32, 0, 0, 0), (13_320_500, 0, 20_000_000));
    assert_eq!(corner(&v, 32, 12, 0, 0), (12_187_883, 0, 20_907_000));
    assert_eq!(corner(&v, 32, 143, 31, 0), (13_488_957, 31, 30_808_416));
    assert_eq!(corner(&v, 32, 143, 0, 1), (13_660_625, 0, 30_884_000));
    assert_eq!(corner(&v, 32, 143, 31, 2), (13_660_625, 32, 30_884_000));
}

#[test]
fn straight_thread_has_no_taper() {
    let tapered = cut(Side::B, 20_000_000, &end(Standard::Tapered, "3/4", Gender::Female), 10_884_000, 32, 100_000)
        .vertices();
    let straight = cut(Side::B, 20_000_000, &end(Standard::Straight, "3/4", Gender::Female), 10_884_000, 32, 100_000)
        .vertices();
    assert_eq!(corner(&straight, 32, 143, 0, 1), (13_320_500, 0, 30_884_000));
    assert_eq!(corner(&tapered, 32, 143, 0, 1).0 - corner(&straight, 32, 143, 0, 1).0, 10_884_000 / 32);
}

#[test]
fn thread_runs_away_from_the_body() {
    let spec = end(Standard::Straight, "1/2", Gender::Male);
    let below = cut(Side::A, -20_000_000, &spec, 10_884_000, 24, 0).vertices();
    let above = cut(Side::B, 20_000_000, &spec, 10_884_000, 24, 0).vertices();
    assert_eq!(corner(&below, 24, 143, 0, 2).2, -30_884_000);
    assert_eq!(corner(&above, 24, 143, 0, 2).2, 30_884_000);
    assert!(below.chunks(3).all(|p| -30_884_000 <= p[2] && p[2] <= -20_000_000));
    assert!(above.chunks(3).all(|p| 20_000_000 <= p[2] && p[2] <= 30_884_000));
}

#[test]
fn direction_goes_by_the_end_and_not_by_the_height() {
    let spec = end(Standard::Straight, "1/2", Gender::Male);
    for z0 in [0i64, 1, -1, 20_000_000, -20_000_000] {
        let down = cut(Side::A, z0, &spec, 10_884_000, 24, 0).vertices();
        let up = cut(Side::B, z0, &spec, 10_884_000, 24, 0).vertices();
        assert_eq!(corner(&down, 24, 0, 0, 0).2, z0);
        assert_eq!(corner(&up, 24, 0, 0, 0).2, z0);
        assert_eq!(corner(&down, 24, 143, 0, 2).2, z0 - 10_884_000);
        assert_eq!(corner(&up, 24, 143, 0, 2).2, z0 + 10_884_000);
        assert!(down.chunks(3).all(|p| z0 - 10_884_000 <= p[2] && p[2] <= z0));
        assert!(up.chunks(3).all(|p| z0 <= p[2] && p[2] <= z0 + 10_884_000));
    }
}

/// Cartesian position of a buffer vertex, for `seg` steps to the turn.
fn position(p: (i64, i64, i64), seg: usize) -> [f64; 3] {
    let angle = p.1 as f64 / seg as f64 * std::f64::consts::TAU;
    [p.0 as f64 * angle.cos(), p.0 as f64 * angle.sin(), p.2 as f64]
}

/// The part of the normal of the triangle `a, b, c` that points away
/// from the axis at `a`, by the right-hand rule.
fn outward(a: [f64; 3], b: [f64; 3], c: [f64; 3]) -> f64 {
    let u = [b[0] - a[0], b[1] - a[1], b[2] - a[2]];
    let w = [c[0] - a[0], c[1] - a[1], c[2] - a[2]];
    let n = [u[1] * w[2] - u[2] * w[1], u[2] * w[0] - u[0] * w[2]];
    n[0] * a[0] + n[1] * a[1]
}

#[test]
fn thread_normals_point_out_of_the_material_on_either_end() {
    for side in [Side::A, Side::B] {
        for gender in [Gender::Male, Gender::Female] {
            for standard in [Standard::Straight, Standard::Tapered] {
                let seg = 24;
                let z0 = match side {
                    Side::A => -20_000_000,
                    Side::B => 20_000_000,
                };
                let v = cut(side, z0, &end(standard, "3/4", gender), 10_884_000, seg, 100_000).vertices();
                let steps = v.len() / 12 / seg;
                for k in 0..steps {
                    for s in 0..seg {
                        let c: Vec<[f64; 3]> =
                            (0..4).map(|n| position(corner(&v, seg, k, s, n), seg)).collect();
                        let first = outward(c[0], c[1], c[2]);
                        let second = outward(c[0], c[2], c[3]);
                        match gender {
                            Gender::Male => assert!(first > 0.0 && second > 0.0, "{side:?} {k} {s}"),
                            Gender::Female => assert!(first < 0.0 && second < 0.0, "{side:?} {k} {s}"),
                        }
                    }
                }
            }
        }
    }
}

#[test]
fn tolerance_moves_male_in_and_female_out() {
    let male = end(Standard::Straight, "1/2", Gender::Male);
    let female = end(Standard::Straight, "1/2", Gender::Female);
    let tight_m = cut(Side::A, -1, &male, 1_814_000, 24, 0).vertices();
    let loose_m = cut(Side::A, -1, &male, 1_814_000, 24, 250_000).vertices();
    let tight_f = cut(Side::A, -1, &female, 1_814_000, 24, 0).vertices();
    let loose_f = cut(Side::A, -1, &female, 1_814_000, 24, 250_000).vertices();
    for at in (0..tight_m.len()).step_by(3) {
        assert_eq!(loose_m[at], tight_m[at] - 250_000);
        assert_eq!(loose_f[at], tight_f[at] + 250_000);
    }
}

#[test]
fn thread_closes_after_a_full_turn() {
    for (side, size, gender) in [
        (Side::B, "1/4", Gender::Male),
        (Side::B, "1", Gender::Female),
        (Side::A, "3/8", Gender::Male),
        (Side::A, "3/4", Gender::Female),
    ] {
        let seg = 25;
        let v = cut(side, 5, &end(Standard::Tapered, size, gender), 7_000_000, seg, 50_000).vertices();
        let steps = v.len() / 12 / seg;
        // The corner at the far step of the last quad of a slice against the
        // corner at step 0 of its first quad.
        let (near, far) = match (gender, side) {
            (Gender::Male, Side::B) | (Gender::Female, Side::A) => (0, 1),
            (Gender::Male, Side::A) | (Gender::Female, Side::B) => (0, 3),
        };
        for k in 0..steps {
            let first = corner(&v, seg, k, 0, near);
            let last = corner(&v, seg, k, seg - 1, far);
            assert_eq!(first.1, 0);
            assert_eq!(last.1, seg as i64);
            assert_eq!((first.0, first.2), (last.0, last.2));
        }
    }
}

#[test]
fn rise_stays_within_the_thread_depth() {
    let v = cut(Side::A, -20_000_000, &end(Standard::Straight, "1", Gender::Male), 5_000_000, 24, 0).vertices();
    let base = 33_249_000 / 2;
    let depth = 16 * 2_309_000 / 25;
    assert!(v.chunks(3).all(|p| base <= p[0] && p[0] <= base + depth));
    assert!(v.chunks(3).any(|p| p[0] == base));
    assert!(v.chunks(3).any(|p| p[0] == base + depth));
}

#[test]
fn thread_takes_any_dimensions() {
    let mut mesh = TriMesh::new();
    let spec = end(Standard::Tapered, "", Gender::Female);
    add_end_thread(&mut mesh, Side::B, 1_000_000_000_000_000_000, &spec, Dim { major: u32::MAX, pitch: 1 }, 2, 1, -1_000_000_000_000_000_000);
    let v = mesh.into_data(1).vertices();
    assert_eq!(v.len(), 12 * 48);
    // Depth is 0, so the radius is the base radius, the tolerance and the taper.
    assert_eq!(corner(&v, 1, 0, 0, 0), (2_147_483_647 - 1_000_000_000_000_000_000, 0, 1_000_000_000_000_000_000));
    assert_eq!(corner(&v, 1, 47, 0, 1), (2_147_483_647 - 1_000_000_000_000_000_000, 0, 1_000_000_000_000_000_002));
}
