use pathtracer::math::{Vec2, Vec3};
use pathtracer::sampling::{
    CosineWeightedHemisphereSampler, OriginSampler, SurfaceSample, UniformCuboidSampler,
    UniformSampler2, UniformShapeSampler, UniformSphereSampler, UniformHemisphereSampler,
};
use pathtracer::shapes::{Ball, Cuboid, Metaball, Shape};

#[test]
fn uniform_hemisphere_density_is_half_over_pi() {
    // The density of every hemisphere direction is exactly 1/(2*pi):
    // 0.500 over pi, with nothing rounded.
    let d = UniformHemisphereSampler.density();
    assert_eq!(d.coef, 500);
    assert!(d.over_pi);
}

#[test]
fn uniform_sphere_density_is_quarter_over_pi() {
    let d = UniformSphereSampler.density();
    assert_eq!(d.coef, 250);
    assert!(d.over_pi);
}

#[test]
fn cosine_weighted_density_tracks_the_cosine() {
    let d = CosineWeightedHemisphereSampler.density(333);
    assert_eq!(d.coef, 333);
    assert!(d.over_pi);
    let straight_up = CosineWeightedHemisphereSampler.density(1000);
    assert_eq!(straight_up.coef, 1000);
}

#[test]
fn pixel_jitter_scales_the_unit_square() {
    let sampler = UniformSampler2::new(Vec2 { x: 2000, y: 500 });
    let p = sampler.sample(500, 500);
    assert_eq!(p.x, 1000);
    assert_eq!(p.y, 250);
    let corner = sampler.sample(0, 1000);
    assert_eq!(corner.x, 0);
    assert_eq!(corner.y, 500);
}

#[test]
fn cuboid_sample_at_zero_picks_the_first_face_positive_side() {
    let cube = Cuboid::new(Vec3 { x: 1000, y: 1000, z: 1000 });
    let sampler = UniformCuboidSampler::new(&cube);
    let (p, pdf) = sampler.sample(0, 0);
    // u = 0 falls in the x-face range on the positive side; v = 0 maps to
    // the bottom of the face.
    assert_eq!(p.x, 1000);
    assert_eq!(p.z, -1000);
    assert!(p.y.abs() <= 1000);
    // total area of one face per axis: 3 * 4 * 1000 * 1000.
    assert_eq!(pdf.num, 1_000_000);
    assert_eq!(pdf.den, 24_000_000);
}

#[test]
fn cuboid_sample_midpoint_lands_on_the_negative_y_face() {
    let cube = Cuboid::new(Vec3 { x: 1000, y: 1000, z: 1000 });
    let sampler = UniformCuboidSampler::new(&cube);
    // u = 1/2 is past the first face's third of the range and in the second
    // half of the second face's range: the negative y face, at its corner.
    let (p, _) = sampler.sample(1u32 << 31, 1u32 << 31);
    assert_eq!(p.y, -1000);
    assert_eq!(p.x, -1000);
    assert_eq!(p.z, 0);
}

#[test]
fn cuboid_samples_stay_on_the_surface() {
    let slab = Cuboid::new(Vec3 { x: 10_000, y: 100, z: 10_000 });
    let sampler = UniformCuboidSampler::new(&slab);
    let us = [0u32, 1, 99_999, 1 << 30, 1 << 31, (1u32 << 31) + (1 << 30), u32::MAX];
    for &u in us.iter() {
        for &v in us.iter() {
            let (p, pdf) = sampler.sample(u, v);
            assert!(p.x.abs() <= 10_000 && p.y.abs() <= 100 && p.z.abs() <= 10_000);
            assert!(
                p.x.abs() == 10_000 || p.y.abs() == 100 || p.z.abs() == 10_000,
                "point must lie on some face"
            );
            assert_eq!(pdf.num, 1_000_000);
            assert_eq!(pdf.den, 2 * slab.compute_total_area());
        }
    }
}

#[test]
fn cuboid_remap_is_exact_inside_a_face() {
    let cube = Cuboid::new(Vec3 { x: 1000, y: 1000, z: 1000 });
    let sampler = UniformCuboidSampler::new(&cube);
    // u = 1/4: inside the first face's third of the range, in its second
    // half, three quarters of the way through that half; v = 3/4 remaps to
    // half the extent above the face's center.
    let (p, _) = sampler.sample(1u32 << 30, 3u32 << 30);
    assert_eq!((p.x, p.y, p.z), (-1000, 0, 500));
}

#[test]
fn degenerate_cuboid_falls_back_to_its_center() {
    let degenerate = Cuboid::new(Vec3 { x: 0, y: 0, z: 0 });
    let sampler = UniformCuboidSampler::new(&degenerate);
    let (p, pdf) = sampler.sample(123, 456);
    assert_eq!((p.x, p.y, p.z), (0, 0, 0));
    assert_eq!((pdf.num, pdf.den), (1, 1));
}

#[test]
fn shape_sampler_dispatches_by_variant() {
    let position = Vec3 { x: 5000, y: 0, z: -2000 };
    let ball = Shape::Ball(Ball::new(500));
    match UniformShapeSampler.sample(&ball, position, 7, 9) {
        SurfaceSample::OnSphere { center, radius } => {
            assert_eq!((center.x, center.y, center.z), (5000, 0, -2000));
            assert_eq!(radius, 500);
        }
        _ => panic!("a ball defers its direction to the sphere sampler"),
    }

    let cube = Shape::Cuboid(Cuboid::new(Vec3 { x: 300, y: 300, z: 50 }));
    match UniformShapeSampler.sample(&cube, position, 0, 0) {
        SurfaceSample::At { point, pdf } => {
            let local = Vec3 {
                x: point.x - position.x,
                y: point.y - position.y,
                z: point.z - position.z,
            };
            assert!(local.x.abs() == 300 || local.y.abs() == 300 || local.z.abs() == 50);
            assert_eq!(pdf.num, 1_000_000);
        }
        _ => panic!("a cuboid is sampled exactly"),
    }

    let blob = Shape::Metaball(Metaball::new(vec![Vec3 { x: 0, y: 0, z: 0 }], 100, 1000));
    match UniformShapeSampler.sample(&blob, position, 1, 2) {
        SurfaceSample::At { point, pdf } => {
            assert_eq!((point.x, point.y, point.z), (5000, 0, -2000));
            assert_eq!((pdf.num, pdf.den), (1, 1));
        }
        _ => panic!("unsupported shapes fall back to the origin"),
    }
}

#[test]
fn origin_sampler_reports_density_one() {
    let (p, pdf) = OriginSampler.sample(Vec3 { x: 1, y: 2, z: 3 });
    assert_eq!((p.x, p.y, p.z), (1, 2, 3));
    assert_eq!((pdf.num, pdf.den), (1, 1));
}
