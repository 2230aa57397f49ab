use pathtracer::integrators::{
    nearest_hit_index, AOIntegrator, NormalIntegrator, PathTracingIntegrator,
};
use pathtracer::math::Vec3;
use pathtracer::scene::{Emission, ObjectData, Scene};
use pathtracer::shaders::{Bsdf, MirrorBSDF, Shader};
use pathtracer::shapes::{Ball, Cuboid, Shape};
use pathtracer::spectrum::{Ratio, Spectrum};

fn lit_sphere_scene() -> Scene {
    // A single white Lambertian sphere at the origin and one cuboid area
    // light of intensity 100 and white color above it.
    let mut scene = Scene::new();
    scene.add_object(ObjectData {
        shape: Some(Shape::Ball(Ball::new(500))),
        position: Some(Vec3 { x: 0, y: 0, z: 0 }),
        emission: None,
        bsdf: Some(Shader::Lambert(Spectrum::new(1000, 1000, 1000))),
    });
    scene.add_object(ObjectData {
        shape: Some(Shape::Cuboid(Cuboid::new(Vec3 { x: 300, y: 300, z: 50 }))),
        position: Some(Vec3 { x: 0, y: 0, z: 2000 }),
        emission: Some(Emission { intensity: 100_000, color: Spectrum::new(1000, 1000, 1000) }),
        bsdf: None,
    });
    scene.perform_collision_phase();
    scene
}

#[test]
fn a_miss_contributes_exactly_nothing() {
    let scene = lit_sphere_scene();
    let integrator = PathTracingIntegrator::new();
    let plan = integrator.bounce_plan(&scene, None, true);
    assert!(plan.emitted.is_none());
    assert!(plan.material.is_none());
    assert!(!plan.sample_light);
    assert!(!plan.continue_path);
}

#[test]
fn hitting_the_sphere_samples_a_light_and_continues() {
    let scene = lit_sphere_scene();
    let integrator = PathTracingIntegrator::new();
    let plan = integrator.bounce_plan(&scene, Some(0), true);
    assert!(plan.emitted.is_none(), "the sphere is not emissive");
    assert!(plan.sample_light && plan.continue_path);
    match plan.material {
        Some(Bsdf::Lambert(_)) => (),
        _ => panic!("the sphere's material is Lambertian"),
    }
    assert_eq!(scene.pick_emitter(0), 1);
}

#[test]
fn an_opaque_light_emits_only_while_emission_counts() {
    let scene = lit_sphere_scene();
    let integrator = PathTracingIntegrator::new();
    let counted = integrator.bounce_plan(&scene, Some(1), true);
    assert_eq!(counted.emitted.unwrap().intensity, 100_000);
    assert!(!counted.continue_path, "a light without a material ends the path");
    let uncounted = integrator.bounce_plan(&scene, Some(1), false);
    assert!(uncounted.emitted.is_none());
}

#[test]
fn emission_counts_again_only_after_a_specular_bounce() {
    let integrator = PathTracingIntegrator::new();
    assert!(!integrator.next_count_emission(true));
    assert!(integrator.next_count_emission(false));
}

#[test]
fn mirror_bounce_without_roulette_loss_keeps_the_wall_albedo() {
    // A mirror sphere reflecting a colored wall, roulette threshold one,
    // single bounce: the mirror's throughput factor is exactly one, so the
    // wall's albedo comes through with no attenuation.
    let integrator = PathTracingIntegrator::with_threshold(1000);
    let mirror = MirrorBSDF::new();
    let incoming = Vec3 { x: 400, y: 0, z: -900 };
    let (reflected, value, density) = mirror.sample(&incoming);
    assert_eq!((reflected.x, reflected.y, reflected.z), (400, 0, 900));
    let factor = integrator.throughput_factor(value, 0, density, false);
    // factor numerators are 1000^3 over a denominator of 1000^2: exactly
    // one in thousandths, for every channel.
    let wall_albedo = Spectrum::new(0, 1000, 0);
    let carried = (
        wall_albedo.r as i128 * factor.num.r as i128,
        wall_albedo.g as i128 * factor.num.g as i128,
        wall_albedo.b as i128 * factor.num.b as i128,
    );
    let scale = 1000 * factor.den as i128;
    assert_eq!(carried.0 / scale, 0);
    assert_eq!(carried.1 / scale, wall_albedo.g as i128);
    assert_eq!(carried.1 % scale, 0, "no attenuation and no rounding");
    assert_eq!(carried.2 / scale, 0);
}

#[test]
fn lambert_bounce_factor_cancels_cosine_and_pi() {
    let integrator = PathTracingIntegrator::new();
    let lambert = pathtracer::shaders::LambertBSDF::new(Spectrum::new(800, 400, 200));
    let drawn = Vec3 { x: 0, y: 600, z: 800 };
    let (value, density) = lambert.finish_sample(&drawn);
    let factor = integrator.throughput_factor(value, drawn.z, density, true);
    // value*cos/(density*survival) = albedo/0.9: cross-multiplied, the
    // factor equals (albedo * 1000) / 900 exactly.
    assert_eq!(factor.num.r as i128 * 900, 800 * 1000 * (factor.den as i128));
    assert_eq!(factor.num.g as i128 * 900, 400 * 1000 * (factor.den as i128));
    assert_eq!(factor.num.b as i128 * 900, 200 * 1000 * (factor.den as i128));
}

#[test]
fn light_sample_weight_is_assembled_exactly() {
    let integrator = PathTracingIntegrator::new();
    let value = pathtracer::shaders::Reflectance {
        spectrum: Spectrum::new(1000, 500, 0),
        per_pi: true,
    };
    let emission = Emission { intensity: 100_000, color: Spectrum::new(1000, 1000, 500) };
    let pdf = Ratio::new(1_000_000, 24_000_000);
    let contribution = integrator.nee_contribution(value, emission, 2, pdf, 2_000);
    assert_eq!(contribution.r, 1000i128 * 100_000 * 1000 * 2 * 24_000_000);
    assert_eq!(contribution.g, 500i128 * 100_000 * 1000 * 2 * 24_000_000);
    assert_eq!(contribution.b, 0);
    assert_eq!(contribution.den, 1000i128 * 1_000_000 * 2000 * 2000);
    assert!(contribution.over_pi, "the diffuse value's pi stays symbolic");
}

#[test]
fn nearest_hit_picks_the_smallest_time_of_impact() {
    assert_eq!(nearest_hit_index(&vec![]), None);
    assert_eq!(nearest_hit_index(&vec![5_000]), Some(0));
    let tois = vec![9_000, 2_500, 7_000, 2_500, 10_000];
    let best = nearest_hit_index(&tois).unwrap();
    assert_eq!(tois[best], 2_500);
}

#[test]
fn ambient_occlusion_is_all_or_nothing() {
    let ao = AOIntegrator::new(5_000);
    assert_eq!(ao.range, 5_000);
    let open = ao.shade(true, false);
    assert_eq!((open.r, open.g, open.b), (1000, 1000, 1000));
    let blocked = ao.shade(true, true);
    assert_eq!((blocked.r, blocked.g, blocked.b), (0, 0, 0));
    let miss = ao.shade(false, false);
    assert_eq!((miss.r, miss.g, miss.b), (0, 0, 0));
}

#[test]
fn normal_probe_false_colors_the_normal() {
    let probe = NormalIntegrator;
    let up = probe.shade(Some(Vec3 { x: 0, y: 0, z: 1000 }));
    assert_eq!((up.r, up.g, up.b), (125_000, 125_000, 250_000));
    let skew = probe.shade(Some(Vec3 { x: -1000, y: 500, z: 0 }));
    assert_eq!((skew.r, skew.g, skew.b), (0, 187_500, 125_000));
    let miss = probe.shade(None);
    assert_eq!((miss.r, miss.g, miss.b), (0, 0, 0));
}
