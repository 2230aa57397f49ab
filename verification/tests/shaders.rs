use pathtracer::math::Vec3;
use pathtracer::shaders::{
    Bsdf, LambertBRDF, LambertBSDF, MirrorBRDF, MirrorBSDF, BxDF, Shader,
};
use pathtracer::spectrum::Spectrum;

#[test]
fn mirror_sample_reflects_exactly() {
    // Reflecting (a, b, c) about the local normal (0, 0, 1) yields exactly
    // (a, b, -c), with value one and density one.
    let mirror = MirrorBRDF::new();
    let (dir, value, density) = mirror.sample(&Vec3 { x: 300, y: -200, z: 700 });
    assert_eq!((dir.x, dir.y, dir.z), (300, -200, -700));
    assert_eq!((value.spectrum.r, value.spectrum.g, value.spectrum.b), (1000, 1000, 1000));
    assert!(!value.per_pi);
    assert_eq!(density.coef, 1000);
    assert!(!density.over_pi);
}

#[test]
fn mirror_sample_is_deterministic() {
    let mirror = MirrorBSDF::new();
    let input = Vec3 { x: -123, y: 456, z: -789 };
    let (d1, _, _) = mirror.sample(&input);
    let (d2, _, _) = mirror.sample(&input);
    assert_eq!((d1.x, d1.y, d1.z), (d2.x, d2.y, d2.z));
    assert_eq!((d1.x, d1.y, d1.z), (-123, 456, 789));
}

#[test]
fn mirror_eval_is_zero() {
    let mirror = MirrorBRDF::new();
    let r = mirror.eval(&Vec3 { x: 0, y: 0, z: 1000 }, &Vec3 { x: 0, y: 0, z: -1000 });
    assert_eq!((r.spectrum.r, r.spectrum.g, r.spectrum.b), (0, 0, 0));
}

#[test]
fn lambert_eval_is_albedo_over_pi_for_any_directions() {
    let albedo = Spectrum::new(800, 600, 400);
    let lambert = LambertBRDF::new(albedo);
    let a = lambert.eval(&Vec3 { x: 0, y: 0, z: 1000 }, &Vec3 { x: 100, y: 0, z: 990 });
    let b = lambert.eval(&Vec3 { x: -500, y: 500, z: 700 }, &Vec3 { x: 0, y: 0, z: 1000 });
    assert_eq!((a.spectrum.r, a.spectrum.g, a.spectrum.b), (800, 600, 400));
    assert!(a.per_pi, "the value is the albedo divided by pi");
    assert_eq!(a.spectrum, b.spectrum);
}

#[test]
fn lambert_finish_sample_matches_the_cosine_density() {
    let lambert = LambertBSDF::new(Spectrum::new(1000, 1000, 1000));
    let drawn = Vec3 { x: 600, y: 0, z: 800 };
    let (value, density) = lambert.finish_sample(&drawn);
    assert_eq!(value.spectrum.r, 1000);
    assert!(value.per_pi);
    assert_eq!(density.coef, 800);
    assert!(density.over_pi, "density is cos(theta)/pi");
}

#[test]
fn diffuse_flags_tell_the_materials_apart() {
    assert!(LambertBSDF::new(Spectrum::new(500, 500, 500)).is_diffuse());
    assert!(!MirrorBSDF::new().is_diffuse());
    let lambert: Bsdf = Shader::Lambert(Spectrum::new(500, 500, 500)).to_bsdf();
    let mirror: Bsdf = Shader::Mirror.to_bsdf();
    assert!(lambert.is_diffuse());
    assert!(!mirror.is_diffuse());
}

#[test]
fn shader_builds_the_matching_material() {
    match Shader::Lambert(Spectrum::new(10, 20, 30)).to_bsdf() {
        Bsdf::Lambert(m) => {
            let r = m.eval(&Vec3 { x: 0, y: 0, z: 1000 }, &Vec3 { x: 0, y: 0, z: 1000 });
            assert_eq!((r.spectrum.r, r.spectrum.g, r.spectrum.b), (10, 20, 30));
        }
        Bsdf::Mirror(_) => panic!("a Lambert descriptor builds a Lambert material"),
    }
    match Shader::Mirror.to_bsdf() {
        Bsdf::Mirror(_) => (),
        Bsdf::Lambert(_) => panic!("a mirror descriptor builds a mirror material"),
    }
}
