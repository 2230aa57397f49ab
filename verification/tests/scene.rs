use pathtracer::math::Vec3;
use pathtracer::scene::{Emission, ObjectData, Scene, SceneData, SceneError};
use pathtracer::shaders::Shader;
use pathtracer::shapes::{Ball, Cuboid, MeshError, Metaball, Shape, TriMesh, Triangle};
use pathtracer::spectrum::Spectrum;

fn white_light() -> ObjectData {
    ObjectData {
        shape: Some(Shape::Cuboid(Cuboid::new(Vec3 { x: 300, y: 300, z: 50 }))),
        position: Some(Vec3 { x: 0, y: 0, z: 2000 }),
        emission: Some(Emission { intensity: 100_000, color: Spectrum::new(1000, 1000, 1000) }),
        bsdf: None,
    }
}

fn white_ball() -> ObjectData {
    ObjectData {
        shape: Some(Shape::Ball(Ball::new(500))),
        position: Some(Vec3 { x: 0, y: 0, z: 0 }),
        emission: None,
        bsdf: Some(Shader::Lambert(Spectrum::new(1000, 1000, 1000))),
    }
}

#[test]
fn emitter_list_tracks_emissive_objects() {
    let mut scene = Scene::new();
    scene.add_object(white_ball());
    scene.add_object(white_light());
    scene.add_object(white_ball());
    assert_eq!(scene.objects.len(), 3);
    assert_eq!(scene.emitters, vec![1]);
    assert!(scene.objects[1].data.emission.is_some());
    assert!(scene.objects[0].data.emission.is_none());
}

#[test]
fn unplaced_descriptors_are_skipped() {
    let mut scene = Scene::new();
    let mut no_position = white_light();
    no_position.position = None;
    scene.add_object(no_position);
    let mut no_shape = white_light();
    no_shape.shape = None;
    scene.add_object(no_shape);
    assert_eq!(scene.objects.len(), 0);
    assert_eq!(scene.emitters.len(), 0);
}

#[test]
fn validation_rejects_materials_without_emitters() {
    let mut scene = Scene::new();
    scene.add_object(white_ball());
    assert_eq!(scene.validate_for_rendering(), Err(SceneError::EmptyEmitterList));
}

#[test]
fn validation_accepts_an_emitter_or_a_material_free_scene() {
    let mut lit = Scene::new();
    lit.add_object(white_ball());
    lit.add_object(white_light());
    assert_eq!(lit.validate_for_rendering(), Ok(()));

    let mut lights_only = Scene::new();
    lights_only.add_object(white_light());
    assert_eq!(lights_only.validate_for_rendering(), Ok(()));

    let empty = Scene::new();
    assert_eq!(empty.validate_for_rendering(), Ok(()));
}

#[test]
fn pick_emitter_returns_an_emissive_index() {
    let mut scene = Scene::new();
    scene.add_object(white_ball());
    scene.add_object(white_light());
    scene.add_object(white_light());
    let first = scene.pick_emitter(0);
    let second = scene.pick_emitter(1);
    assert_eq!((first, second), (1, 2));
    assert!(scene.objects[first].data.emission.is_some());
}

#[test]
fn collision_phase_freezes_the_scene() {
    let mut scene = Scene::new();
    assert!(!scene.finalized);
    scene.add_object(white_light());
    scene.perform_collision_phase();
    assert!(scene.finalized);
    assert_eq!(scene.objects.len(), 1);
}

#[test]
fn scene_data_builds_the_scene_in_order() {
    let mut data = SceneData { camera: None, objects: Vec::new() };
    data.add_object(white_ball());
    let mut unplaceable = white_ball();
    unplaceable.position = None;
    data.add_object(unplaceable);
    data.add_object(white_light());
    let scene = data.to_scene();
    assert_eq!(scene.objects.len(), 2);
    assert!(scene.objects[0].data.bsdf.is_some());
    assert!(scene.objects[1].data.emission.is_some());
    assert_eq!(scene.emitters, vec![1]);
    assert!(!scene.finalized);
}

#[test]
fn to_world_data_builds_the_material() {
    let data = white_ball().to_world_data();
    assert!(data.bsdf.is_some());
    assert!(data.emission.is_none());
    let light = white_light().to_world_data();
    assert!(light.bsdf.is_none());
    assert_eq!(light.emission.unwrap().intensity, 100_000);
}

#[test]
fn metaball_bounding_box_pads_the_extreme_points() {
    let blob = Metaball::new(
        vec![
            Vec3 { x: -500, y: 0, z: 2000 },
            Vec3 { x: 1500, y: -300, z: 0 },
            Vec3 { x: 0, y: 800, z: -100 },
        ],
        250,
        1000,
    );
    let (lo, hi) = blob.local_aabb();
    assert_eq!((lo.x, lo.y, lo.z), (-750, -550, -350));
    assert_eq!((hi.x, hi.y, hi.z), (1750, 1050, 2250));
}

#[test]
fn tri_mesh_accepts_only_indices_in_bounds() {
    let vertices = vec![
        Vec3 { x: 0, y: 0, z: 0 },
        Vec3 { x: 1000, y: 0, z: 0 },
        Vec3 { x: 0, y: 1000, z: 0 },
    ];
    let good = TriMesh::new(vertices.clone(), vec![Triangle { a: 0, b: 1, c: 2 }]);
    assert!(good.is_ok());
    let bad = TriMesh::new(vertices, vec![Triangle { a: 0, b: 1, c: 3 }]);
    assert_eq!(bad.unwrap_err(), MeshError::IndexOutOfBounds);
}
