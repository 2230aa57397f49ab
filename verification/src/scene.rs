//! The scene: a dense arena of placed objects, the derived emitter list,
//! and the build lifecycle.
//!
//! Objects are added during construction; one collision phase then freezes
//! the scene, after which it is read-only and shared by every sampling
//! task.  The emitter list is an index list into the arena and is kept
//! exactly in step with it: an index is listed if and only if the object it
//! names carries emission.  Ray queries against the built scene are
//! answered by the collision pipeline in the shell; the integrator consumes
//! them through the object indices this module validates.

use vstd::prelude::*;
use crate::camera::{Camera, CameraBuilder};
use crate::math::{Vec2, Vec3};
use crate::shaders::{Bsdf, Shader};
use crate::shapes::Shape;
use crate::spectrum::Spectrum;

verus! {

/// Light emitted by an object: a scalar intensity (thousandths) and a color.
#[derive(Clone, Copy, Debug, PartialEq, Eq, Structural)]
pub struct Emission {
    pub intensity: i64,
    pub color: Spectrum,
}

/// An object as described to the scene: independently optional shape,
/// placement (a translation, in thousandths), emission and material.  All
/// four emission/material combinations are valid: an object with emission
/// and no material is a pure light, one with both is an emissive surface.
#[derive(Clone, Debug)]
pub struct ObjectData {
    pub shape: Option<Shape>,
    pub position: Option<Vec3>,
    pub emission: Option<Emission>,
    pub bsdf: Option<Shader>,
}

/// The per-object data the integrator reads after the build: emission as
/// described, and the material built from its descriptor.
#[derive(Clone, Copy, Debug)]
pub struct WorldObjectData {
    pub emission: Option<Emission>,
    pub bsdf: Option<Bsdf>,
}

/// What `to_world_data` yields: the emission carried over and the material
/// descriptor built.
pub open spec fn world_data_of(o: ObjectData) -> WorldObjectData {
    WorldObjectData {
        emission: o.emission,
        bsdf: match o.bsdf {
            Some(shader) => Some(shader.bsdf_spec()),
            None => None,
        },
    }
}

impl ObjectData {
    /// The object's descriptor admits placement in a scene.
    pub open spec fn payload_wf(self) -> bool {
        &&& (self.shape matches Some(s) ==> s.wf())
        &&& (self.position matches Some(p) ==> p.bounded())
    }

    /// An object can be placed only when it has both a shape and a position.
    pub open spec fn placeable(self) -> bool {
        self.shape is Some && self.position is Some
    }

    pub fn to_world_data(self) -> (r: WorldObjectData)
        ensures
            r == world_data_of(self),
    {
        WorldObjectData {
            emission: self.emission,
            bsdf: match self.bsdf {
                Some(shader) => Some(shader.to_bsdf()),
                None => None,
            },
        }
    }
}

/// A placed object in the built scene.
#[derive(Clone, Debug)]
pub struct WorldObject {
    pub shape: Shape,
    pub position: Vec3,
    pub data: WorldObjectData,
}

/// The placed object a placeable descriptor builds.
pub open spec fn world_of(o: ObjectData) -> WorldObject {
    WorldObject {
        shape: match o.shape {
            Some(s) => s,
            None => Shape::Ball(crate::shapes::Ball { radius: 0 }),
        },
        position: match o.position {
            Some(p) => p,
            None => Vec3 { x: 0, y: 0, z: 0 },
        },
        data: world_data_of(o),
    }
}

/// The scene a descriptor list builds: descriptors without both a shape and
/// a position are skipped, the rest are placed in order.
pub open spec fn placed_objects(s: Seq<ObjectData>) -> Seq<WorldObject>
    decreases s.len(),
{
    if s.len() == 0 {
        Seq::empty()
    } else if s.last().placeable() {
        placed_objects(s.drop_last()).push(world_of(s.last()))
    } else {
        placed_objects(s.drop_last())
    }
}

/// A scene configuration rejected before rendering begins.
#[derive(Clone, Copy, Debug, PartialEq, Eq, Structural)]
pub enum SceneError {
    /// Some material would perform light sampling, but the scene has no
    /// emitter to sample.
    EmptyEmitterList,
}

/// The built scene.
pub struct Scene {
    pub camera: Camera,
    pub objects: Vec<WorldObject>,
    pub emitters: Vec<usize>,
    pub finalized: bool,
}

impl Scene {
    /// The emitter list is exactly the set of indices of emissive objects:
    /// every listed index names an emissive object, and every emissive
    /// object's index is listed.
    pub open spec fn emitters_wf(self) -> bool {
        &&& forall|i: int|
            0 <= i < self.emitters@.len() ==> #[trigger] self.emitters@[i]
                < self.objects@.len() && self.objects@[self.emitters@[i] as int].data.emission
                is Some
        &&& forall|j: int|
            0 <= j < self.objects@.len() && (#[trigger] self.objects@[j]).data.emission is Some
                ==> self.emitters@.contains(j as usize)
    }

    /// Every placed object's geometry is within range.
    pub open spec fn objects_wf(self) -> bool {
        forall|j: int|
            0 <= j < self.objects@.len() ==> (#[trigger] self.objects@[j]).shape.wf()
                && self.objects@[j].position.bounded()
    }

    pub open spec fn wf(self) -> bool {
        self.emitters_wf() && self.objects_wf()
    }

    /// An empty scene with the default camera.
    pub fn new() -> (s: Scene)
        ensures
            s.wf(),
            !s.finalized,
            s.objects@.len() == 0,
            s.emitters@.len() == 0,
            s.camera.resolution_x == 800 && s.camera.resolution_y == 600,
            s.camera.screen_dimensions == (Vec2 { x: 800, y: 600 }),
    {
        Scene {
            camera: CameraBuilder::new()
                .screen_dimensions(Vec2 { x: 800, y: 600 })
                .resolution(800, 600)
                .build(),
            objects: Vec::new(),
            emitters: Vec::new(),
            finalized: false,
        }
    }

    pub fn set_camera(&mut self, camera: Camera)
        ensures
            final(self).camera == camera,
            final(self).objects@ == old(self).objects@,
            final(self).emitters@ == old(self).emitters@,
            final(self).finalized == old(self).finalized,
    {
        self.camera = camera;
    }

    /// Places one described object.  A descriptor without both a position
    /// and a shape is skipped, as in the scene description format; a placed
    /// emissive object's index is recorded in the emitter list.
    pub fn add_object(&mut self, data: ObjectData)
        requires
            old(self).wf(),
            !old(self).finalized,
            data.payload_wf(),
            old(self).objects@.len() < 1_000_000_000,
        ensures
            final(self).wf(),
            final(self).camera == old(self).camera,
            final(self).finalized == old(self).finalized,
            data.placeable() ==> {
                &&& final(self).objects@ == old(self).objects@.push(world_of(data))
                &&& (data.emission is Some ==> final(self).emitters@
                    == old(self).emitters@.push(old(self).objects@.len() as usize))
                &&& (data.emission is None ==> final(self).emitters@ == old(self).emitters@)
            },
            !data.placeable() ==> final(self).objects@ == old(self).objects@
                && final(self).emitters@ == old(self).emitters@,
    {
        let ObjectData { shape, position, emission, bsdf } = data;
        let world_data = ObjectData { shape: None, position: None, emission, bsdf }
            .to_world_data();
        match (position, shape) {
            (Some(pos), Some(s)) => {
                let is_emitter = matches!(world_data.emission, Some(_));
                let index = self.objects.len();
                self.objects.push(WorldObject { shape: s, position: pos, data: world_data });
                if is_emitter {
                    self.emitters.push(index);
                }
                proof {
                    assert(final(self).objects@.last() == world_of(data));
                    assert forall|j: int|
                        0 <= j < final(self).objects@.len()
                            && (#[trigger] final(self).objects@[j]).data.emission is Some
                        implies final(self).emitters@.contains(j as usize) by {
                        if j < old(self).objects@.len() {
                            assert(old(self).emitters@.contains(j as usize));
                            let w = choose|w: int|
                                0 <= w < old(self).emitters@.len() && old(self).emitters@[w] == (
                                j as usize);
                            assert(final(self).emitters@[w] == j as usize);
                        } else {
                            assert(is_emitter);
                            assert(final(self).emitters@.last() == index);
                        }
                    }
                }
            },
            _ => {
                proof {
                    assert(!data.placeable());
                }
            },
        }
    }

    /// Freezes the scene after the collision structures' build pass; the
    /// broad- and narrow-phase work itself is the collision pipeline's.
    pub fn perform_collision_phase(&mut self)
        ensures
            final(self).finalized,
            final(self).camera == old(self).camera,
            final(self).objects@ == old(self).objects@,
            final(self).emitters@ == old(self).emitters@,
    {
        self.finalized = true;
    }

    /// Checks, before any rendering, the precondition light sampling relies
    /// on: a scene in which some object carries a material must have at
    /// least one emitter.  Accepted exactly when the scene has an emitter
    /// or no object has a material.
    pub fn validate_for_rendering(&self) -> (r: Result<(), SceneError>)
        requires
            self.wf(),
        ensures
            r is Ok <==> (self.emitters@.len() > 0 || forall|j: int|
                0 <= j < self.objects@.len() ==> (#[trigger] self.objects@[j]).data.bsdf
                    is None),
    {
        if self.emitters.len() > 0 {
            return Ok(());
        }
        let mut j: usize = 0;
        while j < self.objects.len()
            invariant
                0 <= j <= self.objects@.len(),
                self.emitters@.len() == 0,
                forall|i: int| 0 <= i < j ==> (#[trigger] self.objects@[i]).data.bsdf is None,
            decreases self.objects@.len() - j,
        {
            match self.objects[j].data.bsdf {
                Some(_) => {
                    assert(!(self.objects@[j as int].data.bsdf is None));
                    return Err(SceneError::EmptyEmitterList);
                },
                None => {
                },
            }
            j = j + 1;
        }
        Ok(())
    }

    /// The emitter the uniform draw `k` selects: each of the `|emitters|`
    /// listed indices is equally likely when `k` is uniform.  The returned
    /// index always names an emissive object.
    pub fn pick_emitter(&self, k: usize) -> (r: usize)
        requires
            self.wf(),
            k < self.emitters@.len(),
        ensures
            r == self.emitters@[k as int],
            r < self.objects@.len(),
            self.objects@[r as int].data.emission is Some,
    {
        self.emitters[k]
    }
}

/// A scene description: camera and object descriptors, before the build.
pub struct SceneData {
    pub camera: Option<Camera>,
    pub objects: Vec<ObjectData>,
}

impl SceneData {
    pub fn add_object(&mut self, object: ObjectData)
        ensures
            final(self).objects@ == old(self).objects@.push(object),
            final(self).camera == old(self).camera,
    {
        self.objects.push(object);
    }

    /// Builds the scene: the described camera if any, every placeable
    /// object placed in order, and the emitter list derived from them.
    pub fn to_scene(self) -> (s: Scene)
        requires
            forall|i: int|
                0 <= i < self.objects@.len() ==> (#[trigger] self.objects@[i]).payload_wf(),
            self.objects@.len() < 1_000_000_000,
        ensures
            s.wf(),
            !s.finalized,
            s.objects@ == placed_objects(self.objects@),
            self.camera matches Some(c) ==> s.camera == c,
    {
        let SceneData { camera, objects } = self;
        let mut scene = Scene::new();
        match camera {
            Some(c) => scene.set_camera(c),
            None => (),
        }
        let ghost all = objects@;
        let mut objects = objects;
        let mut i: usize = 0;
        proof {
            assert(all.take(0) =~= Seq::<ObjectData>::empty());
            assert(objects@ =~= all.skip(0));
        }
        while objects.len() > 0
            invariant
                0 <= i <= all.len(),
                objects@ == all.skip(i as int),
                scene.wf(),
                !scene.finalized,
                scene.objects@ == placed_objects(all.take(i as int)),
                scene.objects@.len() <= i,
                all.len() < 1_000_000_000,
                forall|j: int| 0 <= j < all.len() ==> (#[trigger] all[j]).payload_wf(),
                self.camera matches Some(c) ==> scene.camera == c,
            decreases objects@.len(),
        {
            let object = objects.remove(0);
            proof {
                assert(object == all[i as int]);
            }
            scene.add_object(object);
            proof {
                assert(all.take(i + 1).drop_last() =~= all.take(i as int));
                assert(all.take(i + 1).last() == all[i as int]);
                assert(objects@ =~= all.skip(i + 1));
            }
            i = i + 1;
        }
        proof {
            assert(all.take(all.len() as int) =~= all);
        }
        scene
    }
}

} // verus!
