use vstd::prelude::*;

use crate::buffers::{GlobalRayTraceMeta, MetaModel};
use crate::types::{
    Float3, RayTraceCamera, Float3x3, RTQuad, RTSphere, RayTraceMaterial, RayTraceMaterials, RayTraceObject,
    RayTraceObjects, RayTraceQuad, RayTraceQuads, RayTraceSphere, RayTraceSpheres, SHAPE_QUAD,
    SHAPE_SPHERE,
};

verus! {

/// A sphere of the scene: its marker, its world position, and its material
/// as looked up from the scene's material handle (`None` if the handle does
/// not resolve).
#[derive(Clone, Copy, Debug)]
pub struct SphereInstance {
    pub sphere: RTSphere,
    pub position: Float3,
    pub material: Option<RayTraceMaterial>,
}

/// A quad of the scene: its marker, its world position, its model basis,
/// and its looked-up material.
#[derive(Clone, Copy, Debug)]
pub struct QuadInstance {
    pub quad: RTQuad,
    pub position: Float3,
    pub model: Float3x3,
    pub material: Option<RayTraceMaterial>,
}

/// A primitive names a material that the scene cannot resolve.
#[derive(Clone, Copy, Debug, PartialEq, Eq, Structural)]
pub enum ExtractError {
    /// The sphere at this position of the sphere sequence.
    UnresolvedSphereMaterial(usize),
    /// The quad at this position of the quad sequence.
    UnresolvedQuadMaterial(usize),
}

/// The flat records of one frame, with mutually consistent slot indices.
#[derive(Debug)]
pub struct SceneSnapshot {
    pub objects: RayTraceObjects,
    pub spheres: RayTraceSpheres,
    pub quads: RayTraceQuads,
    pub materials: RayTraceMaterials,
}

pub open spec fn sphere_record(s: SphereInstance) -> RayTraceSphere {
    RayTraceSphere { position: s.position, radius: s.sphere.radius }
}

pub open spec fn quad_record(q: QuadInstance) -> RayTraceQuad {
    RayTraceQuad { position: q.position, model: q.model }
}

pub open spec fn object_record(kind: u32, slot: int, material: int) -> RayTraceObject {
    RayTraceObject { shape_type: kind, shape_index: slot as i32, material_index: material as i32 }
}

/// Every slot index of a frame fits the signed 32-bit fields of the records.
pub open spec fn slots_fit(spheres: Seq<SphereInstance>, quads: Seq<QuadInstance>) -> bool {
    spheres.len() + quads.len() <= i32::MAX
}

pub open spec fn all_resolved(spheres: Seq<SphereInstance>, quads: Seq<QuadInstance>) -> bool {
    &&& forall|i: int| 0 <= i < spheres.len() ==> (#[trigger] spheres[i]).material is Some
    &&& forall|j: int| 0 <= j < quads.len() ==> (#[trigger] quads[j]).material is Some
}

/// `i` is the first sphere whose material does not resolve.
pub open spec fn first_unresolved_sphere(spheres: Seq<SphereInstance>, i: int) -> bool {
    &&& 0 <= i < spheres.len()
    &&& spheres[i].material is None
    &&& forall|k: int| 0 <= k < i ==> (#[trigger] spheres[k]).material is Some
}

/// All spheres resolve and `j` is the first quad whose material does not.
pub open spec fn first_unresolved_quad(
    spheres: Seq<SphereInstance>,
    quads: Seq<QuadInstance>,
    j: int,
) -> bool {
    &&& forall|i: int| 0 <= i < spheres.len() ==> (#[trigger] spheres[i]).material is Some
    &&& 0 <= j < quads.len()
    &&& quads[j].material is None
    &&& forall|k: int| 0 <= k < j ==> (#[trigger] quads[k]).material is Some
}

/// One material record per primitive, spheres first, in scene order; two
/// primitives that share a material still get a record each.
pub open spec fn spec_materials(
    spheres: Seq<SphereInstance>,
    quads: Seq<QuadInstance>,
) -> Seq<RayTraceMaterial> {
    Seq::new(spheres.len(), |i: int| spheres[i].material.unwrap()) + Seq::new(
        quads.len(),
        |j: int| quads[j].material.unwrap(),
    )
}

/// One object per primitive: sphere `i` is object `i` with material slot
/// `i`; quad `j` follows all spheres, with material slot `len(spheres) + j`.
pub open spec fn spec_objects(
    spheres: Seq<SphereInstance>,
    quads: Seq<QuadInstance>,
) -> Seq<RayTraceObject> {
    Seq::new(spheres.len(), |i: int| object_record(SHAPE_SPHERE, i, i)) + Seq::new(
        quads.len(),
        |j: int| object_record(SHAPE_QUAD, j, spheres.len() + j),
    )
}

pub open spec fn spec_spheres(spheres: Seq<SphereInstance>) -> Seq<RayTraceSphere> {
    Seq::new(spheres.len(), |i: int| sphere_record(spheres[i]))
}

pub open spec fn spec_quads(quads: Seq<QuadInstance>) -> Seq<RayTraceQuad> {
    Seq::new(quads.len(), |j: int| quad_record(quads[j]))
}

/// `s` holds exactly the records that the given scene extracts to.
pub open spec fn snapshot_of(
    s: SceneSnapshot,
    spheres: Seq<SphereInstance>,
    quads: Seq<QuadInstance>,
) -> bool {
    &&& s.objects.data@ == spec_objects(spheres, quads)
    &&& s.spheres.data@ == spec_spheres(spheres)
    &&& s.quads.data@ == spec_quads(quads)
    &&& s.materials.data@ == spec_materials(spheres, quads)
}

/// Extracts the flat records of one frame from the scene's spheres and quads.
///
/// Spheres are visited first, then quads, each in sequence order. Each
/// primitive appends its material, then an object that points at its shape
/// slot and that material's slot, then its shape record. The first primitive
/// whose material does not resolve makes the whole extraction fail.
pub fn extract_scene(spheres: &Vec<SphereInstance>, quads: &Vec<QuadInstance>) -> (r: Result<
    SceneSnapshot,
    ExtractError,
>)
    requires
        slots_fit(spheres@, quads@),
    ensures
        r is Ok <==> all_resolved(spheres@, quads@),
        r matches Ok(s) ==> snapshot_of(s, spheres@, quads@),
        r matches Err(ExtractError::UnresolvedSphereMaterial(i)) ==> first_unresolved_sphere(
            spheres@,
            i as int,
        ),
        r matches Err(ExtractError::UnresolvedQuadMaterial(j)) ==> first_unresolved_quad(
            spheres@,
            quads@,
            j as int,
        ),
{
    let mut objects: Vec<RayTraceObject> = Vec::new();
    let mut materials: Vec<RayTraceMaterial> = Vec::new();
    let mut sphere_records: Vec<RayTraceSphere> = Vec::new();
    let mut i: usize = 0;
    while i < spheres.len()
        invariant
            i <= spheres.len(),
            slots_fit(spheres@, quads@),
            forall|k: int| 0 <= k < i ==> (#[trigger] spheres@[k]).material is Some,
            materials@ =~= Seq::new(i as nat, |k: int| spheres@[k].material.unwrap()),
            objects@ =~= Seq::new(i as nat, |k: int| object_record(SHAPE_SPHERE, k, k)),
            sphere_records@ =~= Seq::new(i as nat, |k: int| sphere_record(spheres@[k])),
        decreases spheres.len() - i,
    {
        let s = spheres[i];
        match s.material {
            None => {
                return Err(ExtractError::UnresolvedSphereMaterial(i));
            },
            Some(m) => {
                let matindex = materials.len();
                materials.push(m);
                objects.push(
                    RayTraceObject {
                        shape_type: SHAPE_SPHERE,
                        shape_index: i as i32,
                        material_index: matindex as i32,
                    },
                );
                sphere_records.push(RayTraceSphere { position: s.position, radius: s.sphere.radius });
            },
        }
        i += 1;
    }
    let n_spheres = spheres.len();
    let mut quad_records: Vec<RayTraceQuad> = Vec::new();
    let mut j: usize = 0;
    while j < quads.len()
        invariant
            j <= quads.len(),
            n_spheres == spheres.len(),
            slots_fit(spheres@, quads@),
            forall|k: int| 0 <= k < spheres.len() ==> (#[trigger] spheres@[k]).material is Some,
            forall|k: int| 0 <= k < j ==> (#[trigger] quads@[k]).material is Some,
            materials@ =~= Seq::new(spheres@.len(), |k: int| spheres@[k].material.unwrap())
                + Seq::new(j as nat, |k: int| quads@[k].material.unwrap()),
            objects@ =~= Seq::new(spheres@.len(), |k: int| object_record(SHAPE_SPHERE, k, k))
                + Seq::new(j as nat, |k: int| object_record(SHAPE_QUAD, k, spheres@.len() + k)),
            sphere_records@ =~= spec_spheres(spheres@),
            quad_records@ =~= Seq::new(j as nat, |k: int| quad_record(quads@[k])),
        decreases quads.len() - j,
    {
        let q = quads[j];
        match q.material {
            None => {
                return Err(ExtractError::UnresolvedQuadMaterial(j));
            },
            Some(m) => {
                let matindex = materials.len();
                materials.push(m);
                objects.push(
                    RayTraceObject {
                        shape_type: SHAPE_QUAD,
                        shape_index: j as i32,
                        material_index: matindex as i32,
                    },
                );
                quad_records.push(RayTraceQuad { position: q.position, model: q.model });
            },
        }
        j += 1;
    }
    Ok(
        SceneSnapshot {
            objects: RayTraceObjects { data: objects },
            spheres: RayTraceSpheres { data: sphere_records },
            quads: RayTraceQuads { data: quad_records },
            materials: RayTraceMaterials { data: materials },
        },
    )
}

/// The buffers after one extraction stages the given scene: the camera is
/// replaced only when one is present, the four collections always.
pub open spec fn staged_frame(
    m: MetaModel,
    camera: Option<RayTraceCamera>,
    spheres: Seq<SphereInstance>,
    quads: Seq<QuadInstance>,
) -> MetaModel {
    MetaModel {
        camera: match camera {
            Some(c) => m.camera.with_staged(seq![c]),
            None => m.camera,
        },
        objects: m.objects.with_staged(spec_objects(spheres, quads)),
        emissives: m.emissives,
        spheres: m.spheres.with_staged(spec_spheres(spheres)),
        quads: m.quads.with_staged(spec_quads(quads)),
        materials: m.materials.with_staged(spec_materials(spheres, quads)),
    }
}

/// One frame of extraction followed by one upload.
pub open spec fn frame(
    m: MetaModel,
    camera: Option<RayTraceCamera>,
    spheres: Seq<SphereInstance>,
    quads: Seq<QuadInstance>,
) -> MetaModel {
    staged_frame(m, camera, spheres, quads).synced()
}

/// Extracts the scene and stages the result in `meta`.
///
/// On an unresolved material nothing is staged, not even the camera.
pub fn extract_ray_trace(
    camera: Option<RayTraceCamera>,
    spheres: &Vec<SphereInstance>,
    quads: &Vec<QuadInstance>,
    meta: &mut GlobalRayTraceMeta,
) -> (r: Result<(), ExtractError>)
    requires
        slots_fit(spheres@, quads@),
    ensures
        r is Ok <==> all_resolved(spheres@, quads@),
        r is Ok ==> final(meta)@ == staged_frame(old(meta)@, camera, spheres@, quads@),
        r is Err ==> final(meta)@ == old(meta)@,
        r matches Err(ExtractError::UnresolvedSphereMaterial(i)) ==> first_unresolved_sphere(
            spheres@,
            i as int,
        ),
        r matches Err(ExtractError::UnresolvedQuadMaterial(j)) ==> first_unresolved_quad(
            spheres@,
            quads@,
            j as int,
        ),
{
    let snapshot = match extract_scene(spheres, quads) {
        Ok(s) => s,
        Err(e) => {
            return Err(e);
        },
    };
    if let Some(c) = camera {
        meta.set_camera(c);
    }
    meta.set_snapshot(snapshot);
    Ok(())
}

/// Every frame has one object per sphere and per quad, and one material per
/// object; each object's shape slot lies within the collection of its shape
/// kind and its material slot within the materials.
pub proof fn lemma_slots_consistent(spheres: Seq<SphereInstance>, quads: Seq<QuadInstance>)
    requires
        slots_fit(spheres, quads),
    ensures
        spec_objects(spheres, quads).len() == spec_spheres(spheres).len() + spec_quads(
            quads,
        ).len(),
        spec_materials(spheres, quads).len() == spec_objects(spheres, quads).len(),
        forall|k: int|
            0 <= k < spec_objects(spheres, quads).len() ==> {
                let o = #[trigger] spec_objects(spheres, quads)[k];
                &&& (o.shape_type == SHAPE_SPHERE && 0 <= o.shape_index < spec_spheres(
                    spheres,
                ).len()) || (o.shape_type == SHAPE_QUAD && 0 <= o.shape_index < spec_quads(
                    quads,
                ).len())
                &&& 0 <= o.material_index < spec_materials(spheres, quads).len()
            },
{
    let objects = spec_objects(spheres, quads);
    assert forall|k: int| 0 <= k < objects.len() implies {
        let o = #[trigger] objects[k];
        &&& (o.shape_type == SHAPE_SPHERE && 0 <= o.shape_index < spec_spheres(spheres).len())
            || (o.shape_type == SHAPE_QUAD && 0 <= o.shape_index < spec_quads(quads).len())
        &&& 0 <= o.material_index < spec_materials(spheres, quads).len()
    } by {
        if k < spheres.len() {
            assert(objects[k] == object_record(SHAPE_SPHERE, k, k));
        } else {
            assert(objects[k] == object_record(
                SHAPE_QUAD,
                k - spheres.len(),
                spheres.len() + (k - spheres.len()),
            ));
        }
    }
}

/// A scene without spheres and quads extracts to four empty collections,
/// and after the upload every buffer that the draw binds is bound, holding
/// empty contents.
pub proof fn lemma_empty_scene(m: MetaModel, camera: Option<RayTraceCamera>)
    ensures
        spec_objects(Seq::empty(), Seq::empty()).len() == 0,
        spec_spheres(Seq::empty()).len() == 0,
        spec_quads(Seq::empty()).len() == 0,
        spec_materials(Seq::empty(), Seq::empty()).len() == 0,
        frame(m, camera, Seq::empty(), Seq::empty()).draw_ready(),
        frame(m, camera, Seq::empty(), Seq::empty()).objects.uploaded == Some(
            Seq::<RayTraceObject>::empty(),
        ),
        frame(m, camera, Seq::empty(), Seq::empty()).spheres.uploaded == Some(
            Seq::<RayTraceSphere>::empty(),
        ),
        frame(m, camera, Seq::empty(), Seq::empty()).quads.uploaded == Some(
            Seq::<RayTraceQuad>::empty(),
        ),
        frame(m, camera, Seq::empty(), Seq::empty()).materials.uploaded == Some(
            Seq::<RayTraceMaterial>::empty(),
        ),
{
    assert(spec_objects(Seq::empty(), Seq::empty()) =~= Seq::empty());
    assert(spec_spheres(Seq::empty()) =~= Seq::empty());
    assert(spec_quads(Seq::empty()) =~= Seq::empty());
    assert(spec_materials(Seq::empty(), Seq::empty()) =~= Seq::empty());
}

/// Running extraction and upload a second time on an unchanged scene leaves
/// every buffer exactly as the first run left it.
pub proof fn lemma_frame_idempotent(
    m: MetaModel,
    camera: Option<RayTraceCamera>,
    spheres: Seq<SphereInstance>,
    quads: Seq<QuadInstance>,
)
    ensures
        frame(frame(m, camera, spheres, quads), camera, spheres, quads) == frame(
            m,
            camera,
            spheres,
            quads,
        ),
{
}

} // verus!
