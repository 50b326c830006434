use bevy_ray_tracing::buffers::{prepare_ray_trace, BufferWrite, GlobalRayTraceMeta};
use bevy_ray_tracing::extract::{
    extract_ray_trace, extract_scene, ExtractError, QuadInstance, SphereInstance,
};
use bevy_ray_tracing::types::{
    Float3, Float3x3, Float4, RTQuad, RTSphere, RayTraceCamera, RayTraceMaterial, RayTraceObject,
    RayTraceQuad, RayTraceSphere, SHAPE_QUAD, SHAPE_SPHERE,
};

fn f3(x: f32, y: f32, z: f32) -> Float3 {
    Float3 { x: x.to_bits(), y: y.to_bits(), z: z.to_bits() }
}

fn f4(x: f32, y: f32, z: f32, w: f32) -> Float4 {
    Float4 { x: x.to_bits(), y: y.to_bits(), z: z.to_bits(), w: w.to_bits() }
}

fn white() -> RayTraceMaterial {
    RayTraceMaterial {
        color: f4(1.0, 1.0, 1.0, 1.0),
        emissive: f4(0.0, 0.0, 0.0, 1.0),
        roughness: 0.5f32.to_bits(),
        metallic: 0.0f32.to_bits(),
        diffuse_transmission: 0.0f32.to_bits(),
        specular_transmission: 0.0f32.to_bits(),
        ior: 1.5f32.to_bits(),
        double_sided: 0,
    }
}

fn red() -> RayTraceMaterial {
    RayTraceMaterial { color: f4(1.0, 0.0, 0.0, 1.0), double_sided: 1, ..white() }
}

fn sphere(radius: f32, at: Float3, material: Option<RayTraceMaterial>) -> SphereInstance {
    SphereInstance { sphere: RTSphere { radius: radius.to_bits() }, position: at, material }
}

fn identity() -> Float3x3 {
    Float3x3 { x_axis: f3(1.0, 0.0, 0.0), y_axis: f3(0.0, 1.0, 0.0), z_axis: f3(0.0, 0.0, 1.0) }
}

fn quad(at: Float3, material: Option<RayTraceMaterial>) -> QuadInstance {
    QuadInstance { quad: RTQuad, position: at, model: identity(), material }
}

fn camera() -> RayTraceCamera {
    RayTraceCamera {
        position: f3(0.0, 0.0, 5.0),
        forward: f3(0.0, 0.0, -1.0),
        right: f3(1.0, 0.0, 0.0),
        up: f3(0.0, 1.0, 0.0),
    }
}

#[test]
fn scenario_single_white_sphere() {
    let spheres = vec![sphere(0.25, f3(0.0, 0.0, 0.0), Some(white()))];
    let snap = extract_scene(&spheres, &vec![]).unwrap();
    assert_eq!(
        snap.objects.data,
        vec![RayTraceObject { shape_type: SHAPE_SPHERE, shape_index: 0, material_index: 0 }]
    );
    assert_eq!(
        snap.spheres.data,
        vec![RayTraceSphere { position: f3(0.0, 0.0, 0.0), radius: 0.25f32.to_bits() }]
    );
    assert_eq!(snap.materials.data, vec![white()]);
    assert!(snap.quads.data.is_empty());
}

#[test]
fn scenario_shared_material_not_deduplicated() {
    let m = red();
    let quads = vec![quad(f3(1.0, 0.0, 0.0), Some(m)), quad(f3(-1.0, 0.0, 0.0), Some(m))];
    let snap = extract_scene(&vec![], &quads).unwrap();
    assert_eq!(snap.materials.data.len(), 2);
    assert_eq!(snap.materials.data[0], snap.materials.data[1]);
    assert_eq!(snap.materials.data[0], m);
    assert_eq!(
        snap.objects.data,
        vec![
            RayTraceObject { shape_type: SHAPE_QUAD, shape_index: 0, material_index: 0 },
            RayTraceObject { shape_type: SHAPE_QUAD, shape_index: 1, material_index: 1 },
        ]
    );
    assert_eq!(
        snap.quads.data,
        vec![
            RayTraceQuad { position: f3(1.0, 0.0, 0.0), model: identity() },
            RayTraceQuad { position: f3(-1.0, 0.0, 0.0), model: identity() },
        ]
    );
}

#[test]
fn mixed_scene_slots_are_consistent() {
    let spheres = vec![
        sphere(1.0, f3(0.0, 1.0, 0.0), Some(white())),
        sphere(2.0, f3(0.0, 2.0, 0.0), Some(red())),
    ];
    let quads = vec![quad(f3(0.0, 0.0, 0.0), Some(red())), quad(f3(3.0, 0.0, 0.0), Some(white()))];
    let snap = extract_scene(&spheres, &quads).unwrap();
    let objects = &snap.objects.data;
    assert_eq!(objects.len(), snap.spheres.data.len() + snap.quads.data.len());
    assert_eq!(snap.materials.data.len(), objects.len());
    for o in objects {
        let bound = if o.shape_type == SHAPE_SPHERE { snap.spheres.data.len() } else { snap.quads.data.len() };
        assert!(0 <= o.shape_index && (o.shape_index as usize) < bound);
        assert!(0 <= o.material_index && (o.material_index as usize) < snap.materials.data.len());
    }
    assert_eq!(objects[2], RayTraceObject { shape_type: SHAPE_QUAD, shape_index: 0, material_index: 2 });
    assert_eq!(objects[3], RayTraceObject { shape_type: SHAPE_QUAD, shape_index: 1, material_index: 3 });
    assert_eq!(snap.materials.data, vec![white(), red(), red(), white()]);
    assert_eq!(snap.spheres.data[1].radius, 2.0f32.to_bits());
}

#[test]
fn empty_scene_gives_empty_collections_that_bind() {
    let mut meta = GlobalRayTraceMeta::from_world();
    assert!(!meta.draw_ready());
    extract_ray_trace(None, &vec![], &vec![], &mut meta).unwrap();
    assert!(meta.objects.staged().is_empty());
    assert!(meta.spheres.staged().is_empty());
    assert!(meta.quads.staged().is_empty());
    assert!(meta.materials.staged().is_empty());
    prepare_ray_trace(&mut meta);
    assert!(meta.draw_ready());
    assert_eq!(meta.spheres.uploaded(), Some(vec![]));
    assert_eq!(meta.camera.uploaded(), Some(vec![RayTraceCamera::zero()]));
}

#[test]
fn unresolved_sphere_material_is_reported() {
    let spheres = vec![
        sphere(1.0, f3(0.0, 0.0, 0.0), Some(white())),
        sphere(1.0, f3(0.0, 0.0, 0.0), None),
        sphere(1.0, f3(0.0, 0.0, 0.0), None),
    ];
    let quads = vec![quad(f3(0.0, 0.0, 0.0), None)];
    assert_eq!(extract_scene(&spheres, &quads).err(), Some(ExtractError::UnresolvedSphereMaterial(1)));
}

#[test]
fn unresolved_quad_material_is_reported_and_stages_nothing() {
    let spheres = vec![sphere(1.0, f3(0.0, 0.0, 0.0), Some(white()))];
    let quads = vec![quad(f3(0.0, 0.0, 0.0), Some(red())), quad(f3(0.0, 0.0, 0.0), None)];
    let mut meta = GlobalRayTraceMeta::from_world();
    let r = extract_ray_trace(Some(camera()), &spheres, &quads, &mut meta);
    assert_eq!(r, Err(ExtractError::UnresolvedQuadMaterial(1)));
    assert_eq!(meta.camera.staged(), &vec![RayTraceCamera::zero()]);
    assert!(meta.objects.staged().is_empty());
}

#[test]
fn missing_camera_keeps_previous_camera() {
    let mut meta = GlobalRayTraceMeta::from_world();
    extract_ray_trace(Some(camera()), &vec![], &vec![], &mut meta).unwrap();
    extract_ray_trace(None, &vec![], &vec![], &mut meta).unwrap();
    assert_eq!(meta.camera.staged(), &vec![camera()]);
}

#[test]
fn repeated_frame_is_idempotent() {
    let spheres = vec![sphere(0.5, f3(1.0, 2.0, 3.0), Some(white()))];
    let quads = vec![quad(f3(0.0, -1.0, 0.0), Some(red()))];
    let mut meta = GlobalRayTraceMeta::from_world();
    extract_ray_trace(Some(camera()), &spheres, &quads, &mut meta).unwrap();
    let first = prepare_ray_trace(&mut meta);
    assert_eq!(first.objects, BufferWrite::Reallocate(2));
    assert_eq!(first.camera, BufferWrite::Reallocate(1));
    let objects = meta.objects.uploaded();
    let materials = meta.materials.uploaded();
    let spheres_up = meta.spheres.uploaded();
    let quads_up = meta.quads.uploaded();
    let camera_up = meta.camera.uploaded();
    extract_ray_trace(Some(camera()), &spheres, &quads, &mut meta).unwrap();
    let second = prepare_ray_trace(&mut meta);
    assert_eq!(second.objects, BufferWrite::InPlace);
    assert_eq!(second.materials, BufferWrite::InPlace);
    assert_eq!(meta.objects.uploaded(), objects);
    assert_eq!(meta.materials.uploaded(), materials);
    assert_eq!(meta.spheres.uploaded(), spheres_up);
    assert_eq!(meta.quads.uploaded(), quads_up);
    assert_eq!(meta.camera.uploaded(), camera_up);
    assert_eq!(meta.objects.capacity(), 2);
}

#[test]
fn buffers_grow_and_never_shrink() {
    let big = vec![
        sphere(1.0, f3(0.0, 0.0, 0.0), Some(white())),
        sphere(1.0, f3(1.0, 0.0, 0.0), Some(white())),
        sphere(1.0, f3(2.0, 0.0, 0.0), Some(white())),
    ];
    let mut meta = GlobalRayTraceMeta::from_world();
    extract_ray_trace(None, &big, &vec![], &mut meta).unwrap();
    assert_eq!(prepare_ray_trace(&mut meta).spheres, BufferWrite::Reallocate(3));
    extract_ray_trace(None, &big[..1].to_vec(), &vec![], &mut meta).unwrap();
    assert_eq!(prepare_ray_trace(&mut meta).spheres, BufferWrite::InPlace);
    assert_eq!(meta.spheres.capacity(), 3);
    assert_eq!(meta.spheres.uploaded().unwrap().len(), 1);
    assert!(meta.emissives.uploaded().is_none());
}
