use vstd::prelude::*;

verus! {

/// Shape kind tag of an object whose shape lives in the sphere collection.
pub const SHAPE_SPHERE: u32 = 0;

/// Shape kind tag of an object whose shape lives in the quad collection.
pub const SHAPE_QUAD: u32 = 1;

/// Three single-precision components, each held as its IEEE-754 bit pattern.
///
/// Records only carry these values from the scene to the GPU; they never
/// compute with them, so the bits are all that is needed.
#[derive(Clone, Copy, Debug, PartialEq, Eq, Structural, Default)]
pub struct Float3 {
    pub x: u32,
    pub y: u32,
    pub z: u32,
}

/// Four single-precision components (an RGBA color), as bit patterns.
#[derive(Clone, Copy, Debug, PartialEq, Eq, Structural, Default)]
pub struct Float4 {
    pub x: u32,
    pub y: u32,
    pub z: u32,
    pub w: u32,
}

/// A 3x3 matrix stored by columns, components as bit patterns.
#[derive(Clone, Copy, Debug, PartialEq, Eq, Structural, Default)]
pub struct Float3x3 {
    pub x_axis: Float3,
    pub y_axis: Float3,
    pub z_axis: Float3,
}

/// Per-view ray tracing settings: bounce count, sample count and sky color.
#[derive(Clone, Copy, Debug, PartialEq, Eq, Structural, Default)]
pub struct RayTracingSettings {
    pub bounces: u32,
    pub samples: u32,
    pub sky: Float3,
}

/// Marks a scene primitive as a sphere of the given radius (bit pattern).
#[derive(Clone, Copy, Debug, PartialEq, Eq, Structural, Default)]
pub struct RTSphere {
    pub radius: u32,
}

/// Marks a scene primitive as a unit quad, shaped by its transform.
#[derive(Clone, Copy, Debug, PartialEq, Eq, Structural, Default)]
pub struct RTQuad;

/// The camera as the shading program sees it: a position and a basis.
#[derive(Clone, Copy, Debug, PartialEq, Eq, Structural, Default)]
pub struct RayTraceCamera {
    pub position: Float3,
    pub forward: Float3,
    pub right: Float3,
    pub up: Float3,
}

/// Surface parameters of one object.
#[derive(Clone, Copy, Debug, PartialEq, Eq, Structural, Default)]
pub struct RayTraceMaterial {
    pub color: Float4,
    pub emissive: Float4,
    pub roughness: u32,
    pub metallic: u32,
    pub diffuse_transmission: u32,
    pub specular_transmission: u32,
    pub ior: u32,
    pub double_sided: u32,
}

/// The unit the shading program iterates over: which collection holds the
/// shape (`shape_type`), at which slot, and the slot of its material.
#[derive(Clone, Copy, Debug, PartialEq, Eq, Structural, Default)]
pub struct RayTraceObject {
    pub shape_type: u32,
    pub shape_index: i32,
    pub material_index: i32,
}

/// Reference to an emissive object, by its slot in the object collection.
#[derive(Clone, Copy, Debug, PartialEq, Eq, Structural, Default)]
pub struct RayTraceEmissive {
    pub index: i32,
}

/// Sphere geometry: center and radius.
#[derive(Clone, Copy, Debug, PartialEq, Eq, Structural, Default)]
pub struct RayTraceSphere {
    pub position: Float3,
    pub radius: u32,
}

/// Quad geometry: center and the model basis without translation.
#[derive(Clone, Copy, Debug, PartialEq, Eq, Structural, Default)]
pub struct RayTraceQuad {
    pub position: Float3,
    pub model: Float3x3,
}

/// Runtime-sized collection of objects.
#[derive(Debug, Default)]
pub struct RayTraceObjects {
    pub data: Vec<RayTraceObject>,
}

/// Runtime-sized collection of emissive references.
#[derive(Debug, Default)]
pub struct RayTraceEmissives {
    pub data: Vec<RayTraceEmissive>,
}

/// Runtime-sized collection of spheres.
#[derive(Debug, Default)]
pub struct RayTraceSpheres {
    pub data: Vec<RayTraceSphere>,
}

/// Runtime-sized collection of quads.
#[derive(Debug, Default)]
pub struct RayTraceQuads {
    pub data: Vec<RayTraceQuad>,
}

/// Runtime-sized collection of materials.
#[derive(Debug, Default)]
pub struct RayTraceMaterials {
    pub data: Vec<RayTraceMaterial>,
}

} // verus!

verus! {

impl Float3 {
    pub open spec fn zero_spec() -> Float3 {
        Float3 { x: 0, y: 0, z: 0 }
    }

    /// The origin (all components +0.0).
    pub fn zero() -> (r: Float3)
        ensures
            r == Float3::zero_spec(),
    {
        Float3 { x: 0, y: 0, z: 0 }
    }
}

impl RayTraceCamera {
    pub open spec fn default_spec() -> RayTraceCamera {
        RayTraceCamera {
            position: Float3::zero_spec(),
            forward: Float3::zero_spec(),
            right: Float3::zero_spec(),
            up: Float3::zero_spec(),
        }
    }

    /// The camera record before any camera was extracted: all zero.
    pub fn zero() -> (r: RayTraceCamera)
        ensures
            r == RayTraceCamera::default_spec(),
    {
        RayTraceCamera {
            position: Float3::zero(),
            forward: Float3::zero(),
            right: Float3::zero(),
            up: Float3::zero(),
        }
    }
}

} // verus!
