use vstd::prelude::*;

use crate::types::{
    RayTraceCamera, RayTraceEmissive, RayTraceMaterial, RayTraceObject, RayTraceQuad,
    RayTraceSphere,
};
use crate::extract::SceneSnapshot;

verus! {

/// What a buffer holds, mathematically: the contents staged for the next
/// upload, the contents of the last upload (`None` before the first one, when
/// the buffer has no binding yet), and the element capacity of its backing
/// allocation.
pub struct BufferModel<T> {
    pub staged: Seq<T>,
    pub uploaded: Option<Seq<T>>,
    pub capacity: nat,
}

impl<T> BufferModel<T> {
    pub open spec fn with_staged(self, data: Seq<T>) -> BufferModel<T> {
        BufferModel { staged: data, ..self }
    }

    /// The state after an upload: the staged contents become the uploaded
    /// ones, and the allocation grows to fit them exactly when it is too small.
    pub open spec fn synced(self) -> BufferModel<T> {
        BufferModel {
            staged: self.staged,
            uploaded: Some(self.staged),
            capacity: if self.staged.len() > self.capacity {
                self.staged.len()
            } else {
                self.capacity
            },
        }
    }

    /// How the next upload reaches GPU memory.
    pub open spec fn write_kind(self) -> BufferWrite {
        if self.staged.len() > self.capacity {
            BufferWrite::Reallocate(self.staged.len() as usize)
        } else {
            BufferWrite::InPlace
        }
    }

    pub open spec fn is_bound(self) -> bool {
        self.uploaded is Some
    }
}

/// How an upload reached GPU memory.
#[derive(Clone, Copy, Debug, PartialEq, Eq, Structural)]
pub enum BufferWrite {
    /// A new allocation of exactly this many elements replaced the old one.
    Reallocate(usize),
    /// The contents were written into the existing allocation.
    InPlace,
}

/// A growable GPU-visible buffer of records: `set` stages new contents,
/// `sync` uploads them.
pub struct GpuBuffer<T> {
    staged: Vec<T>,
    uploaded: Option<Vec<T>>,
    capacity: usize,
}

impl<T> View for GpuBuffer<T> {
    type V = BufferModel<T>;

    closed spec fn view(&self) -> BufferModel<T> {
        BufferModel {
            staged: self.staged@,
            uploaded: match self.uploaded {
                Some(v) => Some(v@),
                None => None,
            },
            capacity: self.capacity as nat,
        }
    }
}

fn copy_records<T: Copy>(v: &Vec<T>) -> (r: Vec<T>)
    ensures
        r@ == v@,
{
    let mut r: Vec<T> = Vec::new();
    let mut i: usize = 0;
    while i < v.len()
        invariant
            i <= v.len(),
            r@ =~= v@.take(i as int),
        decreases v.len() - i,
    {
        r.push(v[i]);
        i += 1;
    }
    r
}

impl<T: Copy> GpuBuffer<T> {
    /// A buffer that stages `initial` and has never been uploaded.
    pub fn new(initial: Vec<T>) -> (r: Self)
        ensures
            r@ == (BufferModel { staged: initial@, uploaded: None::<Seq<T>>, capacity: 0 }),
    {
        GpuBuffer { staged: initial, uploaded: None, capacity: 0 }
    }

    /// Stages new contents, replacing the previously staged ones.
    pub fn set(&mut self, data: Vec<T>)
        ensures
            final(self)@ == old(self)@.with_staged(data@),
    {
        self.staged = data;
    }

    /// Uploads the staged contents, growing the allocation if they do not fit.
    pub fn sync(&mut self) -> (w: BufferWrite)
        ensures
            final(self)@ == old(self)@.synced(),
            w == old(self)@.write_kind(),
    {
        let w = if self.staged.len() > self.capacity {
            self.capacity = self.staged.len();
            BufferWrite::Reallocate(self.staged.len())
        } else {
            BufferWrite::InPlace
        };
        self.uploaded = Some(copy_records(&self.staged));
        w
    }

    /// Whether the buffer can be bound, that is whether it was uploaded once.
    pub fn is_bound(&self) -> (r: bool)
        ensures
            r == self@.is_bound(),
    {
        self.uploaded.is_some()
    }

    /// The staged contents.
    pub fn staged(&self) -> (r: &Vec<T>)
        ensures
            r@ == self@.staged,
    {
        &self.staged
    }

    /// A copy of the contents of the last upload.
    pub fn uploaded(&self) -> (r: Option<Vec<T>>)
        ensures
            r is Some == self@.uploaded is Some,
            r is Some ==> r->0@ == self@.uploaded->0,
    {
        match &self.uploaded {
            Some(v) => Some(copy_records(v)),
            None => None,
        }
    }

    /// The element capacity of the backing allocation.
    pub fn capacity(&self) -> (r: usize)
        ensures
            r == self@.capacity,
    {
        self.capacity
    }
}

/// The GPU-side buffers of the frame, one per record collection.
pub struct MetaModel {
    pub camera: BufferModel<RayTraceCamera>,
    pub objects: BufferModel<RayTraceObject>,
    pub emissives: BufferModel<RayTraceEmissive>,
    pub spheres: BufferModel<RayTraceSphere>,
    pub quads: BufferModel<RayTraceQuad>,
    pub materials: BufferModel<RayTraceMaterial>,
}

impl MetaModel {
    /// All five buffers that the draw binds hold an upload.
    pub open spec fn draw_ready(self) -> bool {
        &&& self.camera.is_bound()
        &&& self.objects.is_bound()
        &&& self.spheres.is_bound()
        &&& self.quads.is_bound()
        &&& self.materials.is_bound()
    }

    /// Uploads every buffer that the draw binds; emissives are not uploaded.
    pub open spec fn synced(self) -> MetaModel {
        MetaModel {
            camera: self.camera.synced(),
            objects: self.objects.synced(),
            emissives: self.emissives,
            spheres: self.spheres.synced(),
            quads: self.quads.synced(),
            materials: self.materials.synced(),
        }
    }
}

/// How each buffer was written by [`prepare_ray_trace`].
#[derive(Clone, Copy, Debug, PartialEq, Eq, Structural)]
pub struct FrameUploads {
    pub camera: BufferWrite,
    pub objects: BufferWrite,
    pub spheres: BufferWrite,
    pub quads: BufferWrite,
    pub materials: BufferWrite,
}

/// Owner of the GPU buffers that the ray tracing pass reads. The camera
/// buffer holds a single camera record.
pub struct GlobalRayTraceMeta {
    pub camera: GpuBuffer<RayTraceCamera>,
    pub objects: GpuBuffer<RayTraceObject>,
    pub emissives: GpuBuffer<RayTraceEmissive>,
    pub spheres: GpuBuffer<RayTraceSphere>,
    pub quads: GpuBuffer<RayTraceQuad>,
    pub materials: GpuBuffer<RayTraceMaterial>,
}

impl View for GlobalRayTraceMeta {
    type V = MetaModel;

    open spec fn view(&self) -> MetaModel {
        MetaModel {
            camera: self.camera@,
            objects: self.objects@,
            emissives: self.emissives@,
            spheres: self.spheres@,
            quads: self.quads@,
            materials: self.materials@,
        }
    }
}

pub open spec fn unsynced<T>(staged: Seq<T>) -> BufferModel<T> {
    BufferModel { staged, uploaded: None, capacity: 0 }
}

/// The buffers before any frame: a default camera, empty collections, and
/// nothing uploaded.
pub open spec fn initial_meta() -> MetaModel {
    MetaModel {
        camera: unsynced(seq![RayTraceCamera::default_spec()]),
        objects: unsynced(Seq::empty()),
        emissives: unsynced(Seq::empty()),
        spheres: unsynced(Seq::empty()),
        quads: unsynced(Seq::empty()),
        materials: unsynced(Seq::empty()),
    }
}

impl GlobalRayTraceMeta {
    /// Buffers as they stand before the first frame.
    pub fn from_world() -> (r: Self)
        ensures
            r@ == initial_meta(),
    {
        let mut camera: Vec<RayTraceCamera> = Vec::new();
        camera.push(RayTraceCamera::zero());
        GlobalRayTraceMeta {
            camera: GpuBuffer::new(camera),
            objects: GpuBuffer::new(Vec::new()),
            emissives: GpuBuffer::new(Vec::new()),
            spheres: GpuBuffer::new(Vec::new()),
            quads: GpuBuffer::new(Vec::new()),
            materials: GpuBuffer::new(Vec::new()),
        }
    }

    /// Stages the camera record.
    pub fn set_camera(&mut self, camera: RayTraceCamera)
        ensures
            final(self)@ == (MetaModel { camera: old(self)@.camera.with_staged(seq![camera]), ..old(self)@ }),
    {
        let mut data: Vec<RayTraceCamera> = Vec::new();
        data.push(camera);
        self.camera.set(data);
    }

    /// Stages the four collections of one extracted frame.
    pub fn set_snapshot(&mut self, snapshot: SceneSnapshot)
        ensures
            final(self)@ == (MetaModel {
                camera: old(self)@.camera,
                objects: old(self)@.objects.with_staged(snapshot.objects.data@),
                emissives: old(self)@.emissives,
                spheres: old(self)@.spheres.with_staged(snapshot.spheres.data@),
                quads: old(self)@.quads.with_staged(snapshot.quads.data@),
                materials: old(self)@.materials.with_staged(snapshot.materials.data@),
            }),
    {
        self.spheres.set(snapshot.spheres.data);
        self.quads.set(snapshot.quads.data);
        self.materials.set(snapshot.materials.data);
        self.objects.set(snapshot.objects.data);
    }

    /// Whether every buffer that the draw binds can be bound.
    pub fn draw_ready(&self) -> (r: bool)
        ensures
            r == self@.draw_ready(),
    {
        self.camera.is_bound() && self.objects.is_bound() && self.spheres.is_bound()
            && self.quads.is_bound() && self.materials.is_bound()
    }
}

/// Uploads the staged camera, objects, spheres, quads and materials.
pub fn prepare_ray_trace(meta: &mut GlobalRayTraceMeta) -> (w: FrameUploads)
    ensures
        final(meta)@ == old(meta)@.synced(),
        w.camera == old(meta)@.camera.write_kind(),
        w.objects == old(meta)@.objects.write_kind(),
        w.spheres == old(meta)@.spheres.write_kind(),
        w.quads == old(meta)@.quads.write_kind(),
        w.materials == old(meta)@.materials.write_kind(),
{
    let camera = meta.camera.sync();
    let objects = meta.objects.sync();
    let spheres = meta.spheres.sync();
    let quads = meta.quads.sync();
    let materials = meta.materials.sync();
    FrameUploads { camera, objects, spheres, quads, materials }
}

} // verus!
