use vstd::prelude::*;

verus! {

/// The resources of the pass, in the order in which the shading program's
/// layout declares them.
#[derive(Clone, Copy, Debug, PartialEq, Eq, Structural)]
pub enum BindingSlot {
    Camera,
    Objects,
    Spheres,
    Quads,
    Materials,
    Settings,
    View,
}

/// Shader stages that can see a binding.
#[derive(Clone, Copy, Debug, PartialEq, Eq, Structural)]
pub enum ShaderStage {
    Vertex,
    Fragment,
}

/// One entry of the bind group layout: the resource it holds, whether it is
/// a uniform buffer (else a read-write storage buffer), the stage that sees
/// it, and whether it is bound with a dynamic offset.
#[derive(Clone, Copy, Debug, PartialEq, Eq, Structural)]
pub struct LayoutEntry {
    pub slot: BindingSlot,
    pub uniform: bool,
    pub visibility: ShaderStage,
    pub dynamic_offset: bool,
}

/// The binding order that the layout and every binding set follow.
pub open spec fn binding_order() -> Seq<BindingSlot> {
    seq![
        BindingSlot::Camera,
        BindingSlot::Objects,
        BindingSlot::Spheres,
        BindingSlot::Quads,
        BindingSlot::Materials,
        BindingSlot::Settings,
        BindingSlot::View,
    ]
}

/// The scene records live in storage buffers, settings and view in uniforms;
/// every entry is seen by the fragment stage alone, without dynamic offset.
pub open spec fn layout_entries() -> Seq<LayoutEntry> {
    binding_order().map_values(
        |s: BindingSlot|
            LayoutEntry {
                slot: s,
                uniform: s == BindingSlot::Settings || s == BindingSlot::View,
                visibility: ShaderStage::Fragment,
                dynamic_offset: false,
            },
    )
}

/// The binding order of the pass.
pub fn bind_order() -> (r: Vec<BindingSlot>)
    ensures
        r@ == binding_order(),
{
    let r = vec![
        BindingSlot::Camera,
        BindingSlot::Objects,
        BindingSlot::Spheres,
        BindingSlot::Quads,
        BindingSlot::Materials,
        BindingSlot::Settings,
        BindingSlot::View,
    ];
    assert(r@ =~= binding_order());
    r
}

/// What selects a pipeline variant: whether the view renders to an
/// extended-range target.
#[derive(Clone, Copy, Debug, PartialEq, Eq, Structural, Hash)]
pub struct RayTracePipelineKey {
    pub hdr: bool,
}

/// Color format of the pass's target.
#[derive(Clone, Copy, Debug, PartialEq, Eq, Structural)]
pub enum TargetFormat {
    /// The extended-range format of HDR views (16-bit float RGBA).
    Hdr,
    /// The default surface format (8-bit sRGB RGBA).
    Standard,
}

/// Compile-time flags handed to the shading program.
#[derive(Clone, Copy, Debug, PartialEq, Eq, Structural)]
pub enum ShaderDef {
    /// Tone-map the result, for extended-range targets.
    Tonemap,
}

impl ShaderDef {
    /// The flag's name in the shading program.
    pub fn name(&self) -> (r: &'static str)
        ensures
            r@ == "TONEMAP"@,
    {
        proof {
            reveal_strlit("TONEMAP");
        }
        "TONEMAP"
    }
}

/// Vertex stages the pass can use.
#[derive(Clone, Copy, Debug, PartialEq, Eq, Structural)]
pub enum VertexStage {
    /// One triangle covering the viewport, generated from the vertex index
    /// alone, with no vertex buffer.
    FullScreenTriangle,
}

/// What a variant of the pass is compiled from: the bind group layout, the
/// vertex stage, the fragment entry point and its compile-time flags, the
/// color target (format, blending, channels written), whether depth is
/// tested, and the number of push-constant ranges.
#[derive(Debug)]
pub struct RayTracePipelineDescriptor {
    pub layout: Vec<LayoutEntry>,
    pub vertex: VertexStage,
    pub entry_point: &'static str,
    pub shader_defs: Vec<ShaderDef>,
    pub format: TargetFormat,
    pub blend: bool,
    pub write_all: bool,
    pub depth_test: bool,
    pub push_constant_ranges: usize,
}

/// The descriptor of the variant for `key`: an HDR key adds the tone-map
/// flag and targets the extended-range format. Every variant draws the
/// full-screen triangle into one target with entry point `fragment`, writes
/// all channels without blending, tests no depth and has no push constants.
pub open spec fn describes(d: RayTracePipelineDescriptor, key: RayTracePipelineKey) -> bool {
    &&& d.layout@ == layout_entries()
    &&& d.vertex == VertexStage::FullScreenTriangle
    &&& d.entry_point@ == "fragment"@
    &&& !d.blend
    &&& d.write_all
    &&& d.push_constant_ranges == 0
    &&& d.shader_defs@ == if key.hdr {
        seq![ShaderDef::Tonemap]
    } else {
        Seq::<ShaderDef>::empty()
    }
    &&& d.format == if key.hdr {
        TargetFormat::Hdr
    } else {
        TargetFormat::Standard
    }
    &&& !d.depth_test
}

fn fragment_entry(slot: BindingSlot, uniform: bool) -> (r: LayoutEntry)
    ensures
        r == (LayoutEntry {
            slot,
            uniform,
            visibility: ShaderStage::Fragment,
            dynamic_offset: false,
        }),
{
    LayoutEntry { slot, uniform, visibility: ShaderStage::Fragment, dynamic_offset: false }
}

/// The pass's pipeline: the bind group layout that all variants share.
#[derive(Debug)]
pub struct RayTracePipeline {
    pub bind_group_layout: Vec<LayoutEntry>,
}

impl RayTracePipeline {
    /// The pipeline holds the pass's layout.
    pub open spec fn wf(&self) -> bool {
        self.bind_group_layout@ == layout_entries()
    }

    /// The pipeline with the pass's bind group layout.
    pub fn from_world() -> (r: RayTracePipeline)
        ensures
            r.wf(),
    {
        let bind_group_layout = vec![
            fragment_entry(BindingSlot::Camera, false),
            fragment_entry(BindingSlot::Objects, false),
            fragment_entry(BindingSlot::Spheres, false),
            fragment_entry(BindingSlot::Quads, false),
            fragment_entry(BindingSlot::Materials, false),
            fragment_entry(BindingSlot::Settings, true),
            fragment_entry(BindingSlot::View, true),
        ];
        assert(bind_group_layout@ =~= layout_entries());
        RayTracePipeline { bind_group_layout }
    }

    /// A copy of the bind group layout.
    pub fn layout(&self) -> (r: Vec<LayoutEntry>)
        ensures
            r@ == self.bind_group_layout@,
    {
        let mut r: Vec<LayoutEntry> = Vec::new();
        let mut i: usize = 0;
        while i < self.bind_group_layout.len()
            invariant
                i <= self.bind_group_layout.len(),
                r@ =~= self.bind_group_layout@.take(i as int),
            decreases self.bind_group_layout.len() - i,
        {
            r.push(self.bind_group_layout[i]);
            i += 1;
        }
        assert(r@ =~= self.bind_group_layout@);
        r
    }

    /// The descriptor of the variant for `key`.
    pub fn specialize(&self, key: RayTracePipelineKey) -> (r: RayTracePipelineDescriptor)
        requires
            self.wf(),
        ensures
            describes(r, key),
    {
        let mut shader_defs: Vec<ShaderDef> = Vec::new();
        let format = if key.hdr {
            shader_defs.push(ShaderDef::Tonemap);
            TargetFormat::Hdr
        } else {
            TargetFormat::Standard
        };
        assert(shader_defs@ =~= if key.hdr {
            seq![ShaderDef::Tonemap]
        } else {
            Seq::<ShaderDef>::empty()
        });
        proof {
            reveal_strlit("fragment");
        }
        RayTracePipelineDescriptor {
            layout: self.layout(),
            vertex: VertexStage::FullScreenTriangle,
            entry_point: "fragment",
            shader_defs,
            format,
            blend: false,
            write_all: true,
            depth_test: false,
            push_constant_ranges: 0,
        }
    }
}

/// Identifies a compiled variant: its position among the cached keys.
#[derive(Clone, Copy, Debug, PartialEq, Eq, Structural, Hash)]
pub struct RayTracePipelineId(pub usize);

/// `keys2` and `id` are the cache and the answer after a request for `key`
/// on the cache `keys`: a known key keeps the cache and answers its
/// position; a new key is appended and answers the new position.
pub open spec fn cache_step(
    keys: Seq<RayTracePipelineKey>,
    key: RayTracePipelineKey,
    keys2: Seq<RayTracePipelineKey>,
    id: nat,
) -> bool {
    if keys.contains(key) {
        keys2 == keys && id < keys.len() && keys[id as int] == key
    } else {
        keys2 == keys.push(key) && id == keys.len()
    }
}

/// The cache after requests for each key in turn.
pub open spec fn cache_after(
    keys: Seq<RayTracePipelineKey>,
    requests: Seq<RayTracePipelineKey>,
) -> Seq<RayTracePipelineKey>
    decreases requests.len(),
{
    if requests.len() == 0 {
        keys
    } else {
        let before = cache_after(keys, requests.drop_last());
        if before.contains(requests.last()) {
            before
        } else {
            before.push(requests.last())
        }
    }
}

/// Variants requested so far, each compiled once: the key at position `p`
/// belongs to the variant with id `p`.
pub struct RayTracePipelineCache {
    keys: Vec<RayTracePipelineKey>,
}

impl View for RayTracePipelineCache {
    type V = Seq<RayTracePipelineKey>;

    closed spec fn view(&self) -> Seq<RayTracePipelineKey> {
        self.keys@
    }
}

impl RayTracePipelineCache {
    /// No key repeats.
    pub open spec fn wf(&self) -> bool {
        self@.no_duplicates()
    }

    pub fn new() -> (r: Self)
        ensures
            r.wf(),
            r@ == Seq::<RayTracePipelineKey>::empty(),
    {
        let r = RayTracePipelineCache { keys: Vec::new() };
        assert(r@ =~= Seq::<RayTracePipelineKey>::empty());
        r
    }

    /// The number of variants requested so far.
    pub fn len(&self) -> (r: usize)
        ensures
            r == self@.len(),
    {
        self.keys.len()
    }

    /// The id of the variant for `key`, requesting it if it is new; a new
    /// variant comes with the descriptor to compile it from.
    pub fn specialize(
        &mut self,
        pipeline: &RayTracePipeline,
        key: RayTracePipelineKey,
    ) -> (r: (RayTracePipelineId, Option<RayTracePipelineDescriptor>))
        requires
            old(self).wf(),
            pipeline.wf(),
        ensures
            final(self).wf(),
            cache_step(old(self)@, key, final(self)@, r.0.0 as nat),
            r.1 is Some <==> !old(self)@.contains(key),
            r.1 matches Some(d) ==> describes(d, key),
    {
        let mut i: usize = 0;
        while i < self.keys.len()
            invariant
                i <= self.keys.len(),
                self@ == old(self)@,
                self.wf(),
                forall|k: int| 0 <= k < i ==> self.keys@[k] != key,
            decreases self.keys.len() - i,
        {
            if self.keys[i] == key {
                return (RayTracePipelineId(i), None);
            }
            i += 1;
        }
        proof {
            assert(!self.keys@.contains(key));
        }
        let id = self.keys.len();
        self.keys.push(key);
        proof {
            assert forall|a: int, b: int|
                0 <= a < self@.len() && 0 <= b < self@.len() && a != b implies self@[a]
                != self@[b] by {
                if a == id as int || b == id as int {
                    assert(old(self)@.len() == id);
                }
            }
        }
        (RayTracePipelineId(id), Some(pipeline.specialize(key)))
    }
}

/// A view's request for the pass's pipeline: the variant's id, and the
/// descriptor to compile when this request is the first for its key.
#[derive(Debug)]
pub struct PipelineRequest {
    pub id: RayTracePipelineId,
    pub compile: Option<RayTracePipelineDescriptor>,
}

/// Requests the variant of each view, given whether each view is HDR, in
/// view order.
pub fn prepare_rt_pipelines(
    cache: &mut RayTracePipelineCache,
    pipeline: &RayTracePipeline,
    views_hdr: &Vec<bool>,
) -> (r: Vec<PipelineRequest>)
    requires
        old(cache).wf(),
        pipeline.wf(),
    ensures
        final(cache).wf(),
        final(cache)@ == cache_after(
            old(cache)@,
            views_hdr@.map_values(|h: bool| RayTracePipelineKey { hdr: h }),
        ),
        r@.len() == views_hdr@.len(),
        forall|i: int|
            0 <= i < r@.len() ==> {
                let key = RayTracePipelineKey { hdr: views_hdr@[i] };
                let before = cache_after(
                    old(cache)@,
                    views_hdr@.take(i).map_values(|h: bool| RayTracePipelineKey { hdr: h }),
                );
                &&& (#[trigger] r@[i]).id.0 < final(cache)@.len()
                &&& final(cache)@[r@[i].id.0 as int] == key
                &&& r@[i].compile is Some <==> !before.contains(key)
                &&& r@[i].compile matches Some(d) ==> describes(d, key)
            },
{
    let ghost keys0 = cache@;
    let ghost to_key = |h: bool| RayTracePipelineKey { hdr: h };
    let mut r: Vec<PipelineRequest> = Vec::new();
    let mut i: usize = 0;
    while i < views_hdr.len()
        invariant
            i <= views_hdr.len(),
            cache.wf(),
            pipeline.wf(),
            to_key == (|h: bool| RayTracePipelineKey { hdr: h }),
            cache@ == cache_after(keys0, views_hdr@.take(i as int).map_values(to_key)),
            r@.len() == i,
            forall|k: int|
                0 <= k < i ==> {
                    let key = RayTracePipelineKey { hdr: views_hdr@[k] };
                    let before = cache_after(keys0, views_hdr@.take(k).map_values(to_key));
                    &&& (#[trigger] r@[k]).id.0 < cache@.len()
                    &&& cache@[r@[k].id.0 as int] == key
                    &&& r@[k].compile is Some <==> !before.contains(key)
                    &&& r@[k].compile matches Some(d) ==> describes(d, key)
                },
        decreases views_hdr.len() - i,
    {
        let key = RayTracePipelineKey { hdr: views_hdr[i] };
        let ghost prev = cache@;
        let (id, compile) = cache.specialize(pipeline, key);
        proof {
            let reqs = views_hdr@.take(i + 1).map_values(to_key);
            assert(reqs.drop_last() =~= views_hdr@.take(i as int).map_values(to_key));
            assert(reqs.last() == key);
            assert forall|k: int| 0 <= k < i implies (#[trigger] r@[k]).id.0 < cache@.len()
                && cache@[r@[k].id.0 as int] == RayTracePipelineKey { hdr: views_hdr@[k] } by {
                assert(prev.len() <= cache@.len());
                assert(cache@[r@[k].id.0 as int] == prev[r@[k].id.0 as int]);
            }
        }
        r.push(PipelineRequest { id, compile });
        i += 1;
    }
    proof {
        assert(views_hdr@.take(views_hdr@.len() as int) =~= views_hdr@);
    }
    r
}

/// Two requests to the cache answer the same variant exactly when their
/// keys are equal; keys that differ in output format get distinct variants.
pub proof fn lemma_cache_identity(
    keys: Seq<RayTracePipelineKey>,
    k1: RayTracePipelineKey,
    keys1: Seq<RayTracePipelineKey>,
    id1: nat,
    k2: RayTracePipelineKey,
    keys2: Seq<RayTracePipelineKey>,
    id2: nat,
)
    requires
        keys.no_duplicates(),
        cache_step(keys, k1, keys1, id1),
        cache_step(keys1, k2, keys2, id2),
    ensures
        id1 == id2 <==> k1 == k2,
{
    assert(id1 < keys1.len() && keys1[id1 as int] == k1);
    if !keys.contains(k1) {
        assert forall|a: int, b: int|
            0 <= a < keys1.len() && 0 <= b < keys1.len() && a != b implies keys1[a]
            != keys1[b] by {
            if a == keys.len() {
                assert(keys[b] == keys1[b]);
            }
            if b == keys.len() {
                assert(keys[a] == keys1[a]);
            }
        }
    }
    assert(keys1.no_duplicates());
    assert(id2 < keys2.len() && keys2[id2 as int] == k2);
    assert(keys2[id1 as int] == k1);
    if k1 == k2 {
        assert(keys1.contains(k2));
    }
}

} // verus!
