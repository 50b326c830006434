use vstd::prelude::*;

use crate::buffers::{GlobalRayTraceMeta, MetaModel};
use crate::extract::{frame, lemma_empty_scene, QuadInstance, SphereInstance};
use crate::types::RayTraceCamera;
use crate::pipeline::{bind_order, binding_order, BindingSlot, RayTracePipelineId};
use crate::types::RayTracingSettings;

verus! {

/// The commands of one view's pass: begin a pass on the view's
/// post-process target (with or without a depth attachment, clearing the
/// target first or keeping its contents), bind the pipeline and the binding
/// set, then draw the given vertex and instance ranges.
#[derive(Debug)]
pub struct DrawCommand {
    pub pipeline: RayTracePipelineId,
    pub bindings: Vec<BindingSlot>,
    pub depth_attachment: bool,
    pub clear: bool,
    pub first_vertex: u32,
    pub vertex_end: u32,
    pub first_instance: u32,
    pub instance_end: u32,
}

/// A view draws when ray tracing is enabled for it (at least one bounce and
/// one sample) and every resource of the pass is available: its pipeline
/// variant, the five scene buffers, and its uploaded settings.
pub open spec fn view_draws(
    settings: RayTracingSettings,
    pipeline_ready: bool,
    meta: MetaModel,
    settings_bound: bool,
) -> bool {
    &&& settings.bounces != 0
    &&& settings.samples != 0
    &&& pipeline_ready
    &&& meta.draw_ready()
    &&& settings_bound
}

/// Three vertices and one instance, the whole binding set in layout order,
/// no depth attachment, and the target kept rather than cleared (the shading
/// program writes every pixel).
pub open spec fn full_screen_draw(d: DrawCommand, pipeline: RayTracePipelineId) -> bool {
    &&& d.pipeline == pipeline
    &&& d.bindings@ == binding_order()
    &&& !d.depth_attachment
    &&& !d.clear
    &&& d.first_vertex == 0
    &&& d.vertex_end == 3
    &&& d.first_instance == 0
    &&& d.instance_end == 1
}

/// The ray tracing pass of a view.
#[derive(Clone, Copy, Debug, Default)]
pub struct RayTraceNode;

impl RayTraceNode {
    /// Decides the view's pass for this frame. `pipeline_ready` tells whether
    /// the view's variant has finished compiling, `settings_bound` whether the
    /// view's settings were uploaded. Any unmet condition skips the view.
    pub fn run(
        &self,
        settings: &RayTracingSettings,
        pipeline: RayTracePipelineId,
        pipeline_ready: bool,
        meta: &GlobalRayTraceMeta,
        settings_bound: bool,
    ) -> (r: Option<DrawCommand>)
        ensures
            r is Some <==> view_draws(*settings, pipeline_ready, meta@, settings_bound),
            r matches Some(d) ==> full_screen_draw(d, pipeline),
    {
        if settings.bounces == 0 || settings.samples == 0 {
            return None;
        }
        if !pipeline_ready {
            return None;
        }
        if !meta.draw_ready() {
            return None;
        }
        if !settings_bound {
            return None;
        }
        Some(
            DrawCommand {
                pipeline,
                bindings: bind_order(),
                depth_attachment: false,
                clear: false,
                first_vertex: 0,
                vertex_end: 3,
                first_instance: 0,
                instance_end: 1,
            },
        )
    }
}

/// A view with no bounces records no draw, whatever the scene and the state
/// of its resources.
pub proof fn lemma_zero_bounces_skip(
    settings: RayTracingSettings,
    pipeline_ready: bool,
    meta: MetaModel,
    settings_bound: bool,
)
    requires
        settings.bounces == 0,
    ensures
        !view_draws(settings, pipeline_ready, meta, settings_bound),
{
}

/// An empty scene, once uploaded, is a bindable state: an enabled view whose
/// pipeline and settings are available draws it.
pub proof fn lemma_empty_scene_draws(
    m: MetaModel,
    camera: Option<RayTraceCamera>,
    settings: RayTracingSettings,
)
    requires
        settings.bounces != 0,
        settings.samples != 0,
    ensures
        view_draws(
            settings,
            true,
            frame(m, camera, Seq::<SphereInstance>::empty(), Seq::<QuadInstance>::empty()),
            true,
        ),
{
    lemma_empty_scene(m, camera);
}

} // verus!
