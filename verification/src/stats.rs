//! Renderer statistics: plain counters accumulated over a frame or a scene.

use vstd::prelude::*;

verus! {

/// What one draw call contributed.
#[derive(Clone, Copy, Debug, PartialEq, Eq, Structural, Default)]
pub struct DrawCallStatistics {
    pub triangles: usize,
}

/// Graphics pipeline state changes made during rendering.
#[derive(Clone, Copy, Debug, PartialEq, Eq, Structural)]
pub struct PipelineStatistics {
    /// Textures bound to the pipeline.
    pub texture_binding_changes: usize,
    /// Vertex buffers bound to the pipeline.
    pub vbo_binding_changes: usize,
    /// Vertex array objects bound to the pipeline.
    pub vao_binding_changes: usize,
    /// Blending state changes.
    pub blend_state_changes: usize,
    /// Frame buffers bound to the pipeline.
    pub framebuffer_binding_changes: usize,
    /// Programs bound to the pipeline.
    pub program_binding_changes: usize,
}

impl PipelineStatistics {
    /// All counters zero.
    pub open spec fn spec_zero() -> PipelineStatistics {
        PipelineStatistics {
            texture_binding_changes: 0,
            vbo_binding_changes: 0,
            vao_binding_changes: 0,
            blend_state_changes: 0,
            framebuffer_binding_changes: 0,
            program_binding_changes: 0,
        }
    }

    #[verifier::when_used_as_spec(spec_zero)]
    pub fn new() -> (r: PipelineStatistics)
        ensures
            r == (PipelineStatistics {
                texture_binding_changes: 0,
                vbo_binding_changes: 0,
                vao_binding_changes: 0,
                blend_state_changes: 0,
                framebuffer_binding_changes: 0,
                program_binding_changes: 0,
            }),
    {
        PipelineStatistics {
            texture_binding_changes: 0,
            vbo_binding_changes: 0,
            vao_binding_changes: 0,
            blend_state_changes: 0,
            framebuffer_binding_changes: 0,
            program_binding_changes: 0,
        }
    }

    /// Accumulates another pipeline count into this one.
    pub fn add_assign(&mut self, rhs: PipelineStatistics)
        requires
            old(self).texture_binding_changes + rhs.texture_binding_changes <= usize::MAX,
            old(self).vbo_binding_changes + rhs.vbo_binding_changes <= usize::MAX,
            old(self).vao_binding_changes + rhs.vao_binding_changes <= usize::MAX,
            old(self).blend_state_changes + rhs.blend_state_changes <= usize::MAX,
            old(self).framebuffer_binding_changes + rhs.framebuffer_binding_changes <= usize::MAX,
            old(self).program_binding_changes + rhs.program_binding_changes <= usize::MAX,
        ensures
            *final(self) == (PipelineStatistics {
                texture_binding_changes: (old(self).texture_binding_changes
                    + rhs.texture_binding_changes) as usize,
                vbo_binding_changes: (old(self).vbo_binding_changes
                    + rhs.vbo_binding_changes) as usize,
                vao_binding_changes: (old(self).vao_binding_changes
                    + rhs.vao_binding_changes) as usize,
                blend_state_changes: (old(self).blend_state_changes
                    + rhs.blend_state_changes) as usize,
                framebuffer_binding_changes: (old(self).framebuffer_binding_changes
                    + rhs.framebuffer_binding_changes) as usize,
                program_binding_changes: (old(self).program_binding_changes
                    + rhs.program_binding_changes) as usize,
            }),
    {
        self.texture_binding_changes = self.texture_binding_changes + rhs.texture_binding_changes;
        self.vbo_binding_changes = self.vbo_binding_changes + rhs.vbo_binding_changes;
        self.vao_binding_changes = self.vao_binding_changes + rhs.vao_binding_changes;
        self.blend_state_changes = self.blend_state_changes + rhs.blend_state_changes;
        self.framebuffer_binding_changes = self.framebuffer_binding_changes
            + rhs.framebuffer_binding_changes;
        self.program_binding_changes = self.program_binding_changes + rhs.program_binding_changes;
    }

    /// The difference of two pipeline counts, field by field.
    pub fn sub(self, rhs: PipelineStatistics) -> (r: PipelineStatistics)
        requires
            rhs.texture_binding_changes <= self.texture_binding_changes,
            rhs.vbo_binding_changes <= self.vbo_binding_changes,
            rhs.vao_binding_changes <= self.vao_binding_changes,
            rhs.blend_state_changes <= self.blend_state_changes,
            rhs.framebuffer_binding_changes <= self.framebuffer_binding_changes,
            rhs.program_binding_changes <= self.program_binding_changes,
        ensures
            r == (PipelineStatistics {
                texture_binding_changes: (self.texture_binding_changes
                    - rhs.texture_binding_changes) as usize,
                vbo_binding_changes: (self.vbo_binding_changes
                    - rhs.vbo_binding_changes) as usize,
                vao_binding_changes: (self.vao_binding_changes
                    - rhs.vao_binding_changes) as usize,
                blend_state_changes: (self.blend_state_changes
                    - rhs.blend_state_changes) as usize,
                framebuffer_binding_changes: (self.framebuffer_binding_changes
                    - rhs.framebuffer_binding_changes) as usize,
                program_binding_changes: (self.program_binding_changes
                    - rhs.program_binding_changes) as usize,
            }),
    {
        PipelineStatistics {
            texture_binding_changes: self.texture_binding_changes - rhs.texture_binding_changes,
            vbo_binding_changes: self.vbo_binding_changes - rhs.vbo_binding_changes,
            vao_binding_changes: self.vao_binding_changes - rhs.vao_binding_changes,
            blend_state_changes: self.blend_state_changes - rhs.blend_state_changes,
            framebuffer_binding_changes: self.framebuffer_binding_changes
                - rhs.framebuffer_binding_changes,
            program_binding_changes: self.program_binding_changes - rhs.program_binding_changes,
        }
    }
}

/// Lights and shadow maps rendered.
#[derive(Clone, Copy, Debug, PartialEq, Eq, Structural)]
pub struct LightingStatistics {
    pub point_lights_rendered: usize,
    pub point_shadow_maps_rendered: usize,
    pub csm_rendered: usize,
    pub spot_lights_rendered: usize,
    pub spot_shadow_maps_rendered: usize,
    pub directional_lights_rendered: usize,
}

impl LightingStatistics {
    /// All counters zero.
    pub open spec fn spec_zero() -> LightingStatistics {
        LightingStatistics {
            point_lights_rendered: 0,
            point_shadow_maps_rendered: 0,
            csm_rendered: 0,
            spot_lights_rendered: 0,
            spot_shadow_maps_rendered: 0,
            directional_lights_rendered: 0,
        }
    }

    #[verifier::when_used_as_spec(spec_zero)]
    pub fn new() -> (r: LightingStatistics)
        ensures
            r == (LightingStatistics {
                point_lights_rendered: 0,
                point_shadow_maps_rendered: 0,
                csm_rendered: 0,
                spot_lights_rendered: 0,
                spot_shadow_maps_rendered: 0,
                directional_lights_rendered: 0,
            }),
    {
        LightingStatistics {
            point_lights_rendered: 0,
            point_shadow_maps_rendered: 0,
            csm_rendered: 0,
            spot_lights_rendered: 0,
            spot_shadow_maps_rendered: 0,
            directional_lights_rendered: 0,
        }
    }

    /// Accumulates another lighting count into this one.
    pub fn add_assign(&mut self, rhs: LightingStatistics)
        requires
            old(self).point_lights_rendered + rhs.point_lights_rendered <= usize::MAX,
            old(self).point_shadow_maps_rendered + rhs.point_shadow_maps_rendered <= usize::MAX,
            old(self).csm_rendered + rhs.csm_rendered <= usize::MAX,
            old(self).spot_lights_rendered + rhs.spot_lights_rendered <= usize::MAX,
            old(self).spot_shadow_maps_rendered + rhs.spot_shadow_maps_rendered <= usize::MAX,
            old(self).directional_lights_rendered + rhs.directional_lights_rendered <= usize::MAX,
        ensures
            *final(self) == (LightingStatistics {
                point_lights_rendered: (old(self).point_lights_rendered
                    + rhs.point_lights_rendered) as usize,
                point_shadow_maps_rendered: (old(self).point_shadow_maps_rendered
                    + rhs.point_shadow_maps_rendered) as usize,
                csm_rendered: (old(self).csm_rendered + rhs.csm_rendered) as usize,
                spot_lights_rendered: (old(self).spot_lights_rendered
                    + rhs.spot_lights_rendered) as usize,
                spot_shadow_maps_rendered: (old(self).spot_shadow_maps_rendered
                    + rhs.spot_shadow_maps_rendered) as usize,
                directional_lights_rendered: (old(self).directional_lights_rendered
                    + rhs.directional_lights_rendered) as usize,
            }),
    {
        self.point_lights_rendered = self.point_lights_rendered + rhs.point_lights_rendered;
        self.point_shadow_maps_rendered = self.point_shadow_maps_rendered
            + rhs.point_shadow_maps_rendered;
        self.spot_lights_rendered = self.spot_lights_rendered + rhs.spot_lights_rendered;
        self.spot_shadow_maps_rendered = self.spot_shadow_maps_rendered
            + rhs.spot_shadow_maps_rendered;
        self.directional_lights_rendered = self.directional_lights_rendered
            + rhs.directional_lights_rendered;
        self.csm_rendered = self.csm_rendered + rhs.csm_rendered;
    }
}

/// Draw calls and triangles of one render pass.
#[derive(Clone, Copy, Debug, PartialEq, Eq, Structural)]
pub struct RenderPassStatistics {
    /// Draw calls made — lower is better.
    pub draw_calls: usize,
    /// Triangles rendered.
    pub triangles_rendered: usize,
}

impl RenderPassStatistics {
    /// All counters zero.
    pub open spec fn spec_zero() -> RenderPassStatistics {
        RenderPassStatistics { draw_calls: 0, triangles_rendered: 0 }
    }

    #[verifier::when_used_as_spec(spec_zero)]
    pub fn new() -> (r: RenderPassStatistics)
        ensures
            r == (RenderPassStatistics { draw_calls: 0, triangles_rendered: 0 }),
    {
        RenderPassStatistics { draw_calls: 0, triangles_rendered: 0 }
    }

    /// Accumulates another pass's counts into this one.
    pub fn add_assign(&mut self, rhs: RenderPassStatistics)
        requires
            old(self).draw_calls + rhs.draw_calls <= usize::MAX,
            old(self).triangles_rendered + rhs.triangles_rendered <= usize::MAX,
        ensures
            *final(self) == (RenderPassStatistics {
                draw_calls: (old(self).draw_calls + rhs.draw_calls) as usize,
                triangles_rendered: (old(self).triangles_rendered
                    + rhs.triangles_rendered) as usize,
            }),
    {
        self.draw_calls = self.draw_calls + rhs.draw_calls;
        self.triangles_rendered = self.triangles_rendered + rhs.triangles_rendered;
    }

    /// Accumulates one draw call: one more call, its triangles added.
    pub fn add_draw_call(&mut self, rhs: DrawCallStatistics)
        requires
            old(self).draw_calls + 1 <= usize::MAX,
            old(self).triangles_rendered + rhs.triangles <= usize::MAX,
        ensures
            *final(self) == (RenderPassStatistics {
                draw_calls: (old(self).draw_calls + 1) as usize,
                triangles_rendered: (old(self).triangles_rendered + rhs.triangles) as usize,
            }),
    {
        self.draw_calls = self.draw_calls + 1;
        self.triangles_rendered = self.triangles_rendered + rhs.triangles;
    }
}

/// Renderer statistics for a whole scene.
#[derive(Clone, Copy, Debug, PartialEq, Eq, Structural)]
pub struct SceneStatistics {
    /// Pipeline state changes made while rendering the scene.
    pub pipeline: PipelineStatistics,
    /// Lights and shadow maps rendered.
    pub lighting: LightingStatistics,
    /// Draw calls made and triangles rendered.
    pub geometry: RenderPassStatistics,
}

impl SceneStatistics {
    pub fn new() -> (r: SceneStatistics)
        ensures
            r.pipeline == PipelineStatistics::new(),
            r.lighting == LightingStatistics::new(),
            r.geometry == RenderPassStatistics::new(),
    {
        SceneStatistics {
            pipeline: PipelineStatistics::new(),
            lighting: LightingStatistics::new(),
            geometry: RenderPassStatistics::new(),
        }
    }

    /// Accumulates pipeline state changes into the scene's counts.
    pub fn add_pipeline(&mut self, rhs: PipelineStatistics)
        requires
            old(self).pipeline.texture_binding_changes + rhs.texture_binding_changes <= usize::MAX,
            old(self).pipeline.vbo_binding_changes + rhs.vbo_binding_changes <= usize::MAX,
            old(self).pipeline.vao_binding_changes + rhs.vao_binding_changes <= usize::MAX,
            old(self).pipeline.blend_state_changes + rhs.blend_state_changes <= usize::MAX,
            old(self).pipeline.framebuffer_binding_changes + rhs.framebuffer_binding_changes
                <= usize::MAX,
            old(self).pipeline.program_binding_changes + rhs.program_binding_changes <= usize::MAX,
        ensures
            final(self).lighting == old(self).lighting,
            final(self).geometry == old(self).geometry,
            final(self).pipeline == (PipelineStatistics {
                texture_binding_changes: (old(self).pipeline.texture_binding_changes
                    + rhs.texture_binding_changes) as usize,
                vbo_binding_changes: (old(self).pipeline.vbo_binding_changes
                    + rhs.vbo_binding_changes) as usize,
                vao_binding_changes: (old(self).pipeline.vao_binding_changes
                    + rhs.vao_binding_changes) as usize,
                blend_state_changes: (old(self).pipeline.blend_state_changes
                    + rhs.blend_state_changes) as usize,
                framebuffer_binding_changes: (old(self).pipeline.framebuffer_binding_changes
                    + rhs.framebuffer_binding_changes) as usize,
                program_binding_changes: (old(self).pipeline.program_binding_changes
                    + rhs.program_binding_changes) as usize,
            }),
    {
        self.pipeline.add_assign(rhs);
    }

    /// Accumulates lighting counts into the scene's counts.
    pub fn add_lighting(&mut self, rhs: LightingStatistics)
        requires
            old(self).lighting.point_lights_rendered + rhs.point_lights_rendered <= usize::MAX,
            old(self).lighting.point_shadow_maps_rendered + rhs.point_shadow_maps_rendered
                <= usize::MAX,
            old(self).lighting.csm_rendered + rhs.csm_rendered <= usize::MAX,
            old(self).lighting.spot_lights_rendered + rhs.spot_lights_rendered <= usize::MAX,
            old(self).lighting.spot_shadow_maps_rendered + rhs.spot_shadow_maps_rendered
                <= usize::MAX,
            old(self).lighting.directional_lights_rendered + rhs.directional_lights_rendered
                <= usize::MAX,
        ensures
            final(self).pipeline == old(self).pipeline,
            final(self).geometry == old(self).geometry,
            final(self).lighting == (LightingStatistics {
                point_lights_rendered: (old(self).lighting.point_lights_rendered
                    + rhs.point_lights_rendered) as usize,
                point_shadow_maps_rendered: (old(self).lighting.point_shadow_maps_rendered
                    + rhs.point_shadow_maps_rendered) as usize,
                csm_rendered: (old(self).lighting.csm_rendered + rhs.csm_rendered) as usize,
                spot_lights_rendered: (old(self).lighting.spot_lights_rendered
                    + rhs.spot_lights_rendered) as usize,
                spot_shadow_maps_rendered: (old(self).lighting.spot_shadow_maps_rendered
                    + rhs.spot_shadow_maps_rendered) as usize,
                directional_lights_rendered: (old(self).lighting.directional_lights_rendered
                    + rhs.directional_lights_rendered) as usize,
            }),
    {
        self.lighting.add_assign(rhs);
    }

    /// Accumulates a render pass's counts into the scene's geometry counts.
    pub fn add_render_pass(&mut self, rhs: RenderPassStatistics)
        requires
            old(self).geometry.draw_calls + rhs.draw_calls <= usize::MAX,
            old(self).geometry.triangles_rendered + rhs.triangles_rendered <= usize::MAX,
        ensures
            final(self).pipeline == old(self).pipeline,
            final(self).lighting == old(self).lighting,
            final(self).geometry == (RenderPassStatistics {
                draw_calls: (old(self).geometry.draw_calls + rhs.draw_calls) as usize,
                triangles_rendered: (old(self).geometry.triangles_rendered
                    + rhs.triangles_rendered) as usize,
            }),
    {
        self.geometry.add_assign(rhs);
    }

    /// Accumulates one draw call into the scene's geometry counts.
    pub fn add_draw_call(&mut self, rhs: DrawCallStatistics)
        requires
            old(self).geometry.draw_calls + 1 <= usize::MAX,
            old(self).geometry.triangles_rendered + rhs.triangles <= usize::MAX,
        ensures
            *final(self) == (SceneStatistics {
                geometry: RenderPassStatistics {
                    draw_calls: (old(self).geometry.draw_calls + 1) as usize,
                    triangles_rendered: (old(self).geometry.triangles_rendered
                        + rhs.triangles) as usize,
                },
                ..*old(self)
            }),
    {
        self.geometry.add_draw_call(rhs);
    }
}

} // verus!
