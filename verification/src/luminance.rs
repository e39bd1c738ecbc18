//! Shader used to compute a frame's average luminance.

use crate::framework::{FrameworkError, GpuProgram, PipelineState, UniformLocation};
use vstd::prelude::*;

verus! {

/// Fragment shader measuring luminance of the sampled frame.
pub const LUMINANCE_FRAGMENT_SOURCE: &'static str =
    "uniform sampler2D frameSampler; uniform vec2 invSize;";

/// Vertex shader shared by the screen-space passes.
pub const FLAT_VERTEX_SOURCE: &'static str = "uniform mat4 worldViewProjection;";

/// The luminance program together with the locations of its uniforms.
pub struct LuminanceShader {
    pub program: GpuProgram,
    pub frame_sampler: UniformLocation,
    pub inv_size: UniformLocation,
    pub wvp_matrix: UniformLocation,
}

impl LuminanceShader {
    /// Builds the luminance program and resolves its three uniforms.
    pub fn new(state: &mut PipelineState) -> (r: Result<LuminanceShader, FrameworkError>)
        requires
            old(state).spec_programs_created() < u64::MAX,
        ensures
            final(state).spec_programs_created() == old(state).spec_programs_created() + 1,
            final(state).spec_textures_created() == old(state).spec_textures_created(),
            final(state).spec_framebuffers_created() == old(state).spec_framebuffers_created(),
            match r {
                Ok(s) => {
                    &&& s.program.spec_name() == "LuminanceShader"@
                    &&& s.program.spec_vertex_source() == FLAT_VERTEX_SOURCE@
                    &&& s.program.spec_fragment_source() == LUMINANCE_FRAGMENT_SOURCE@
                    &&& s.wvp_matrix.spec_name() == "worldViewProjection"@
                    &&& s.frame_sampler.spec_name() == "frameSampler"@
                    &&& s.inv_size.spec_name() == "invSize"@
                    &&& s.wvp_matrix.spec_program() == s.program.spec_name()
                    &&& s.frame_sampler.spec_program() == s.program.spec_name()
                    &&& s.inv_size.spec_program() == s.program.spec_name()
                },
                Err(_) => false,
            },
    {
        let fragment_source = LUMINANCE_FRAGMENT_SOURCE;
        let vertex_source = FLAT_VERTEX_SOURCE;
        let program = GpuProgram::from_source(
            state,
            "LuminanceShader",
            vertex_source,
            fragment_source,
        )?;
        Ok(
            LuminanceShader {
                wvp_matrix: program.uniform_location("worldViewProjection")?,
                frame_sampler: program.uniform_location("frameSampler")?,
                inv_size: program.uniform_location("invSize")?,
                program,
            },
        )
    }
}

} // verus!
