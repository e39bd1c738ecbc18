//! Shader resources: a shader definition's render passes compiled into GPU
//! programs, one per pass.

use crate::framework::{DrawParameters, FrameworkError, GpuProgram, PipelineState};
use vstd::prelude::*;
use vstd::string::StringExecFns;

verus! {

/// One pass of a shader definition: its name, sources and draw state.
pub struct RenderPassDefinition {
    pub name: String,
    pub vertex_shader: String,
    pub fragment_shader: String,
    pub draw_parameters: DrawParameters,
}

/// A shader as authored: a name and the passes it renders with.
pub struct ShaderDefinition {
    pub name: String,
    pub passes: Vec<RenderPassDefinition>,
}

/// A shader resource holding its definition.
pub struct Shader {
    pub definition: ShaderDefinition,
}

/// A compiled render pass: its program and the draw state it runs with.
pub struct RenderPassData {
    pub program: GpuProgram,
    pub draw_params: DrawParameters,
}

/// One compiled pass, keyed by the pass name.
pub struct RenderPassEntry {
    pub name: String,
    pub data: RenderPassData,
}

/// All of a shader's passes compiled, in definition order.
pub struct ShaderSet {
    pub render_passes: Vec<RenderPassEntry>,
}

impl ShaderSet {
    /// Compiles every pass of the shader's definition into a program named
    /// `<shader>_<pass>`, keeping the pass's draw state beside it.
    pub fn new(state: &mut PipelineState, shader: &Shader) -> (r: Result<
        ShaderSet,
        FrameworkError,
    >)
        requires
            old(state).spec_programs_created() + shader.definition.passes@.len() <= u64::MAX,
        ensures
            final(state).spec_programs_created() == old(state).spec_programs_created()
                + shader.definition.passes@.len(),
            final(state).spec_textures_created() == old(state).spec_textures_created(),
            final(state).spec_framebuffers_created() == old(state).spec_framebuffers_created(),
            match r {
                Ok(s) => {
                    &&& s.render_passes@.len() == shader.definition.passes@.len()
                    &&& forall|i: int|
                        0 <= i < s.render_passes@.len() ==> {
                            let p = #[trigger] shader.definition.passes@[i];
                            let e = s.render_passes@[i];
                            &&& e.name@ == p.name@
                            &&& e.data.program.spec_name() == shader.definition.name@ + "_"@
                                + p.name@
                            &&& e.data.program.spec_vertex_source() == p.vertex_shader@
                            &&& e.data.program.spec_fragment_source() == p.fragment_shader@
                            &&& e.data.draw_params == p.draw_parameters
                        }
                },
                Err(_) => false,
            },
    {
        let mut entries: Vec<RenderPassEntry> = Vec::new();
        let n = shader.definition.passes.len();
        let mut i: usize = 0;
        #[verifier::loop_isolation(false)]
        while i < n
            invariant
                i <= n,
                n == shader.definition.passes@.len(),
                entries@.len() == i,
                state.spec_programs_created() == old(state).spec_programs_created() + i,
                state.spec_textures_created() == old(state).spec_textures_created(),
                state.spec_framebuffers_created() == old(state).spec_framebuffers_created(),
                forall|j: int|
                    0 <= j < i ==> {
                        let p = #[trigger] shader.definition.passes@[j];
                        let e = entries@[j];
                        &&& e.name@ == p.name@
                        &&& e.data.program.spec_name() == shader.definition.name@ + "_"@ + p.name@
                        &&& e.data.program.spec_vertex_source() == p.vertex_shader@
                        &&& e.data.program.spec_fragment_source() == p.fragment_shader@
                        &&& e.data.draw_params == p.draw_parameters
                    },
            decreases n - i,
        {
            let pass = &shader.definition.passes[i];
            let program_name = shader.definition.name.clone().concat("_").concat(
                pass.name.as_str(),
            );
            let program = GpuProgram::from_source(
                state,
                program_name.as_str(),
                pass.vertex_shader.as_str(),
                pass.fragment_shader.as_str(),
            )?;
            let name = pass.name.clone();
            entries.push(
                RenderPassEntry { name, data: RenderPassData { program, draw_params: pass.draw_parameters } },
            );
            i = i + 1;
        }
        Ok(ShaderSet { render_passes: entries })
    }
}

} // verus!
