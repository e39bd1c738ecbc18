//! Bloom: the bright-pass target and the blur chained behind it.

use crate::framework::{
    Attachment, AttachmentKind, Coordinate, FrameBuffer, FrameworkError, GpuProgram, GpuTexture,
    GpuTextureKind, MagnificationFilter, MinificationFilter, PipelineState, PixelKind,
    UniformLocation, WrapMode,
};
use vstd::prelude::*;

verus! {

/// Fragment shader of the bright pass.
pub const BLOOM_FRAGMENT_SOURCE: &'static str = "uniform sampler2D hdrSampler;";

/// Vertex shader shared by the screen-space passes.
pub const BLOOM_VERTEX_SOURCE: &'static str = "uniform mat4 worldViewProjection;";

/// Fragment shader of the separable blur passes.
pub const BLUR_FRAGMENT_SOURCE: &'static str = "uniform sampler2D inputSampler; uniform bool horizontal;";

struct Shader {
    program: GpuProgram,
    world_view_projection_matrix: UniformLocation,
    hdr_sampler: UniformLocation,
}

impl Shader {
    fn new(state: &mut PipelineState) -> (r: Result<Shader, FrameworkError>)
        requires
            old(state).spec_programs_created() < u64::MAX,
        ensures
            final(state).spec_programs_created() == old(state).spec_programs_created() + 1,
            final(state).spec_textures_created() == old(state).spec_textures_created(),
            final(state).spec_framebuffers_created() == old(state).spec_framebuffers_created(),
            match r {
                Ok(s) => s.program.spec_name() == "BloomShader"@,
                Err(_) => false,
            },
    {
        let fragment_source = BLOOM_FRAGMENT_SOURCE;
        let vertex_source = BLOOM_VERTEX_SOURCE;
        let program = GpuProgram::from_source(state, "BloomShader", vertex_source, fragment_source)?;
        Ok(
            Shader {
                world_view_projection_matrix: program.uniform_location("worldViewProjection")?,
                hdr_sampler: program.uniform_location("hdrSampler")?,
                program,
            },
        )
    }
}

/// Two-pass separable Gaussian blur: a horizontal and a vertical target of
/// the same size and format, with one shared program.
pub struct GaussianBlur {
    shader: GpuProgram,
    h_framebuffer: FrameBuffer,
    v_framebuffer: FrameBuffer,
    width: usize,
    height: usize,
}

/// The texture both blur targets are made of.
pub open spec fn blur_target(width: usize, height: usize, pixel_kind: PixelKind) -> GpuTexture {
    GpuTexture {
        kind: GpuTextureKind::Rectangle { width, height },
        pixel_kind,
        min_filter: MinificationFilter::Nearest,
        mag_filter: MagnificationFilter::Nearest,
        mip_count: 1,
        s_wrap: WrapMode::ClampToEdge,
        t_wrap: WrapMode::ClampToEdge,
    }
}

impl GaussianBlur {
    /// Each pass renders into exactly one color attachment.
    #[verifier::type_invariant]
    closed spec fn blur_type_inv(self) -> bool {
        &&& self.h_framebuffer.spec_color_attachments().len() == 1
        &&& self.v_framebuffer.spec_color_attachments().len() == 1
    }

    /// The texture the final (vertical) pass renders into.
    pub closed spec fn spec_result(&self) -> GpuTexture {
        self.v_framebuffer.spec_color_attachments()[0].texture
    }

    pub closed spec fn spec_width(&self) -> usize {
        self.width
    }

    pub closed spec fn spec_height(&self) -> usize {
        self.height
    }

    /// Builds the two blur targets of the given size and format.
    pub fn new(
        state: &mut PipelineState,
        width: usize,
        height: usize,
        pixel_kind: PixelKind,
    ) -> (r: Result<GaussianBlur, FrameworkError>)
        requires
            old(state).spec_programs_created() < u64::MAX,
            old(state).spec_textures_created() + 2 <= u64::MAX,
            old(state).spec_framebuffers_created() + 2 <= u64::MAX,
        ensures
            final(state).spec_programs_created() == old(state).spec_programs_created() + 1,
            final(state).spec_textures_created() == old(state).spec_textures_created() + 2,
            final(state).spec_framebuffers_created() == old(state).spec_framebuffers_created()
                + 2,
            match r {
                Ok(b) => {
                    &&& b.spec_width() == width
                    &&& b.spec_height() == height
                    &&& b.spec_result() == blur_target(width, height, pixel_kind)
                },
                Err(_) => false,
            },
    {
        let fragment_source = BLUR_FRAGMENT_SOURCE;
        let vertex_source = BLOOM_VERTEX_SOURCE;
        let shader = GpuProgram::from_source(state, "GaussianBlur", vertex_source, fragment_source)?;
        let mut h_target = GpuTexture::new(
            state,
            GpuTextureKind::Rectangle { width, height },
            pixel_kind,
            MinificationFilter::Nearest,
            MagnificationFilter::Nearest,
            1,
        )?;
        h_target.set_wrap(Coordinate::S, WrapMode::ClampToEdge);
        h_target.set_wrap(Coordinate::T, WrapMode::ClampToEdge);
        let mut v_target = GpuTexture::new(
            state,
            GpuTextureKind::Rectangle { width, height },
            pixel_kind,
            MinificationFilter::Nearest,
            MagnificationFilter::Nearest,
            1,
        )?;
        v_target.set_wrap(Coordinate::S, WrapMode::ClampToEdge);
        v_target.set_wrap(Coordinate::T, WrapMode::ClampToEdge);
        let h_framebuffer = FrameBuffer::new(
            state,
            None,
            vec![Attachment { kind: AttachmentKind::Color, texture: h_target }],
        )?;
        let v_framebuffer = FrameBuffer::new(
            state,
            None,
            vec![Attachment { kind: AttachmentKind::Color, texture: v_target }],
        )?;
        Ok(GaussianBlur { shader, h_framebuffer, v_framebuffer, width, height })
    }

    /// The blurred output texture.
    pub fn result(&self) -> (r: GpuTexture)
        ensures
            r == self.spec_result(),
    {
        proof {
            use_type_invariant(&*self);
        }
        self.v_framebuffer.color_attachments()[0].texture
    }
}

/// Bloom renderer: a bright-pass target of the frame's size, and a Gaussian
/// blur of the same size chained behind it.
pub struct BloomRenderer {
    shader: Shader,
    framebuffer: FrameBuffer,
    blur: GaussianBlur,
    width: usize,
    height: usize,
}

impl BloomRenderer {
    pub closed spec fn spec_width(&self) -> usize {
        self.width
    }

    pub closed spec fn spec_height(&self) -> usize {
        self.height
    }

    /// The bright-pass target.
    pub closed spec fn spec_glow_texture(&self) -> GpuTexture {
        self.framebuffer.spec_color_attachments()[0].texture
    }

    /// The blurred bloom texture.
    pub closed spec fn spec_result(&self) -> GpuTexture {
        self.blur.spec_result()
    }

    /// Builds the bright-pass target (an RGBA16F rectangle of the given
    /// size, clamped on both axes) and the blur behind it.
    pub fn new(state: &mut PipelineState, width: usize, height: usize) -> (r: Result<
        BloomRenderer,
        FrameworkError,
    >)
        requires
            old(state).spec_programs_created() + 2 <= u64::MAX,
            old(state).spec_textures_created() + 3 <= u64::MAX,
            old(state).spec_framebuffers_created() + 3 <= u64::MAX,
        ensures
            final(state).spec_programs_created() == old(state).spec_programs_created() + 2,
            final(state).spec_textures_created() == old(state).spec_textures_created() + 3,
            final(state).spec_framebuffers_created() == old(state).spec_framebuffers_created()
                + 3,
            match r {
                Ok(b) => {
                    &&& b.spec_width() == width
                    &&& b.spec_height() == height
                    &&& b.spec_glow_texture() == blur_target(width, height, PixelKind::RGBA16F)
                    &&& b.spec_result() == blur_target(width, height, PixelKind::RGBA16F)
                },
                Err(_) => false,
            },
    {
        let mut frame = GpuTexture::new(
            state,
            GpuTextureKind::Rectangle { width, height },
            PixelKind::RGBA16F,
            MinificationFilter::Nearest,
            MagnificationFilter::Nearest,
            1,
        )?;
        frame.set_wrap(Coordinate::S, WrapMode::ClampToEdge);
        frame.set_wrap(Coordinate::T, WrapMode::ClampToEdge);
        let shader = Shader::new(state)?;
        let blur = GaussianBlur::new(state, width, height, PixelKind::RGBA16F)?;
        let framebuffer = FrameBuffer::new(
            state,
            None,
            vec![Attachment { kind: AttachmentKind::Color, texture: frame }],
        )?;
        Ok(BloomRenderer { shader, framebuffer, blur, width, height })
    }

    /// The blurred bloom texture, ready to be composed over the frame.
    pub fn result(&self) -> (r: GpuTexture)
        ensures
            r == self.spec_result(),
    {
        self.blur.result()
    }
}

} // verus!
