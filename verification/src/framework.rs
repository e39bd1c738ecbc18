//! Descriptor-level model of the rendering framework's GPU objects.
//!
//! The graphics backend itself is outside this core: what is kept here is
//! the bookkeeping the renderers above it rely on — which textures,
//! programs and framebuffers were created, with which formats, sizes and
//! attachments. A [`PipelineState`] counts the objects created through it;
//! every creation is recorded in its contract.

use vstd::prelude::*;

verus! {

/// An error of the rendering framework, carrying a message.
#[derive(Debug, PartialEq)]
pub enum FrameworkError {
    Custom(String),
}

/// Shape of a texture.
#[derive(Clone, Copy, Debug, PartialEq, Eq, Structural)]
pub enum GpuTextureKind {
    Rectangle { width: usize, height: usize },
}

/// Storage format of a texel.
#[derive(Clone, Copy, Debug, PartialEq, Eq, Structural)]
pub enum PixelKind {
    RGBA16F,
    RGBA8,
    D24S8,
    R32UI,
}

#[derive(Clone, Copy, Debug, PartialEq, Eq, Structural)]
pub enum MinificationFilter {
    Nearest,
    Linear,
}

#[derive(Clone, Copy, Debug, PartialEq, Eq, Structural)]
pub enum MagnificationFilter {
    Nearest,
    Linear,
}

/// A texture coordinate axis.
#[derive(Clone, Copy, Debug, PartialEq, Eq, Structural)]
pub enum Coordinate {
    S,
    T,
}

#[derive(Clone, Copy, Debug, PartialEq, Eq, Structural)]
pub enum WrapMode {
    Repeat,
    ClampToEdge,
}

/// Counts the GPU objects created through this pipeline.
pub struct PipelineState {
    textures_created: u64,
    programs_created: u64,
    framebuffers_created: u64,
}

impl PipelineState {
    pub closed spec fn spec_textures_created(&self) -> u64 {
        self.textures_created
    }

    pub closed spec fn spec_programs_created(&self) -> u64 {
        self.programs_created
    }

    pub closed spec fn spec_framebuffers_created(&self) -> u64 {
        self.framebuffers_created
    }

    pub fn new() -> (r: PipelineState)
        ensures
            r.spec_textures_created() == 0,
            r.spec_programs_created() == 0,
            r.spec_framebuffers_created() == 0,
    {
        PipelineState { textures_created: 0, programs_created: 0, framebuffers_created: 0 }
    }

    pub fn textures_created(&self) -> (r: u64)
        ensures
            r == self.spec_textures_created(),
    {
        self.textures_created
    }

    pub fn programs_created(&self) -> (r: u64)
        ensures
            r == self.spec_programs_created(),
    {
        self.programs_created
    }

    pub fn framebuffers_created(&self) -> (r: u64)
        ensures
            r == self.spec_framebuffers_created(),
    {
        self.framebuffers_created
    }
}

/// A texture descriptor. Wrap modes start at the backend default `Repeat`.
#[derive(Clone, Copy, Debug, PartialEq, Eq, Structural)]
pub struct GpuTexture {
    pub kind: GpuTextureKind,
    pub pixel_kind: PixelKind,
    pub min_filter: MinificationFilter,
    pub mag_filter: MagnificationFilter,
    pub mip_count: usize,
    pub s_wrap: WrapMode,
    pub t_wrap: WrapMode,
}

impl GpuTexture {
    /// Creates a texture of the given shape and format, counted by the
    /// pipeline.
    pub fn new(
        state: &mut PipelineState,
        kind: GpuTextureKind,
        pixel_kind: PixelKind,
        min_filter: MinificationFilter,
        mag_filter: MagnificationFilter,
        mip_count: usize,
    ) -> (r: Result<GpuTexture, FrameworkError>)
        requires
            old(state).spec_textures_created() < u64::MAX,
        ensures
            final(state).spec_textures_created() == old(state).spec_textures_created() + 1,
            final(state).spec_programs_created() == old(state).spec_programs_created(),
            final(state).spec_framebuffers_created() == old(state).spec_framebuffers_created(),
            r == Ok::<GpuTexture, FrameworkError>(GpuTexture {
                kind,
                pixel_kind,
                min_filter,
                mag_filter,
                mip_count,
                s_wrap: WrapMode::Repeat,
                t_wrap: WrapMode::Repeat,
            }),
    {
        state.textures_created = state.textures_created + 1;
        Ok(
            GpuTexture {
                kind,
                pixel_kind,
                min_filter,
                mag_filter,
                mip_count,
                s_wrap: WrapMode::Repeat,
                t_wrap: WrapMode::Repeat,
            },
        )
    }

    /// Sets the wrap mode of one coordinate axis.
    pub fn set_wrap(&mut self, coordinate: Coordinate, wrap: WrapMode)
        ensures
            *final(self) == match coordinate {
                Coordinate::S => GpuTexture { s_wrap: wrap, ..*old(self) },
                Coordinate::T => GpuTexture { t_wrap: wrap, ..*old(self) },
            },
    {
        match coordinate {
            Coordinate::S => {
                self.s_wrap = wrap;
            },
            Coordinate::T => {
                self.t_wrap = wrap;
            },
        }
    }
}

/// A compiled shader program: its name and sources, kept as the record of
/// what was handed to the backend. In this model a program resolves every
/// uniform name asked of it; backend compilation failures are outside the
/// model.
#[derive(Debug, PartialEq)]
pub struct GpuProgram {
    name: String,
    vertex_source: String,
    fragment_source: String,
}

/// Where a uniform lives: which program, under which name.
#[derive(Debug, PartialEq)]
pub struct UniformLocation {
    program: String,
    name: String,
}

impl UniformLocation {
    pub closed spec fn spec_program(&self) -> Seq<char> {
        self.program@
    }

    pub closed spec fn spec_name(&self) -> Seq<char> {
        self.name@
    }

    /// Name of the program this location belongs to.
    pub fn program(&self) -> (r: &str)
        ensures
            r@ == self.spec_program(),
    {
        self.program.as_str()
    }

    /// The uniform's name.
    pub fn name(&self) -> (r: &str)
        ensures
            r@ == self.spec_name(),
    {
        self.name.as_str()
    }
}

impl GpuProgram {
    pub closed spec fn spec_name(&self) -> Seq<char> {
        self.name@
    }

    /// The program's name.
    pub fn name(&self) -> (r: &str)
        ensures
            r@ == self.spec_name(),
    {
        self.name.as_str()
    }

    pub closed spec fn spec_vertex_source(&self) -> Seq<char> {
        self.vertex_source@
    }

    pub closed spec fn spec_fragment_source(&self) -> Seq<char> {
        self.fragment_source@
    }

    /// Records a program built from the two shader sources, counted by the
    /// pipeline.
    pub fn from_source(
        state: &mut PipelineState,
        name: &str,
        vertex_source: &str,
        fragment_source: &str,
    ) -> (r: Result<GpuProgram, FrameworkError>)
        requires
            old(state).spec_programs_created() < u64::MAX,
        ensures
            final(state).spec_programs_created() == old(state).spec_programs_created() + 1,
            final(state).spec_textures_created() == old(state).spec_textures_created(),
            final(state).spec_framebuffers_created() == old(state).spec_framebuffers_created(),
            match r {
                Ok(p) => {
                    &&& p.spec_name() == name@
                    &&& p.spec_vertex_source() == vertex_source@
                    &&& p.spec_fragment_source() == fragment_source@
                },
                Err(_) => false,
            },
    {
        state.programs_created = state.programs_created + 1;
        Ok(
            GpuProgram {
                name: name.to_owned(),
                vertex_source: vertex_source.to_owned(),
                fragment_source: fragment_source.to_owned(),
            },
        )
    }

    /// The location of a named uniform of this program.
    pub fn uniform_location(&self, name: &str) -> (r: Result<UniformLocation, FrameworkError>)
        ensures
            match r {
                Ok(loc) => loc.spec_program() == self.spec_name() && loc.spec_name() == name@,
                Err(_) => false,
            },
    {
        Ok(UniformLocation { program: self.name.clone(), name: name.to_owned() })
    }
}

/// Which face of a triangle is culled.
#[derive(Clone, Copy, Debug, PartialEq, Eq, Structural)]
pub enum CullFace {
    Back,
    Front,
}

/// Fixed-function state one draw call runs with.
#[derive(Clone, Copy, Debug, PartialEq, Eq, Structural)]
pub struct DrawParameters {
    pub cull_face: Option<CullFace>,
    pub depth_write: bool,
    pub depth_test: bool,
}

/// What an attachment is used for.
#[derive(Clone, Copy, Debug, PartialEq, Eq, Structural)]
pub enum AttachmentKind {
    Color,
    DepthStencil,
}

/// One texture attached to a framebuffer.
#[derive(Clone, Copy, Debug, PartialEq, Eq, Structural)]
pub struct Attachment {
    pub kind: AttachmentKind,
    pub texture: GpuTexture,
}

/// A framebuffer: an optional depth attachment plus color attachments.
#[derive(Debug, PartialEq)]
pub struct FrameBuffer {
    depth_attachment: Option<Attachment>,
    color_attachments: Vec<Attachment>,
}

impl FrameBuffer {
    pub closed spec fn spec_depth_attachment(&self) -> Option<Attachment> {
        self.depth_attachment
    }

    pub closed spec fn spec_color_attachments(&self) -> Seq<Attachment> {
        self.color_attachments@
    }

    /// Records a framebuffer over the given attachments, counted by the
    /// pipeline.
    pub fn new(
        state: &mut PipelineState,
        depth_attachment: Option<Attachment>,
        color_attachments: Vec<Attachment>,
    ) -> (r: Result<FrameBuffer, FrameworkError>)
        requires
            old(state).spec_framebuffers_created() < u64::MAX,
        ensures
            final(state).spec_framebuffers_created() == old(state).spec_framebuffers_created()
                + 1,
            final(state).spec_textures_created() == old(state).spec_textures_created(),
            final(state).spec_programs_created() == old(state).spec_programs_created(),
            match r {
                Ok(f) => f.spec_depth_attachment() == depth_attachment
                    && f.spec_color_attachments() == color_attachments@,
                Err(_) => false,
            },
    {
        state.framebuffers_created = state.framebuffers_created + 1;
        Ok(FrameBuffer { depth_attachment, color_attachments })
    }

    /// The color attachments, in attachment order.
    pub fn color_attachments(&self) -> (r: &Vec<Attachment>)
        ensures
            r@ == self.spec_color_attachments(),
    {
        &self.color_attachments
    }
}

} // verus!
