//! Unit tests of the renderer bookkeeping types.

use anim_machine::bloom::BloomRenderer;
use anim_machine::framework::{
    Attachment, AttachmentKind, Coordinate, DrawParameters, FrameBuffer, GpuProgram, GpuTexture,
    GpuTextureKind, MagnificationFilter, MinificationFilter, PipelineState, PixelKind, WrapMode,
};
use anim_machine::luminance::LuminanceShader;
use anim_machine::shaders::{RenderPassDefinition, Shader, ShaderDefinition, ShaderSet};
use anim_machine::stats::{
    DrawCallStatistics, LightingStatistics, PipelineStatistics, RenderPassStatistics,
    SceneStatistics,
};
use anim_machine::tilemap::{Tile, TilePosition};

#[test]
fn bloom_renderer_builds_its_targets() {
    let mut state = PipelineState::new();
    let bloom = BloomRenderer::new(&mut state, 640, 480).unwrap();
    // Bright pass plus the two blur passes.
    assert_eq!(state.textures_created(), 3);
    assert_eq!(state.programs_created(), 2);
    assert_eq!(state.framebuffers_created(), 3);
    let result = bloom.result();
    assert_eq!(result.kind, GpuTextureKind::Rectangle { width: 640, height: 480 });
    assert_eq!(result.pixel_kind, PixelKind::RGBA16F);
    assert_eq!(result.s_wrap, WrapMode::ClampToEdge);
    assert_eq!(result.t_wrap, WrapMode::ClampToEdge);
    assert_eq!(result.mip_count, 1);
}

#[test]
fn luminance_shader_resolves_its_uniforms() {
    let mut state = PipelineState::new();
    let shader = LuminanceShader::new(&mut state).unwrap();
    assert_eq!(state.programs_created(), 1);
    assert_eq!(shader.program.name(), "LuminanceShader");
    assert_eq!(shader.wvp_matrix.name(), "worldViewProjection");
    assert_eq!(shader.frame_sampler.name(), "frameSampler");
    assert_eq!(shader.inv_size.name(), "invSize");
    assert_eq!(shader.inv_size.program(), "LuminanceShader");
}

#[test]
fn texture_wrap_modes_follow_set_wrap() {
    let mut state = PipelineState::new();
    let mut texture = GpuTexture::new(
        &mut state,
        GpuTextureKind::Rectangle { width: 4, height: 4 },
        PixelKind::RGBA8,
        MinificationFilter::Linear,
        MagnificationFilter::Nearest,
        1,
    )
    .unwrap();
    assert_eq!(texture.s_wrap, WrapMode::Repeat);
    texture.set_wrap(Coordinate::S, WrapMode::ClampToEdge);
    assert_eq!(texture.s_wrap, WrapMode::ClampToEdge);
    assert_eq!(texture.t_wrap, WrapMode::Repeat);
    texture.set_wrap(Coordinate::T, WrapMode::ClampToEdge);
    assert_eq!(texture.t_wrap, WrapMode::ClampToEdge);
    assert_eq!(state.textures_created(), 1);
}

#[test]
fn framebuffer_keeps_its_attachments() {
    let mut state = PipelineState::new();
    let texture = GpuTexture::new(
        &mut state,
        GpuTextureKind::Rectangle { width: 8, height: 8 },
        PixelKind::RGBA8,
        MinificationFilter::Nearest,
        MagnificationFilter::Nearest,
        1,
    )
    .unwrap();
    let fb = FrameBuffer::new(
        &mut state,
        None,
        vec![Attachment { kind: AttachmentKind::Color, texture }],
    )
    .unwrap();
    assert_eq!(fb.color_attachments().len(), 1);
    assert_eq!(fb.color_attachments()[0].texture, texture);
    assert_eq!(state.framebuffers_created(), 1);
}

#[test]
fn shader_set_compiles_one_program_per_pass() {
    let mut state = PipelineState::new();
    let draw_parameters = DrawParameters { cull_face: None, depth_write: true, depth_test: true };
    let shader = Shader {
        definition: ShaderDefinition {
            name: "Standard".to_owned(),
            passes: vec![
                RenderPassDefinition {
                    name: "Forward".to_owned(),
                    vertex_shader: "uniform mat4 worldViewProjection;".to_owned(),
                    fragment_shader: "uniform sampler2D diffuseTexture;".to_owned(),
                    draw_parameters,
                },
                RenderPassDefinition {
                    name: "Shadow".to_owned(),
                    vertex_shader: "uniform mat4 worldViewProjection;".to_owned(),
                    fragment_shader: "".to_owned(),
                    draw_parameters,
                },
            ],
        },
    };
    let set = ShaderSet::new(&mut state, &shader).unwrap();
    assert_eq!(state.programs_created(), 2);
    assert_eq!(set.render_passes.len(), 2);
    assert_eq!(set.render_passes[0].name, "Forward");
    assert_eq!(set.render_passes[0].data.program.name(), "Standard_Forward");
    assert_eq!(set.render_passes[1].data.program.name(), "Standard_Shadow");
    assert_eq!(set.render_passes[1].data.draw_params, draw_parameters);
}

#[test]
fn program_records_name_and_sources() {
    let mut state = PipelineState::new();
    let program =
        GpuProgram::from_source(&mut state, "Probe", "uniform mat4 m;", "uniform vec2 v;").unwrap();
    assert_eq!(program.name(), "Probe");
    let loc = program.uniform_location("m").unwrap();
    assert_eq!(loc.program(), "Probe");
    assert_eq!(loc.name(), "m");
}

#[test]
fn pipeline_statistics_accumulate_and_subtract() {
    let mut a = PipelineStatistics::new();
    let b = PipelineStatistics {
        texture_binding_changes: 3,
        vbo_binding_changes: 1,
        vao_binding_changes: 4,
        blend_state_changes: 1,
        framebuffer_binding_changes: 5,
        program_binding_changes: 9,
    };
    a.add_assign(b);
    a.add_assign(b);
    assert_eq!(a.texture_binding_changes, 6);
    assert_eq!(a.program_binding_changes, 18);
    let d = a.sub(b);
    assert_eq!(d, b);
}

#[test]
fn render_pass_statistics_count_draw_calls() {
    let mut stats = RenderPassStatistics::new();
    stats.add_draw_call(DrawCallStatistics { triangles: 100 });
    stats.add_draw_call(DrawCallStatistics { triangles: 20 });
    assert_eq!(stats.draw_calls, 2);
    assert_eq!(stats.triangles_rendered, 120);
    let mut total = RenderPassStatistics::new();
    total.add_assign(stats);
    total.add_assign(stats);
    assert_eq!(total.draw_calls, 4);
    assert_eq!(total.triangles_rendered, 240);
}

#[test]
fn lighting_statistics_accumulate() {
    let mut a = LightingStatistics::new();
    let b = LightingStatistics {
        point_lights_rendered: 2,
        point_shadow_maps_rendered: 1,
        csm_rendered: 3,
        spot_lights_rendered: 4,
        spot_shadow_maps_rendered: 5,
        directional_lights_rendered: 6,
    };
    a.add_assign(b);
    assert_eq!(a, b);
}

#[test]
fn scene_statistics_route_draw_calls_to_geometry() {
    let mut scene = SceneStatistics::new();
    scene.add_draw_call(DrawCallStatistics { triangles: 12 });
    assert_eq!(scene.geometry.draw_calls, 1);
    assert_eq!(scene.geometry.triangles_rendered, 12);
    assert_eq!(scene.pipeline, PipelineStatistics::new());
}

#[test]
fn tiles_carry_position_and_definition() {
    let tile = Tile::new(TilePosition { x: -3, y: 7 }, 42);
    assert_eq!(tile.position.x, -3);
    assert_eq!(tile.position.y, 7);
    assert_eq!(tile.definition_index, 42);
    let default_tile = Tile::default();
    assert_eq!(default_tile.position, TilePosition::default());
    assert_eq!(default_tile.definition_index, 0);
}

#[test]
fn scene_statistics_accumulate_each_kind() {
    let mut scene = SceneStatistics::new();
    scene.add_render_pass(RenderPassStatistics { draw_calls: 3, triangles_rendered: 30 });
    scene.add_lighting(LightingStatistics {
        point_lights_rendered: 1,
        point_shadow_maps_rendered: 0,
        csm_rendered: 0,
        spot_lights_rendered: 2,
        spot_shadow_maps_rendered: 0,
        directional_lights_rendered: 1,
    });
    scene.add_pipeline(PipelineStatistics {
        texture_binding_changes: 7,
        vbo_binding_changes: 0,
        vao_binding_changes: 0,
        blend_state_changes: 0,
        framebuffer_binding_changes: 0,
        program_binding_changes: 2,
    });
    assert_eq!(scene.geometry.draw_calls, 3);
    assert_eq!(scene.geometry.triangles_rendered, 30);
    assert_eq!(scene.lighting.spot_lights_rendered, 2);
    assert_eq!(scene.pipeline.texture_binding_changes, 7);
}
