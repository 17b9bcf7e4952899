use render_resources::depth_state::{BufferUsages, DepthState, NUM_INDICES};
use render_resources::globals::{RenderTargetConfig, TextureFormat};
use render_resources::layout::{
    layout, BindGroupEntry, BindingResource, LayoutKind, SamplerId, TextureViewId,
};
use render_resources::lifetime::{Generations, Retired};
use render_resources::model::ModelVertex;
use render_resources::pipeline::{
    BlendState, ColorTargetState, ColorWrites, Face, FrontFace, IndexFormat, MultisampleState,
    PolygonMode, PrimitiveTopology, ShaderModuleId,
};
use render_resources::render_pass::{ColorAttachment, LoadOp, Operations, RenderCommand};
use render_resources::sampler::{AddressMode, FilterMode, SamplerDescriptor};
use render_resources::tx::Extent3d;

fn config(width: u32, height: u32) -> RenderTargetConfig {
    RenderTargetConfig { width, height, format: TextureFormat::Bgra8UnormSrgb }
}

fn entries(generation: u64) -> Vec<BindGroupEntry> {
    vec![
        BindGroupEntry {
            binding: 0,
            resource: BindingResource::TextureView(TextureViewId(generation)),
        },
        BindGroupEntry { binding: 1, resource: BindingResource::Sampler(SamplerId(0)) },
    ]
}

#[test]
fn new_depth_state_describes_the_depth_texture() {
    let state = DepthState::new(&config(640, 480), ShaderModuleId(9));
    let depth = state.depth_texture();
    assert_eq!(depth.texture.label.as_deref(), Some("depth_texture"));
    assert_eq!(depth.texture.size, Extent3d { width: 640, height: 480, depth_or_array_layers: 1 });
    assert_eq!(depth.texture.format, TextureFormat::Depth32Float);
    assert_eq!(state.depth_view(), TextureViewId(0));
    assert_eq!(state.buffers().current(), 0);
    assert_eq!(state.buffers().in_flight(), 0);
    assert!(state.buffers().retired().is_empty());
}

#[test]
fn new_depth_state_has_a_clamping_nearest_sampler() {
    let state = DepthState::new(&config(1, 1), ShaderModuleId(0));
    assert_eq!(
        *state.depth_sampler(),
        SamplerDescriptor {
            address_mode_u: AddressMode::ClampToEdge,
            address_mode_v: AddressMode::ClampToEdge,
            address_mode_w: AddressMode::ClampToEdge,
            mag_filter: FilterMode::Nearest,
            min_filter: FilterMode::Nearest,
            mipmap_filter: FilterMode::Nearest,
            lod_min_clamp: 0.0f32.to_bits(),
            lod_max_clamp: 100.0f32.to_bits(),
        }
    );
    assert_eq!(*state.depth_sampler(), SamplerDescriptor::depth());
}

#[test]
fn new_depth_state_binds_depth_view_and_sampler() {
    let state = DepthState::new(&config(8, 8), ShaderModuleId(0));
    assert_eq!(state.bind_group_layout().slots(), layout(LayoutKind::DepthVisualization).slots());
    assert_eq!(state.bind_group().label, "depth_vis_bind_group");
    assert_eq!(state.bind_group().entries, entries(0));
}

#[test]
fn quad_buffers_hold_four_corners_and_two_triangles() {
    let state = DepthState::new(&config(8, 8), ShaderModuleId(0));
    let corners: [[f32; 8]; 4] = [
        [0.0, 0.0, 0.0, 0.0, 1.0, 0.0, 0.0, 0.0],
        [1.0, 0.0, 0.0, 1.0, 1.0, 0.0, 0.0, 0.0],
        [1.0, 1.0, 0.0, 1.0, 0.0, 0.0, 0.0, 0.0],
        [0.0, 1.0, 0.0, 0.0, 0.0, 0.0, 0.0, 0.0],
    ];
    let mut vertices: Vec<u8> = Vec::new();
    for corner in corners {
        for value in corner {
            vertices.extend_from_slice(&value.to_ne_bytes());
        }
    }
    let vertex_buffer = state.vertex_buffer();
    assert_eq!(vertex_buffer.label, "Vertex Buffer");
    assert_eq!(vertex_buffer.usage, BufferUsages { vertex: true, index: false });
    assert_eq!(vertex_buffer.contents, vertices);
    assert_eq!(vertex_buffer.contents.len() as u64, 4 * ModelVertex::desc().array_stride);

    let mut indices: Vec<u8> = Vec::new();
    for index in [0u16, 1, 2, 0, 2, 3] {
        indices.extend_from_slice(&index.to_ne_bytes());
    }
    let index_buffer = state.index_buffer();
    assert_eq!(index_buffer.label, "Index Buffer");
    assert_eq!(index_buffer.usage, BufferUsages { vertex: false, index: true });
    assert_eq!(index_buffer.contents, indices);
    assert_eq!(state.num_indices(), 6);
    assert_eq!(NUM_INDICES, 6);
}

#[test]
fn depth_pipeline_replaces_colour_and_tests_no_depth() {
    let state = DepthState::new(&config(8, 8), ShaderModuleId(42));
    let p = state.pipeline();
    assert_eq!(p.label, "Depth Pass Render Pipeline");
    assert_eq!(p.layout_label, "Render Pipeline Layout");
    assert_eq!(p.shader, ShaderModuleId(42));
    assert_eq!(p.vertex_entry_point, "vs_main");
    assert_eq!(p.fragment_entry_point, "fs_main");
    assert_eq!(p.bind_group_layouts.len(), 1);
    assert_eq!(p.bind_group_layouts[0].slots(), layout(LayoutKind::DepthVisualization).slots());
    assert_eq!(p.buffers.len(), 1);
    assert_eq!(p.buffers[0].array_stride, 32);
    assert_eq!(p.buffers[0].attributes, ModelVertex::desc().attributes);
    assert_eq!(
        p.targets,
        vec![Some(ColorTargetState {
            format: TextureFormat::Bgra8UnormSrgb,
            blend: Some(BlendState::Replace),
            write_mask: ColorWrites { red: true, green: true, blue: true, alpha: true },
        })]
    );
    assert_eq!(p.primitive.topology, PrimitiveTopology::TriangleList);
    assert_eq!(p.primitive.strip_index_format, None);
    assert_eq!(p.primitive.front_face, FrontFace::Ccw);
    assert_eq!(p.primitive.cull_mode, Some(Face::Back));
    assert_eq!(p.primitive.polygon_mode, PolygonMode::Fill);
    assert!(!p.primitive.unclipped_depth);
    assert!(!p.primitive.conservative);
    assert_eq!(p.depth_stencil, None);
    assert_eq!(
        p.multisample,
        MultisampleState { count: 1, mask: !0, alpha_to_coverage_enabled: false }
    );
}

#[test]
fn resize_replaces_the_depth_texture_by_one_of_the_new_size() {
    let mut state = DepthState::new(&config(640, 480), ShaderModuleId(0));
    state.resize(&RenderTargetConfig {
        width: 1920,
        height: 1080,
        format: TextureFormat::Bgra8Unorm,
    });
    let depth = state.depth_texture();
    assert_eq!(
        depth.texture.size,
        Extent3d { width: 1920, height: 1080, depth_or_array_layers: 1 }
    );
    assert_eq!(depth.texture.format, TextureFormat::Depth32Float);
    assert_eq!(state.depth_view(), TextureViewId(1));
    assert_eq!(state.bind_group().entries, entries(1));
    assert_eq!(state.pipeline().targets[0].unwrap().format, TextureFormat::Bgra8Unorm);
}

#[test]
fn resize_retires_the_old_depth_texture_with_its_uses() {
    let mut state = DepthState::new(&config(640, 480), ShaderModuleId(0));
    state.build_render_pass(TextureViewId(70));
    state.build_render_pass(TextureViewId(71));
    assert_eq!(state.buffers().in_flight(), 2);
    state.resize(&config(100, 50));
    assert_eq!(state.buffers().current(), 1);
    assert_eq!(state.buffers().in_flight(), 0);
    assert_eq!(state.buffers().retired(), &vec![Retired { generation: 0, in_flight: 2 }]);
    assert!(state.buffers().is_live(0));
    assert!(state.buffers().is_live(1));
    assert!(!state.buffers().is_live(2));
}

#[test]
fn retired_depth_texture_lives_until_its_passes_complete() {
    let mut state = DepthState::new(&config(640, 480), ShaderModuleId(0));
    state.build_render_pass(TextureViewId(70));
    state.build_render_pass(TextureViewId(70));
    state.resize(&config(100, 50));
    assert!(state.release_retired().is_empty());
    assert!(state.buffers().is_live(0));
    assert!(state.pass_completed(0));
    assert!(state.release_retired().is_empty());
    assert!(state.buffers().is_live(0));
    assert!(state.pass_completed(0));
    assert!(!state.pass_completed(0));
    assert_eq!(state.release_retired(), vec![0]);
    assert!(!state.buffers().is_live(0));
    assert!(state.buffers().is_live(1));
    assert!(state.buffers().retired().is_empty());
    assert_eq!(state.bind_group().entries, entries(1));
}

#[test]
fn unused_depth_texture_is_released_at_once() {
    let mut state = DepthState::new(&config(4, 4), ShaderModuleId(0));
    state.resize(&config(5, 5));
    state.build_render_pass(TextureViewId(1));
    state.resize(&config(6, 6));
    state.resize(&config(7, 7));
    assert_eq!(
        state.buffers().retired(),
        &vec![
            Retired { generation: 0, in_flight: 0 },
            Retired { generation: 1, in_flight: 1 },
            Retired { generation: 2, in_flight: 0 },
        ]
    );
    assert_eq!(state.release_retired(), vec![0, 2]);
    assert_eq!(state.buffers().retired(), &vec![Retired { generation: 1, in_flight: 1 }]);
    assert_eq!(state.buffers().current(), 3);
    assert_eq!(state.depth_texture().texture.size.width, 7);
}

#[test]
fn completing_a_pass_that_was_never_recorded_changes_nothing() {
    let mut state = DepthState::new(&config(4, 4), ShaderModuleId(0));
    assert!(!state.pass_completed(0));
    assert!(!state.pass_completed(5));
    state.build_render_pass(TextureViewId(1));
    assert!(state.pass_completed(0));
    assert!(!state.pass_completed(0));
    assert_eq!(state.buffers().in_flight(), 0);
}

#[test]
fn depth_pass_loads_the_colour_and_draws_the_quad() {
    let mut state = DepthState::new(&config(640, 480), ShaderModuleId(0));
    let pass = state.build_render_pass(TextureViewId(77));
    assert_eq!(pass.label, "Depth Visualisation Render Pass");
    assert_eq!(
        pass.color_attachments,
        vec![Some(ColorAttachment {
            view: TextureViewId(77),
            resolve_target: None,
            ops: Operations { load: LoadOp::Load, store: true },
        })]
    );
    assert_eq!(pass.depth_stencil_attachment, None);
    assert_eq!(
        pass.commands,
        vec![
            RenderCommand::SetPipeline,
            RenderCommand::SetBindGroup { index: 0, generation: 0 },
            RenderCommand::SetVertexBuffer { slot: 0 },
            RenderCommand::SetIndexBuffer { format: IndexFormat::Uint16 },
            RenderCommand::DrawIndexed {
                first_index: 0,
                end_index: 6,
                base_vertex: 0,
                first_instance: 0,
                end_instance: 1,
            },
        ]
    );
    assert_eq!(state.buffers().in_flight(), 1);
}

#[test]
fn depth_pass_after_resize_uses_the_new_bind_group() {
    let mut state = DepthState::new(&config(640, 480), ShaderModuleId(0));
    state.resize(&config(320, 240));
    let pass = state.build_render_pass(TextureViewId(77));
    assert_eq!(pass.commands[1], RenderCommand::SetBindGroup { index: 0, generation: 1 });
}

#[test]
fn generations_start_with_one_unused_object() {
    let g = Generations::new();
    assert_eq!(g.current(), 0);
    assert_eq!(g.in_flight(), 0);
    assert!(g.retired().is_empty());
    assert!(g.is_live(0));
    assert!(!g.is_live(1));
}

#[test]
fn generations_count_uses_per_object() {
    let mut g = Generations::new();
    g.record_use();
    g.replace();
    g.record_use();
    g.record_use();
    g.replace();
    assert_eq!(g.current(), 2);
    assert_eq!(
        g.retired(),
        &vec![Retired { generation: 0, in_flight: 1 }, Retired { generation: 1, in_flight: 2 }]
    );
    assert!(g.complete(1));
    assert_eq!(
        g.retired(),
        &vec![Retired { generation: 0, in_flight: 1 }, Retired { generation: 1, in_flight: 1 }]
    );
    assert!(g.complete(0));
    assert_eq!(g.release(), vec![0]);
    assert!(!g.complete(0));
    assert!(!g.complete(2));
    assert!(g.complete(1));
    assert_eq!(g.release(), vec![1]);
    assert!(g.release().is_empty());
    assert_eq!(g.current(), 2);
    assert!(g.is_live(2));
    assert!(!g.is_live(3));
}
