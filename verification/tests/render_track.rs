use gpu_shell::state::adapter_request_options;
use gpu_shell::state::create_compute_pipeline;
use gpu_shell::state::create_render_pipeline;
use gpu_shell::state::device_limit_profile;
use gpu_shell::state::fragment_entry_point;
use gpu_shell::state::vertex_entry_point;
use gpu_shell::state::BlendMode;
use gpu_shell::state::ClearColor;
use gpu_shell::state::CullMode;
use gpu_shell::state::Error;
use gpu_shell::state::FrontFace;
use gpu_shell::state::LimitProfile;
use gpu_shell::state::Negotiation;
use gpu_shell::state::PhysicalSize;
use gpu_shell::state::PolygonMode;
use gpu_shell::state::PresentMode;
use gpu_shell::state::PrimitiveTopology;
use gpu_shell::state::RenderCommand;
use gpu_shell::state::State;
use gpu_shell::state::SurfaceError;
use gpu_shell::state::TextureFormat;
use gpu_shell::vertex::vertex_layout_desc;
use gpu_shell::vertex::vertices;
use gpu_shell::vertex::VertexFormat;
use gpu_shell::vertex::VertexStepMode;
use gpu_shell::DEFAULT_CANVAS_HEIGHT;
use gpu_shell::DEFAULT_CANVAS_WIDTH;

fn browser_default_state() -> State {
    State::new(
        PhysicalSize { width: DEFAULT_CANVAS_WIDTH, height: DEFAULT_CANVAS_HEIGHT },
        TextureFormat { id: 7 },
        Negotiation { adapter_available: true, device_error: None },
    )
    .unwrap()
}

#[test]
fn missing_adapter_is_terminal() {
    let r = State::new(
        PhysicalSize { width: 450, height: 400 },
        TextureFormat { id: 7 },
        Negotiation { adapter_available: false, device_error: None },
    );
    assert_eq!(r.unwrap_err(), Error::AdapterRequestError);
}

#[test]
fn device_rejection_carries_the_cause() {
    let r = State::new(
        PhysicalSize { width: 450, height: 400 },
        TextureFormat { id: 7 },
        Negotiation {
            adapter_available: true,
            device_error: Some(String::from("limit profile rejected")),
        },
    );
    assert_eq!(
        r.unwrap_err(),
        Error::DeviceRequestError(String::from("limit profile rejected"))
    );
}

#[test]
fn initial_configuration_matches_the_window() {
    let st = browser_default_state();
    assert_eq!(st.config.width, 450);
    assert_eq!(st.config.height, 400);
    assert_eq!(st.config.format, TextureFormat { id: 7 });
    assert_eq!(st.config.present_mode, PresentMode::Fifo);
    assert!(st.config.render_attachment);
}

#[test]
fn resize_with_a_zero_dimension_is_ignored() {
    let mut st = browser_default_state();
    st.resize(PhysicalSize { width: 0, height: 300 });
    assert_eq!(st.config.width, 450);
    assert_eq!(st.config.height, 400);
    st.resize(PhysicalSize { width: 300, height: 0 });
    assert_eq!(st.config.width, 450);
    assert_eq!(st.config.height, 400);
    assert_eq!(st.size, PhysicalSize { width: 450, height: 400 });
}

#[test]
fn resize_rewrites_the_configuration_in_place() {
    let mut st = browser_default_state();
    st.resize(PhysicalSize { width: 1280, height: 720 });
    assert_eq!(st.config.width, 1280);
    assert_eq!(st.config.height, 720);
    assert_eq!(st.size, PhysicalSize { width: 1280, height: 720 });
    assert_eq!(st.config.present_mode, PresentMode::Fifo);
}

#[test]
fn reconfigure_then_render_targets_the_new_size() {
    let mut st = browser_default_state();
    st.resize(PhysicalSize { width: 1024, height: 768 });
    let frame = st.render(None).unwrap();
    assert_eq!(frame.target_width, 1024);
    assert_eq!(frame.target_height, 768);
}

#[test]
fn first_frame_records_exactly_one_pass_one_bind_one_draw() {
    let mut st = browser_default_state();
    let frame = st.render(None).unwrap();
    assert_eq!(frame.target_width, 450);
    assert_eq!(frame.target_height, 400);
    let clear = ClearColor { r_milli: 100, g_milli: 200, b_milli: 300, a_milli: 1000 };
    assert_eq!(frame.commands, vec![
        RenderCommand::BeginRenderPass { clear },
        RenderCommand::SetPipeline,
        RenderCommand::SetVertexBuffer { slot: 0 },
        RenderCommand::Draw {
            first_vertex: 0,
            vertex_count: 3,
            first_instance: 0,
            instance_count: 1,
        },
        RenderCommand::EndRenderPass,
    ]);
}

#[test]
fn acquisition_failures_pass_through_unchanged() {
    let mut st = browser_default_state();
    for err in [
        SurfaceError::Lost,
        SurfaceError::Outdated,
        SurfaceError::OutOfMemory,
        SurfaceError::Timeout,
    ] {
        assert_eq!(st.render(Some(err)).unwrap_err(), err);
    }
    assert_eq!(st.config.width, 450);
}

#[test]
fn adapter_options_prefer_the_surface() {
    let o = adapter_request_options();
    assert!(!o.prefer_high_performance);
    assert!(o.compatible_with_surface);
    assert!(!o.force_fallback_adapter);
}

#[test]
fn limit_profile_follows_the_target() {
    assert_eq!(device_limit_profile(true), LimitProfile::DownlevelWebgl2);
    assert_eq!(device_limit_profile(false), LimitProfile::Standard);
}

#[test]
fn render_pipeline_fixed_function_state() {
    let (desc, layout) = create_render_pipeline(TextureFormat { id: 7 });
    assert_eq!(desc.topology, PrimitiveTopology::TriangleList);
    assert_eq!(desc.front_face, FrontFace::Ccw);
    assert_eq!(desc.cull_mode, CullMode::Back);
    assert_eq!(desc.polygon_mode, PolygonMode::Fill);
    assert!(!desc.unclipped_depth);
    assert!(!desc.conservative);
    assert!(!desc.has_depth_stencil);
    assert_eq!(desc.sample_count, 1);
    assert_eq!(desc.sample_mask, u64::MAX);
    assert!(!desc.alpha_to_coverage);
    assert!(!desc.multiview);
    assert_eq!(desc.color_format, TextureFormat { id: 7 });
    assert_eq!(desc.blend, BlendMode::AlphaBlending);
    assert!(desc.write_mask_all);
    assert_eq!(layout, vertex_layout_desc());
}

#[test]
fn vertex_layout_feeds_two_float3_attributes() {
    let layout = vertex_layout_desc();
    assert_eq!(layout.array_stride, 24);
    assert_eq!(layout.step_mode, VertexStepMode::Vertex);
    assert_eq!(layout.position.offset, 0);
    assert_eq!(layout.position.shader_location, 0);
    assert_eq!(layout.position.format, VertexFormat::Float32x3);
    assert_eq!(layout.color.offset, 12);
    assert_eq!(layout.color.shader_location, 1);
    assert_eq!(layout.color.format, VertexFormat::Float32x3);
}

#[test]
fn static_geometry_is_one_triangle() {
    let v = vertices();
    assert_eq!(v.len(), 3);
    assert_eq!(v[0].py, 0.5f32.to_bits());
    assert_eq!(v[1].px, (-0.5f32).to_bits());
    assert_eq!(v[2].px, 0.5f32.to_bits());
}

#[test]
fn shader_entry_points_are_fixed() {
    assert_eq!(vertex_entry_point(), "vs_main");
    assert_eq!(fragment_entry_point(), "fs_main");
}

#[test]
fn compute_pipeline_labels_derive_from_the_name() {
    let d = create_compute_pipeline("rgba_pass");
    assert_eq!(d.label, "rgba_pass");
    assert_eq!(d.layout_label, "rgba_pass_layout");
    assert_eq!(d.entry_point, "main");
}

#[test]
fn device_rejection_converts_through_from() {
    let e = Error::from(String::from("no such device"));
    assert_eq!(e, Error::DeviceRequestError(String::from("no such device")));
}
