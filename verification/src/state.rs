//! The render track: device negotiation outcomes, surface configuration and
//! reconfiguration, the fixed-function render pipeline description, and the
//! per-frame command sequence with its error recovery.

use vstd::prelude::*;

use crate::vertex::VERTEX_COUNT;
use crate::vertex::VertexBufferLayout;
use crate::vertex::vertex_layout_desc;

verus! {

/// A construction-time failure of a GPU session. Both variants are terminal
/// for the owning session: the caller must abort initialization, there is no
/// retry path.
#[derive(Debug, PartialEq, Eq)]
pub enum Error {
    /// No compatible adapter could be found.
    AdapterRequestError,
    /// Device negotiation was rejected; carries the backend's rejection cause.
    DeviceRequestError(String),
}

impl core::convert::From<String> for Error {
    /// A device negotiation rejection converts into the session error that
    /// carries its cause.
    fn from(cause: String) -> (r: Self) {
        Error::DeviceRequestError(cause)
    }
}

impl vstd::std_specs::convert::FromSpecImpl<String> for Error {
    open spec fn obeys_from_spec() -> bool {
        true
    }

    open spec fn from_spec(cause: String) -> Self {
        Error::DeviceRequestError(cause)
    }
}

/// The outcome of the asynchronous instance → adapter → device negotiation,
/// as the backend observed it: whether an adapter was found, and the
/// backend's rejection cause if the device request failed.
pub struct Negotiation {
    pub adapter_available: bool,
    pub device_error: Option<String>,
}

/// Physical pixel dimensions of the window's drawable area.
#[derive(Clone, Copy, Debug, PartialEq, Eq, Structural)]
pub struct PhysicalSize {
    pub width: u32,
    pub height: u32,
}

/// How presentation of finished frames is paced.
#[derive(Clone, Copy, Debug, PartialEq, Eq, Structural)]
pub enum PresentMode {
    Immediate,
    Mailbox,
    Fifo,
}

/// The presentation format the adapter prefers for the surface; an opaque
/// identifier chosen by the backend.
#[derive(Clone, Copy, Debug, PartialEq, Eq, Structural)]
pub struct TextureFormat {
    pub id: u32,
}

/// The configuration of the presentable surface. Width and height are always
/// greater than zero while configured: resize requests with a zero dimension
/// are ignored and leave the prior configuration intact.
#[derive(Clone, Copy, Debug, PartialEq, Eq, Structural)]
pub struct SurfaceConfig {
    /// The surface's textures are used as render attachments.
    pub render_attachment: bool,
    pub format: TextureFormat,
    pub width: u32,
    pub height: u32,
    pub present_mode: PresentMode,
}

/// Adapter selection options: default power preference, compatibility with
/// the presentable surface, no software fallback.
#[derive(Clone, Copy, Debug, PartialEq, Eq, Structural)]
pub struct AdapterOptions {
    pub prefer_high_performance: bool,
    pub compatible_with_surface: bool,
    pub force_fallback_adapter: bool,
}

/// The options the render track requests its adapter with.
pub fn adapter_request_options() -> (o: AdapterOptions)
    ensures
        o == (AdapterOptions {
            prefer_high_performance: false,
            compatible_with_surface: true,
            force_fallback_adapter: false,
        }),
{
    AdapterOptions {
        prefer_high_performance: false,
        compatible_with_surface: true,
        force_fallback_adapter: false,
    }
}

/// The resource-limit profile a logical device is requested with.
#[derive(Clone, Copy, Debug, PartialEq, Eq, Structural)]
pub enum LimitProfile {
    /// The constrained profile for a browser-like sandboxed environment.
    DownlevelWebgl2,
    /// The default profile everywhere else.
    Standard,
}

/// The device request of the render track: no extra features, and the limit
/// profile that fits the target environment — constrained when running inside
/// a browser-like sandbox, the default profile otherwise.
pub fn device_limit_profile(web_target: bool) -> (p: LimitProfile)
    ensures
        web_target ==> p == LimitProfile::DownlevelWebgl2,
        !web_target ==> p == LimitProfile::Standard,
{
    if web_target {
        LimitProfile::DownlevelWebgl2
    } else {
        LimitProfile::Standard
    }
}

/// Primitive assembly of the vertex stream.
#[derive(Clone, Copy, Debug, PartialEq, Eq, Structural)]
pub enum PrimitiveTopology {
    PointList,
    LineList,
    TriangleList,
}

/// Which winding order counts as the front of a triangle.
#[derive(Clone, Copy, Debug, PartialEq, Eq, Structural)]
pub enum FrontFace {
    Ccw,
    Cw,
}

/// Which triangles are culled before rasterization.
#[derive(Clone, Copy, Debug, PartialEq, Eq, Structural)]
pub enum CullMode {
    Disabled,
    Front,
    Back,
}

/// How polygons are rasterized.
#[derive(Clone, Copy, Debug, PartialEq, Eq, Structural)]
pub enum PolygonMode {
    Fill,
    Line,
    Point,
}

/// How fragment output is combined with the color target.
#[derive(Clone, Copy, Debug, PartialEq, Eq, Structural)]
pub enum BlendMode {
    Replace,
    AlphaBlending,
}

/// The fixed-function state of the one render pipeline, as one validated
/// configuration value: triangle-list topology, counter-clockwise front face,
/// back-face culling, fill polygon mode, no depth/stencil, single-sample
/// multisampling with a full sample mask, a single color target in the
/// surface's format with a full write mask and standard alpha blending.
#[derive(Clone, Copy, Debug, PartialEq, Eq, Structural)]
pub struct RenderPipelineDesc {
    pub topology: PrimitiveTopology,
    pub front_face: FrontFace,
    pub cull_mode: CullMode,
    pub polygon_mode: PolygonMode,
    pub unclipped_depth: bool,
    pub conservative: bool,
    pub has_depth_stencil: bool,
    pub sample_count: u32,
    pub sample_mask: u64,
    pub alpha_to_coverage: bool,
    pub multiview: bool,
    pub color_format: TextureFormat,
    pub blend: BlendMode,
    pub write_mask_all: bool,
}

/// The fixed-function state of the render pipeline for a color target of the
/// given format.
pub open spec fn spec_render_pipeline_desc(format: TextureFormat) -> RenderPipelineDesc {
    RenderPipelineDesc {
        topology: PrimitiveTopology::TriangleList,
        front_face: FrontFace::Ccw,
        cull_mode: CullMode::Back,
        polygon_mode: PolygonMode::Fill,
        unclipped_depth: false,
        conservative: false,
        has_depth_stencil: false,
        sample_count: 1,
        sample_mask: 0xffff_ffff_ffff_ffff,
        alpha_to_coverage: false,
        multiview: false,
        color_format: format,
        blend: BlendMode::AlphaBlending,
        write_mask_all: true,
    }
}

/// The names of the two entry points of the render program.
pub fn vertex_entry_point() -> (s: &'static str)
    ensures
        s@ == "vs_main"@,
{
    "vs_main"
}

/// See [`vertex_entry_point`].
pub fn fragment_entry_point() -> (s: &'static str)
    ensures
        s@ == "fs_main"@,
{
    "fs_main"
}

/// Builds the fixed-function render pipeline description against the
/// surface's format, together with the layout of its one vertex buffer.
pub fn create_render_pipeline(format: TextureFormat) -> (r: (
    RenderPipelineDesc,
    VertexBufferLayout,
))
    ensures
        r.0 == spec_render_pipeline_desc(format),
        r.1 == crate::vertex::spec_vertex_layout_desc(),
{
    let desc = RenderPipelineDesc {
        topology: PrimitiveTopology::TriangleList,
        front_face: FrontFace::Ccw,
        cull_mode: CullMode::Back,
        polygon_mode: PolygonMode::Fill,
        unclipped_depth: false,
        conservative: false,
        has_depth_stencil: false,
        sample_count: 1,
        sample_mask: 0xffff_ffff_ffff_ffff,
        alpha_to_coverage: false,
        multiview: false,
        color_format: format,
        blend: BlendMode::AlphaBlending,
        write_mask_all: true,
    };
    (desc, vertex_layout_desc())
}

/// Labels and entry point of the one compute pipeline: the layout label is
/// the pipeline's name with `_layout` appended, and the program's entry point
/// is named `main`.
pub struct ComputePipelineDesc {
    pub label: String,
    pub layout_label: String,
    pub entry_point: String,
}

/// Builds the compute pipeline description for a pipeline of the given name.
pub fn create_compute_pipeline(name: &str) -> (d: ComputePipelineDesc)
    ensures
        d.label@ == name@,
        d.layout_label@ == name@ + "_layout"@,
        d.entry_point@ == "main"@,
{
    let mut layout_label = String::new();
    layout_label.append(name);
    layout_label.append("_layout");
    ComputePipelineDesc {
        label: String::from_str(name),
        layout_label,
        entry_point: String::from_str("main"),
    }
}

/// The fixed background color a frame is cleared to, each channel in
/// thousandths: red 0.100, green 0.200, blue 0.300, alpha 1.000.
#[derive(Clone, Copy, Debug, PartialEq, Eq, Structural)]
pub struct ClearColor {
    pub r_milli: u32,
    pub g_milli: u32,
    pub b_milli: u32,
    pub a_milli: u32,
}

/// The background color of every frame.
pub open spec fn spec_clear_color() -> ClearColor {
    ClearColor { r_milli: 100, g_milli: 200, b_milli: 300, a_milli: 1000 }
}

/// One recorded command of a frame's single render pass.
#[derive(Clone, Copy, Debug, PartialEq, Eq, Structural)]
pub enum RenderCommand {
    /// Begin the pass, clearing the color target to the given color and
    /// storing the result; no depth/stencil attachment.
    BeginRenderPass { clear: ClearColor },
    /// Bind the one render pipeline.
    SetPipeline,
    /// Bind the full vertex buffer to the given slot.
    SetVertexBuffer { slot: u32 },
    /// Draw `vertex_count` vertices starting at `first_vertex`, for
    /// `instance_count` instances starting at `first_instance`.
    Draw { first_vertex: u32, vertex_count: u32, first_instance: u32, instance_count: u32 },
    /// End the pass.
    EndRenderPass,
}

/// The command sequence of one frame: exactly one render pass that clears to
/// the fixed background color, binds the pipeline, binds the vertex buffer,
/// and issues one draw over the full static vertex range, single instance.
pub open spec fn spec_frame_commands(num_vertices: u32) -> Seq<RenderCommand> {
    seq![
        RenderCommand::BeginRenderPass { clear: spec_clear_color() },
        RenderCommand::SetPipeline,
        RenderCommand::SetVertexBuffer { slot: 0 },
        RenderCommand::Draw {
            first_vertex: 0,
            vertex_count: num_vertices,
            first_instance: 0,
            instance_count: 1,
        },
        RenderCommand::EndRenderPass,
    ]
}

/// Why acquiring the next presentable target failed, as the surface reported
/// it. `Lost`, `Outdated` and `Timeout` are recoverable and never escape the
/// frame loop; `OutOfMemory` is fatal and terminates it.
#[derive(Clone, Copy, Debug, PartialEq, Eq, Structural)]
pub enum SurfaceError {
    Lost,
    Outdated,
    OutOfMemory,
    Timeout,
}

/// One frame ready for submission: the size of the acquired presentable
/// target — the size the surface is configured with — and the recorded
/// command sequence.
#[derive(Debug)]
pub struct FrameOutput {
    pub target_width: u32,
    pub target_height: u32,
    pub commands: Vec<RenderCommand>,
}

/// The render track's state: the surface configuration, the last known
/// window size, the fixed-function pipeline, and the static vertex count.
/// The pipeline and the vertex count are immutable after construction; the
/// configuration and size are rewritten only by [`State::resize`].
#[derive(Debug)]
pub struct State {
    pub config: SurfaceConfig,
    pub size: PhysicalSize,
    pub pipeline: RenderPipelineDesc,
    pub num_vertices: u32,
}

/// The surface configuration chosen at construction: render-attachment
/// usage, the adapter's preferred format, the window's dimensions, and
/// vertical-sync-locked presentation.
pub open spec fn spec_initial_config(size: PhysicalSize, format: TextureFormat) -> SurfaceConfig {
    SurfaceConfig {
        render_attachment: true,
        format,
        width: size.width,
        height: size.height,
        present_mode: PresentMode::Fifo,
    }
}

/// The size of the presentable target a frame renders to: exactly the size
/// the surface is configured with.
pub open spec fn spec_target_size(st: State) -> PhysicalSize {
    PhysicalSize { width: st.config.width, height: st.config.height }
}

/// The state after a resize request: dimensions with a zero component are
/// ignored — the prior configuration stays intact — and any other request
/// rewrites the stored size and the configuration's dimensions in place.
pub open spec fn spec_resize(st: State, new_size: PhysicalSize) -> State {
    if new_size.width > 0 && new_size.height > 0 {
        State {
            size: new_size,
            config: SurfaceConfig { width: new_size.width, height: new_size.height, ..st.config },
            ..st
        }
    } else {
        st
    }
}

impl State {
    /// Well-formedness: the configuration is presentable — nonzero target,
    /// render-attachment usage, vertical-sync-locked — it agrees with the
    /// last known size, the pipeline was built against the configured
    /// format, and the vertex count covers the static geometry.
    pub open spec fn wf(self) -> bool {
        &&& self.config.width > 0
        &&& self.config.height > 0
        &&& self.config.width == self.size.width
        &&& self.config.height == self.size.height
        &&& self.config.render_attachment
        &&& self.config.present_mode == PresentMode::Fifo
        &&& self.pipeline == spec_render_pipeline_desc(self.config.format)
        &&& self.num_vertices == VERTEX_COUNT
    }

    /// Builds the render track against a window of the given size from the
    /// outcome of the device negotiation: fails with `AdapterRequestError`
    /// when no adapter was found and with `DeviceRequestError` carrying the
    /// backend's cause when the device request was rejected; otherwise
    /// configures the surface with [`spec_initial_config`] and compiles the
    /// pipeline against the preferred format.
    pub fn new(size: PhysicalSize, format: TextureFormat, negotiation: Negotiation) -> (r: Result<
        State,
        Error,
    >)
        requires
            size.width > 0,
            size.height > 0,
        ensures
            !negotiation.adapter_available ==> r == Err::<State, Error>(
                Error::AdapterRequestError,
            ),
            negotiation.adapter_available ==> (negotiation.device_error matches Some(cause) ==> r
                == Err::<State, Error>(Error::DeviceRequestError(cause))),
            negotiation.adapter_available && negotiation.device_error is None ==> (r matches Ok(st)
                && st.wf() && st.config == spec_initial_config(size, format) && st.size == size
                && st.num_vertices == VERTEX_COUNT),
    {
        if !negotiation.adapter_available {
            return Err(Error::AdapterRequestError);
        }
        match negotiation.device_error {
            Some(cause) => Err(Error::from(cause)),
            None => {
                let config = SurfaceConfig {
                    render_attachment: true,
                    format,
                    width: size.width,
                    height: size.height,
                    present_mode: PresentMode::Fifo,
                };
                let (pipeline, _layout) = create_render_pipeline(format);
                Ok(State { config, size, pipeline, num_vertices: VERTEX_COUNT })
            },
        }
    }

    /// Rewrites the configured dimensions in place, unless either dimension
    /// of the request is zero — a transient minimized window — in which case
    /// the prior configuration is left unchanged. Reconfiguring invalidates
    /// any currently acquired but unpresented target.
    pub fn resize(&mut self, new_size: PhysicalSize)
        ensures
            *final(self) == spec_resize(*old(self), new_size),
            old(self).wf() ==> final(self).wf(),
    {
        if new_size.width > 0 && new_size.height > 0 {
            self.size = new_size;
            self.config.width = new_size.width;
            self.config.height = new_size.height;
        }
    }

    /// The render track consumes no input events itself; every event is left
    /// to the frame loop.
    pub fn input(&mut self, event: &crate::LoopEvent) -> (consumed: bool)
        ensures
            !consumed,
            *final(self) == *old(self),
    {
        let _ = event;
        false
    }

    /// Per-frame update: the static scene has nothing to advance.
    pub fn update(&mut self)
        ensures
            *final(self) == *old(self),
    {
    }

    /// One frame: given the outcome of acquiring the next presentable target
    /// — `None` when a target was acquired — records the frame's command
    /// sequence against that target, whose size is exactly the configured
    /// size. An acquisition failure is returned to the frame loop unchanged;
    /// nothing is recorded and no partial render occurs.
    pub fn render(&mut self, acquire_error: Option<SurfaceError>) -> (r: Result<
        FrameOutput,
        SurfaceError,
    >)
        ensures
            *final(self) == *old(self),
            acquire_error matches Some(e) ==> r == Err::<FrameOutput, SurfaceError>(e),
            acquire_error is None ==> (r matches Ok(f) && f.target_width == spec_target_size(
                *old(self),
            ).width && f.target_height == spec_target_size(*old(self)).height && f.commands@
                == spec_frame_commands(old(self).num_vertices)),
    {
        match acquire_error {
            Some(e) => Err(e),
            None => {
                let mut commands: Vec<RenderCommand> = Vec::new();
                commands.push(
                    RenderCommand::BeginRenderPass {
                        clear: ClearColor { r_milli: 100, g_milli: 200, b_milli: 300, a_milli: 1000 },
                    },
                );
                commands.push(RenderCommand::SetPipeline);
                commands.push(RenderCommand::SetVertexBuffer { slot: 0 });
                commands.push(
                    RenderCommand::Draw {
                        first_vertex: 0,
                        vertex_count: self.num_vertices,
                        first_instance: 0,
                        instance_count: 1,
                    },
                );
                commands.push(RenderCommand::EndRenderPass);
                proof {
                    assert(commands@ =~= spec_frame_commands(self.num_vertices));
                }
                Ok(
                    FrameOutput {
                        target_width: self.config.width,
                        target_height: self.config.height,
                        commands,
                    },
                )
            },
        }
    }
}

/// For every valid non-zero pair of dimensions, a reconfiguration followed by
/// a frame render produces a presentable target of exactly that size, and a
/// reconfiguration with either dimension zero leaves the prior configuration
/// unchanged.
pub proof fn lemma_reconfigure_then_render(st: State, new_size: PhysicalSize)
    ensures
        new_size.width > 0 && new_size.height > 0 ==> spec_target_size(spec_resize(st, new_size))
            == new_size,
        new_size.width == 0 || new_size.height == 0 ==> spec_resize(st, new_size) == st,
{
}

} // verus!
