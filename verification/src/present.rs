//! Showing a frame: the renderer draws into an offscreen texture, which is then copied into the
//! EGL default framebuffer.

use vstd::prelude::*;

verus! {

pub const GL_RGBA: u32 = 0x1908;

pub const GL_RGBA8: u32 = 0x8058;

pub const GL_UNSIGNED_BYTE: u32 = 0x1401;

/// The shader that copies a frame: a triangle that covers the framebuffer.
pub const PRESENT_SHADER: &'static str = r#"
struct VertexOutput {
    @builtin(position) position: vec4<f32>,
    @location(0) uv: vec2<f32>,
};

@vertex
fn vs_main(@builtin(vertex_index) vertex_index: u32) -> VertexOutput {
    var positions = array<vec2<f32>, 3>(
        vec2<f32>(-1.0, -1.0),
        vec2<f32>(3.0, -1.0),
        vec2<f32>(-1.0, 3.0),
    );
    let position = positions[vertex_index];
    var out: VertexOutput;
    out.position = vec4<f32>(position, 0.0, 1.0);
    // Drawing into the GL default framebuffer skips the vertical flip wgpu's own GL surface
    // presentation applies, so the frame is flipped here instead.
    out.uv = position * 0.5 + 0.5;
    return out;
}

@group(0) @binding(0) var source_texture: texture_2d<f32>;
@group(0) @binding(1) var source_sampler: sampler;

@fragment
fn fs_main(in: VertexOutput) -> @location(0) vec4<f32> {
    return textureSample(source_texture, source_sampler, in.uv);
}
"#;

/// The format of the texels of a texture.
#[derive(Clone, Copy, Debug, PartialEq, Eq, Structural)]
pub enum TextureFormat {
    Rgba8Unorm,
    Bgra8Unorm,
}

/// What a texture is used for.
#[derive(Clone, Copy, Debug, PartialEq, Eq, Structural)]
pub enum TextureUsage {
    RenderAttachment,
    TextureBinding,
}

/// How many dimensions a texture has.
#[derive(Clone, Copy, Debug, PartialEq, Eq, Structural)]
pub enum TextureDimension {
    D1,
    D2,
    D3,
}

/// The GL object that is imported as a texture.
#[derive(Clone, Copy, Debug, PartialEq, Eq, Structural)]
pub enum FramebufferSource {
    /// What the surface of the current context shows.
    DefaultRenderbuffer,
    /// A renderbuffer with this name.
    Renderbuffer(u32),
    /// A texture with this name.
    Texture(u32),
}

/// The EGL default framebuffer as a texture, which it can only be as an imported renderbuffer.
#[derive(Clone, Copy, Debug, PartialEq, Eq, Structural)]
pub struct Framebuffer {
    pub source: FramebufferSource,
    pub dimension: TextureDimension,
    pub width: u32,
    pub height: u32,
    pub depth: u32,
    pub mip_level_count: u32,
    pub array_layer_count: u32,
    pub sample_count: u32,
    pub format: TextureFormat,
    pub gl_internal: u32,
    pub gl_external: u32,
    pub gl_data_type: u32,
    pub usage: TextureUsage,
}

/// What a shader reads from a binding.
#[derive(Clone, Copy, Debug, PartialEq, Eq, Structural)]
pub enum BindingType {
    /// A texture of numbers, which may be `filterable`.
    Texture { filterable: bool, dimension: TextureDimension, multisampled: bool },
    /// A sampler, which may filter.
    Sampler { filtering: bool },
}

/// A stage of the pipeline that runs a shader.
#[derive(Clone, Copy, Debug, PartialEq, Eq, Structural)]
pub enum ShaderStage {
    Vertex,
    Fragment,
}

/// A binding that the pipeline has: one resource, or an array of `count`.
#[derive(Clone, Copy, Debug, PartialEq, Eq, Structural)]
pub struct LayoutEntry {
    pub binding: u32,
    pub visibility: ShaderStage,
    pub binding_type: BindingType,
    pub count: Option<u32>,
}

/// The pipeline that copies a frame.
#[derive(Clone, Copy, Debug, PartialEq)]
pub struct Pipeline {
    /// The shader, and its entry points.
    pub shader: &'static str,
    pub vertex_entry: &'static str,
    pub fragment_entry: &'static str,
    /// The format of what it draws.
    pub format: TextureFormat,
    /// Whether it blends with what is there.
    pub blend: bool,
    /// Whether it writes all of the channels.
    pub write_all: bool,
    /// How many vertex buffers it reads.
    pub vertex_buffers: u32,
    /// Whether it tests depth or stencil.
    pub depth_stencil: bool,
}

/// What is bound when a frame is copied.
#[derive(Clone, Copy, Debug, PartialEq, Eq, Structural)]
pub enum BindingResource {
    /// The texture that holds the frame.
    Frame,
    /// The presenter's sampler.
    Sampler,
}

/// A resource and the binding that it goes to.
#[derive(Clone, Copy, Debug, PartialEq, Eq, Structural)]
pub struct BindGroupEntry {
    pub binding: u32,
    pub resource: BindingResource,
}

/// Copies frames into the EGL default framebuffer.
#[derive(Clone, Copy, Debug, PartialEq)]
pub struct Presenter {
    pub framebuffer: Framebuffer,
    pub layout: [LayoutEntry; 2],
    pub pipeline: Pipeline,
}

/// A color, each channel from 0 for none of it to 255 for all of it.
#[derive(Clone, Copy, Debug, PartialEq, Eq, Structural)]
pub struct ClearColor {
    pub red: u8,
    pub green: u8,
    pub blue: u8,
    pub alpha: u8,
}

/// A command that copies a frame.
#[derive(Clone, Copy, Debug, PartialEq)]
pub enum PresentCommand {
    /// Makes a bind group for the pipeline's layout.
    CreateBindGroup { entries: [BindGroupEntry; 2] },
    /// Begins a pass on the framebuffer, which is first cleared to `clear`, or left as it is if
    /// there is none, and kept afterwards if `store` is set.
    BeginPass { clear: Option<ClearColor>, store: bool },
    SetPipeline,
    /// Binds the bind group as this one.
    SetBindGroup { index: u32 },
    /// Draws these vertices and instances, each from the first up to the second.
    Draw { vertices: (u32, u32), instances: (u32, u32) },
    EndPass,
    Submit,
}

/// The default framebuffer of this size.
pub open spec fn default_framebuffer(width: u32, height: u32) -> Framebuffer {
    Framebuffer {
        source: FramebufferSource::DefaultRenderbuffer,
        dimension: TextureDimension::D2,
        width,
        height,
        depth: 1,
        mip_level_count: 1,
        array_layer_count: 1,
        sample_count: 1,
        format: TextureFormat::Rgba8Unorm,
        gl_internal: GL_RGBA8,
        gl_external: GL_RGBA,
        gl_data_type: GL_UNSIGNED_BYTE,
        usage: TextureUsage::RenderAttachment,
    }
}

/// The bindings of the pipeline: the frame's texture, and a sampler for it.
pub open spec fn present_layout() -> Seq<LayoutEntry> {
    seq![
        LayoutEntry {
            binding: 0,
            visibility: ShaderStage::Fragment,
            binding_type: BindingType::Texture {
                filterable: true,
                dimension: TextureDimension::D2,
                multisampled: false,
            },
            count: None,
        },
        LayoutEntry {
            binding: 1,
            visibility: ShaderStage::Fragment,
            binding_type: BindingType::Sampler { filtering: true },
            count: None,
        },
    ]
}

/// The color that the framebuffer is cleared to.
pub open spec fn opaque_black() -> ClearColor {
    ClearColor { red: 0, green: 0, blue: 0, alpha: 255 }
}

/// What is bound when a frame is copied.
pub open spec fn present_entries() -> Seq<BindGroupEntry> {
    seq![
        BindGroupEntry { binding: 0, resource: BindingResource::Frame },
        BindGroupEntry { binding: 1, resource: BindingResource::Sampler },
    ]
}

impl Presenter {
    /// A presenter for a framebuffer of this size.
    pub fn new(width: u32, height: u32) -> (presenter: Self)
        ensures
            presenter.framebuffer == default_framebuffer(width, height),
            presenter.layout@ == present_layout(),
            presenter.pipeline.shader@ == PRESENT_SHADER@,
            presenter.pipeline.vertex_entry@ == "vs_main"@,
            presenter.pipeline.fragment_entry@ == "fs_main"@,
            presenter.pipeline.format == presenter.framebuffer.format,
            !presenter.pipeline.blend,
            presenter.pipeline.write_all,
            presenter.pipeline.vertex_buffers == 0,
            !presenter.pipeline.depth_stencil,
    {
        let format = TextureFormat::Rgba8Unorm;
        let layout = [
            LayoutEntry {
                binding: 0,
                visibility: ShaderStage::Fragment,
                binding_type: BindingType::Texture {
                    filterable: true,
                    dimension: TextureDimension::D2,
                    multisampled: false,
                },
                count: None,
            },
            LayoutEntry {
                binding: 1,
                visibility: ShaderStage::Fragment,
                binding_type: BindingType::Sampler { filtering: true },
                count: None,
            },
        ];
        assert(layout@ =~= present_layout());
        Presenter {
            framebuffer: Framebuffer {
                source: FramebufferSource::DefaultRenderbuffer,
                dimension: TextureDimension::D2,
                width,
                height,
                depth: 1,
                mip_level_count: 1,
                array_layer_count: 1,
                sample_count: 1,
                format,
                gl_internal: GL_RGBA8,
                gl_external: GL_RGBA,
                gl_data_type: GL_UNSIGNED_BYTE,
                usage: TextureUsage::RenderAttachment,
            },
            layout,
            pipeline: Pipeline {
                shader: PRESENT_SHADER,
                vertex_entry: "vs_main",
                fragment_entry: "fs_main",
                format,
                blend: false,
                write_all: true,
                vertex_buffers: 0,
                depth_stencil: false,
            },
        }
    }

    /// The commands that copy a frame: the framebuffer is cleared to opaque black, and one
    /// triangle covers it.
    pub fn present(&self) -> (commands: Vec<PresentCommand>)
        ensures
            commands@.len() == 7,
            commands@[0] matches PresentCommand::CreateBindGroup { entries } && entries@
                == present_entries(),
            commands@.skip(1) == seq![
                PresentCommand::BeginPass { clear: Some(opaque_black()), store: true },
                PresentCommand::SetPipeline,
                PresentCommand::SetBindGroup { index: 0 },
                PresentCommand::Draw { vertices: (0, 3), instances: (0, 1) },
                PresentCommand::EndPass,
                PresentCommand::Submit,
            ],
    {
        let entries = [
            BindGroupEntry { binding: 0, resource: BindingResource::Frame },
            BindGroupEntry { binding: 1, resource: BindingResource::Sampler },
        ];
        assert(entries@ =~= present_entries());
        let mut commands: Vec<PresentCommand> = Vec::new();
        commands.push(PresentCommand::CreateBindGroup { entries });
        let black = ClearColor { red: 0, green: 0, blue: 0, alpha: 255 };
        commands.push(PresentCommand::BeginPass { clear: Some(black), store: true });
        commands.push(PresentCommand::SetPipeline);
        commands.push(PresentCommand::SetBindGroup { index: 0 });
        commands.push(PresentCommand::Draw { vertices: (0, 3), instances: (0, 1) });
        commands.push(PresentCommand::EndPass);
        commands.push(PresentCommand::Submit);
        commands
    }
}

/// Whether a resource can be bound where a shader reads this.
pub open spec fn fits(resource: BindingResource, binding_type: BindingType) -> bool {
    match resource {
        BindingResource::Frame => binding_type is Texture,
        BindingResource::Sampler => binding_type is Sampler,
    }
}

/// What is bound is what the pipeline's layout asks for, binding by binding.
pub proof fn law_entries_fit_the_layout(i: int)
    requires
        0 <= i < present_layout().len(),
    ensures
        present_entries().len() == present_layout().len(),
        present_entries()[i].binding == present_layout()[i].binding,
        fits(present_entries()[i].resource, present_layout()[i].binding_type),
{
}

/// What has happened while a scene is drawn.
#[derive(Clone, Copy, Debug, PartialEq, Eq, Structural)]
pub enum DrawEvent {
    /// Drawing begins.
    Begin,
    /// The renderer was asked to draw the scene, and did or did not.
    Rendered { drawn: bool },
    /// The renderer was asked for the frame, and has it or not.
    Looked { found: bool },
    /// The frame was copied into the framebuffer.
    Presented,
    /// The framebuffer is shown.
    Swapped,
}

/// What to do next to draw a scene.
#[derive(Clone, Copy, Debug, PartialEq, Eq, Structural)]
pub enum DrawAction {
    Render,
    LookForFrame,
    Present,
    SwapBuffers,
    Stop,
}

/// What to do next to draw a scene: only a frame that was drawn is presented, and only one that
/// was presented is shown.
pub open spec fn next_action(event: DrawEvent) -> DrawAction {
    match event {
        DrawEvent::Begin => DrawAction::Render,
        DrawEvent::Rendered { drawn: true } => DrawAction::LookForFrame,
        DrawEvent::Looked { found: true } => DrawAction::Present,
        DrawEvent::Presented => DrawAction::SwapBuffers,
        _ => DrawAction::Stop,
    }
}

/// What to do next to draw a scene.
pub fn draw(event: DrawEvent) -> (action: DrawAction)
    ensures
        action == next_action(event),
{
    match event {
        DrawEvent::Begin => DrawAction::Render,
        DrawEvent::Rendered { drawn } => {
            if !drawn {
                return DrawAction::Stop;
            }
            DrawAction::LookForFrame
        },
        DrawEvent::Looked { found } => {
            if !found {
                return DrawAction::Stop;
            }
            DrawAction::Present
        },
        DrawEvent::Presented => DrawAction::SwapBuffers,
        DrawEvent::Swapped => DrawAction::Stop,
    }
}

/// What has happened once an action was performed, by a renderer that draws the scene or not and
/// has the frame or not. Nothing happens after the last action.
pub open spec fn performed(action: DrawAction, drawn: bool, found: bool) -> Option<DrawEvent> {
    match action {
        DrawAction::Render => Some(DrawEvent::Rendered { drawn }),
        DrawAction::LookForFrame => Some(DrawEvent::Looked { found }),
        DrawAction::Present => Some(DrawEvent::Presented),
        DrawAction::SwapBuffers => Some(DrawEvent::Swapped),
        DrawAction::Stop => None,
    }
}

/// How many events may still follow this one.
pub open spec fn events_left(event: DrawEvent) -> nat {
    match event {
        DrawEvent::Begin => 4,
        DrawEvent::Rendered { .. } => 3,
        DrawEvent::Looked { .. } => 2,
        DrawEvent::Presented => 1,
        DrawEvent::Swapped => 0,
    }
}

/// All that is done from this event on, each action decided by what came of the one before.
pub open spec fn draw_course(event: DrawEvent, drawn: bool, found: bool) -> Seq<DrawAction>
    decreases events_left(event),
{
    let action = next_action(event);
    match performed(action, drawn, found) {
        Some(event) => seq![action] + draw_course(event, drawn, found),
        None => seq![action],
    }
}

/// Drawing a scene always comes to an end. If the scene was drawn and its frame is there, the frame
/// is presented once and the framebuffer then shown once; otherwise neither happens.
pub proof fn law_drawn_frames_are_shown_once(drawn: bool, found: bool)
    ensures
        draw_course(DrawEvent::Begin, drawn, found) == if drawn && found {
            seq![
                DrawAction::Render,
                DrawAction::LookForFrame,
                DrawAction::Present,
                DrawAction::SwapBuffers,
                DrawAction::Stop,
            ]
        } else if drawn {
            seq![DrawAction::Render, DrawAction::LookForFrame, DrawAction::Stop]
        } else {
            seq![DrawAction::Render, DrawAction::Stop]
        },
{
    reveal_with_fuel(draw_course, 5);
}

/// The framebuffer is as large as asked for, whatever that is: one two-dimensional layer of eight
/// bits to a channel, which is drawn to. The pipeline draws in that format over all of the channels
/// and without blending.
pub proof fn law_presenters_draw_to_the_whole_framebuffer(
    width: u32,
    height: u32,
    presenter: Presenter,
)
    requires
        call_ensures(Presenter::new, (width, height), presenter),
    ensures
        ({
            let framebuffer = presenter.framebuffer;
            &&& framebuffer.width == width && framebuffer.height == height
            &&& framebuffer.depth == 1 && framebuffer.mip_level_count == 1
            &&& framebuffer.array_layer_count == 1 && framebuffer.sample_count == 1
            &&& framebuffer.source == FramebufferSource::DefaultRenderbuffer
            &&& framebuffer.dimension == TextureDimension::D2
            &&& framebuffer.usage == TextureUsage::RenderAttachment
            &&& framebuffer.format == TextureFormat::Rgba8Unorm
            &&& framebuffer.gl_internal == 0x8058 && framebuffer.gl_external == 0x1908
            &&& framebuffer.gl_data_type == 0x1401
        }),
        presenter.pipeline.format == presenter.framebuffer.format,
        !presenter.pipeline.blend && presenter.pipeline.write_all,
        presenter.pipeline.vertex_buffers == 0 && !presenter.pipeline.depth_stencil,
        presenter.pipeline.shader@ == PRESENT_SHADER@,
        presenter.pipeline.vertex_entry@ == "vs_main"@,
        presenter.pipeline.fragment_entry@ == "fs_main"@,
        presenter.layout@.len() == 2,
        forall|i: int|
            0 <= i < 2 ==> (#[trigger] presenter.layout@[i]).binding == i
                && presenter.layout@[i].visibility == ShaderStage::Fragment
                && presenter.layout@[i].count is None,
        presenter.layout@[0].binding_type == (BindingType::Texture {
            filterable: true,
            dimension: TextureDimension::D2,
            multisampled: false,
        }),
        presenter.layout@[1].binding_type == (BindingType::Sampler { filtering: true }),
{
}

/// Any frame is copied in one pass, whatever the presenter: the framebuffer is cleared to opaque
/// black and kept, the frame and the sampler are bound where the layout has them, and one triangle
/// is drawn before the pass ends and all of it is submitted.
pub proof fn law_frames_are_copied_in_one_pass(presenter: Presenter, commands: Vec<PresentCommand>)
    requires
        call_ensures(Presenter::present, (&presenter,), commands),
    ensures
        commands@.len() == 7,
        commands@[0] matches PresentCommand::CreateBindGroup { entries } && entries@[0] == (
        BindGroupEntry { binding: 0, resource: BindingResource::Frame }) && entries@[1] == (
        BindGroupEntry { binding: 1, resource: BindingResource::Sampler }),
        commands@[1] == (PresentCommand::BeginPass {
            clear: Some(ClearColor { red: 0, green: 0, blue: 0, alpha: 255 }),
            store: true,
        }),
        commands@[2] == PresentCommand::SetPipeline,
        commands@[3] == (PresentCommand::SetBindGroup { index: 0 }),
        commands@[4] == (PresentCommand::Draw { vertices: (0, 3), instances: (0, 1) }),
        commands@[5] == PresentCommand::EndPass,
        commands@[6] == PresentCommand::Submit,
{
    let rest = commands@.skip(1);
    assert(rest[0] == commands@[1] && rest[1] == commands@[2] && rest[2] == commands@[3]);
    assert(rest[3] == commands@[4] && rest[4] == commands@[5] && rest[5] == commands@[6]);
}

/// Drawing decides as the law on its course says.
pub proof fn law_drawing_takes_its_course(event: DrawEvent, action: DrawAction)
    requires
        call_ensures(draw, (event,), action),
    ensures
        action == next_action(event),
        action == DrawAction::Present <==> event == (DrawEvent::Looked { found: true }),
        action == DrawAction::SwapBuffers <==> event == DrawEvent::Presented,
{
}

/// What presents a frame is this shader, to the letter: its triangle covers the whole framebuffer,
/// and each point of it shows the frame at the same place, upside down.
pub proof fn law_frames_are_flipped_by_the_shader(width: u32, height: u32, presenter: Presenter)
    requires
        call_ensures(Presenter::new, (width, height), presenter),
    ensures
        presenter.pipeline.shader@ == r#"
struct VertexOutput {
    @builtin(position) position: vec4<f32>,
    @location(0) uv: vec2<f32>,
};

@vertex
fn vs_main(@builtin(vertex_index) vertex_index: u32) -> VertexOutput {
    var positions = array<vec2<f32>, 3>(
        vec2<f32>(-1.0, -1.0),
        vec2<f32>(3.0, -1.0),
        vec2<f32>(-1.0, 3.0),
    );
    let position = positions[vertex_index];
    var out: VertexOutput;
    out.position = vec4<f32>(position, 0.0, 1.0);
    // Drawing into the GL default framebuffer skips the vertical flip wgpu's own GL surface
    // presentation applies, so the frame is flipped here instead.
    out.uv = position * 0.5 + 0.5;
    return out;
}

@group(0) @binding(0) var source_texture: texture_2d<f32>;
@group(0) @binding(1) var source_sampler: sampler;

@fragment
fn fs_main(in: VertexOutput) -> @location(0) vec4<f32> {
    return textureSample(source_texture, source_sampler, in.uv);
}
"#@,
{
}

} // verus!
