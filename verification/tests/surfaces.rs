use gpui_fbdev::egl::{
    egl_error, get_proc_address, EglCall, EglReply, EglSetup, EglStage, EglStep, EglWindow,
};
use gpui_fbdev::present::{
    draw, BindGroupEntry, BindingResource, BindingType, ClearColor, DrawAction, DrawEvent,
    FramebufferSource, LayoutEntry, PresentCommand, Presenter, ShaderStage, TextureDimension,
    TextureFormat, TextureUsage, PRESENT_SHADER,
};
use gpui_fbdev::window::surface_config;

fn ok() -> EglReply {
    EglReply { status: 1, handle: 0, value: 0 }
}

fn made(handle: usize) -> EglReply {
    EglReply { status: 0, handle, value: 0 }
}

fn queried(value: i32) -> EglReply {
    EglReply { status: 1, handle: 0, value }
}

/// The replies of a setup that succeeds.
fn replies() -> Vec<EglReply> {
    vec![
        made(11),
        ok(),
        EglReply { status: 1, handle: 22, value: 1 },
        ok(),
        made(33),
        made(44),
        ok(),
        queried(640),
        queried(480),
        ok(),
    ]
}

/// The calls that are made, and how the setup ends.
fn run(replies: &[EglReply]) -> (Vec<EglCall>, EglStep) {
    let mut setup: EglSetup = EglWindow::new();
    let mut calls = Vec::new();
    for reply in replies {
        calls.push(setup.call());
        match setup.advance(*reply) {
            EglStep::Call(next) => setup = next,
            step => return (calls, step),
        }
    }
    panic!("the setup has not ended");
}

fn window() -> EglWindow {
    EglWindow { display: 11, surface: 33, context: 44, width: 640, height: 480 }
}

#[test]
fn a_window_is_set_up_call_by_call() {
    let (calls, step) = run(&replies());
    assert_eq!(step, EglStep::Ready { window: window(), vsync: true });
    assert_eq!(
        calls,
        [
            EglCall::GetDisplay,
            EglCall::Initialize { display: 11 },
            EglCall::ChooseConfig {
                display: 11,
                config_attributes: [
                    0x3033, 4, 0x3024, 8, 0x3023, 8, 0x3022, 8, 0x3021, 8, 0x3038
                ],
            },
            EglCall::BindApi { api: 0x30a0 },
            EglCall::CreateWindowSurface { display: 11, config: 22 },
            EglCall::CreateContext {
                display: 11,
                config: 22,
                context_attributes: [0x3098, 3, 0x3038],
            },
            EglCall::MakeCurrent { display: 11, draw: 33, read: 33, context: 44 },
            EglCall::QuerySurface { display: 11, surface: 33, attribute: 0x3057 },
            EglCall::QuerySurface { display: 11, surface: 33, attribute: 0x3056 },
            EglCall::SwapInterval { display: 11, interval: 1 },
        ]
    );
    assert_eq!(window().size(), (640, 480));
    assert_eq!(window().swap_buffers(), EglCall::SwapBuffers { display: 11, surface: 33 });
}

#[test]
fn a_window_has_at_least_one_pixel() {
    let mut replies = replies();
    replies[7] = queried(0);
    replies[8] = queried(-5);
    let (_, step) = run(&replies);
    assert!(matches!(step, EglStep::Ready { window, .. } if window.size() == (1, 1)));
}

#[test]
fn a_swap_interval_that_cannot_be_set_is_no_failure() {
    let mut replies = replies();
    replies[9] = made(0);
    assert_eq!(run(&replies).1, EglStep::Ready { window: window(), vsync: false });
}

#[test]
fn every_call_can_fail() {
    let names = [
        "eglGetDisplay",
        "eglInitialize",
        "eglChooseConfig",
        "eglBindAPI",
        "eglCreateWindowSurface",
        "eglCreateContext",
        "eglMakeCurrent",
        "eglQuerySurface",
        "eglQuerySurface",
    ];
    for (i, name) in names.iter().enumerate() {
        let mut replies = replies();
        replies[i] = made(0);
        let (calls, step) = run(&replies);
        assert_eq!(calls.len(), i + 1);
        let EglStep::Failed { stage, made } = step else {
            panic!("{name} did not fail");
        };
        assert_eq!(stage.name(), *name);
        assert_eq!(made.is_some(), i > 0);
    }
    assert_eq!(EglStage::SwapInterval.name(), "eglSwapInterval");
}

#[test]
fn choosing_no_config_fails() {
    let mut replies = replies();
    replies[2] = EglReply { status: 1, handle: 22, value: 0 };
    assert!(matches!(
        run(&replies).1,
        EglStep::Failed { stage: EglStage::ChooseConfig, made: Some(_) }
    ));
}

#[test]
fn teardown_undoes_what_was_made() {
    let release = EglCall::MakeCurrent { display: 11, draw: 0, read: 0, context: 0 };
    let context = EglCall::DestroyContext { display: 11, context: 44 };
    let surface = EglCall::DestroySurface { display: 11, surface: 33 };
    let terminate = EglCall::Terminate { display: 11 };
    let after = |failing: usize| {
        let mut replies = replies();
        replies[failing] = made(0);
        match run(&replies).1 {
            EglStep::Failed { made: Some(window), .. } => window.teardown(),
            _ => panic!("nothing to tear down"),
        }
    };
    assert_eq!(window().teardown(), [release, context, surface, terminate]);
    assert_eq!(after(6), [release, context, surface, terminate]);
    assert_eq!(after(5), [release, surface, terminate]);
    assert_eq!(after(4), [release, terminate]);
    assert_eq!(after(1), [release, terminate]);
}

#[test]
fn errors_tell_the_call_and_the_code() {
    assert_eq!(egl_error("eglInitialize", 0x3001), "eglInitialize failed with EGL error 0x3001");
    assert_eq!(egl_error("eglBindAPI", 0), "eglBindAPI failed with EGL error 0x0");
    assert_eq!(egl_error("x", -1), format!("x failed with EGL error {:#x}", -1i32));
    assert_eq!(egl_error("x", i32::MIN), "x failed with EGL error 0x80000000");
    assert_eq!(egl_error("x", 0xabcdef), "x failed with EGL error 0xabcdef");
}

#[test]
fn procedure_names_are_terminated() {
    assert_eq!(get_proc_address("glFlush"), Some(b"glFlush\0".to_vec()));
    assert_eq!(get_proc_address(""), Some(vec![0]));
    assert_eq!(get_proc_address("gl\0Flush"), None);
}

#[test]
fn the_offscreen_surface_has_the_size_of_the_window() {
    let config = surface_config(&window());
    assert_eq!((config.width, config.height), (640, 480));
    assert!(!config.transparent);
    assert_eq!(config.preferred_present_mode, None);
    let large = EglWindow { width: u32::MAX, height: 0x8000_0000, ..window() };
    let config = surface_config(&large);
    assert_eq!((config.width, config.height), (u32::MAX as i32, i32::MIN));
}

#[test]
fn the_presenter_draws_to_the_framebuffer() {
    let presenter = Presenter::new(640, 480);
    let framebuffer = presenter.framebuffer;
    assert_eq!(framebuffer.source, FramebufferSource::DefaultRenderbuffer);
    assert_eq!(framebuffer.dimension, TextureDimension::D2);
    assert_eq!((framebuffer.width, framebuffer.height, framebuffer.depth), (640, 480, 1));
    assert_eq!(framebuffer.mip_level_count, 1);
    assert_eq!(framebuffer.array_layer_count, 1);
    assert_eq!(framebuffer.sample_count, 1);
    assert_eq!(framebuffer.format, TextureFormat::Rgba8Unorm);
    assert_eq!(framebuffer.gl_internal, 0x8058);
    assert_eq!(framebuffer.gl_external, 0x1908);
    assert_eq!(framebuffer.gl_data_type, 0x1401);
    assert_eq!(framebuffer.usage, TextureUsage::RenderAttachment);
    assert_eq!(presenter.pipeline.format, framebuffer.format);
    assert_eq!(presenter.pipeline.vertex_entry, "vs_main");
    assert_eq!(presenter.pipeline.fragment_entry, "fs_main");
    assert!(!presenter.pipeline.blend && presenter.pipeline.write_all);
    assert_eq!(presenter.pipeline.vertex_buffers, 0);
    assert!(!presenter.pipeline.depth_stencil);
    assert_eq!(presenter.pipeline.shader, PRESENT_SHADER);
    for entry in [presenter.pipeline.vertex_entry, presenter.pipeline.fragment_entry] {
        assert!(presenter.pipeline.shader.contains(&format!("fn {entry}(")));
    }
    assert_eq!(
        presenter.layout,
        [
            LayoutEntry {
                binding: 0,
                visibility: ShaderStage::Fragment,
                binding_type: BindingType::Texture {
                    filterable: true,
                    dimension: TextureDimension::D2,
                    multisampled: false,
                },
                count: None,
            },
            LayoutEntry {
                binding: 1,
                visibility: ShaderStage::Fragment,
                binding_type: BindingType::Sampler { filtering: true },
                count: None,
            },
        ]
    );
}

#[test]
fn a_frame_is_copied_by_one_triangle() {
    assert_eq!(
        Presenter::new(640, 480).present(),
        [
            PresentCommand::CreateBindGroup {
                entries: [
                    BindGroupEntry { binding: 0, resource: BindingResource::Frame },
                    BindGroupEntry { binding: 1, resource: BindingResource::Sampler },
                ],
            },
            PresentCommand::BeginPass {
                clear: Some(ClearColor { red: 0, green: 0, blue: 0, alpha: 255 }),
                store: true,
            },
            PresentCommand::SetPipeline,
            PresentCommand::SetBindGroup { index: 0 },
            PresentCommand::Draw { vertices: (0, 3), instances: (0, 1) },
            PresentCommand::EndPass,
            PresentCommand::Submit,
        ]
    );
}

/// All that is done to draw a scene.
fn course(drawn: bool, found: bool) -> Vec<DrawAction> {
    let mut event = DrawEvent::Begin;
    let mut actions = Vec::new();
    loop {
        let action = draw(event);
        actions.push(action);
        event = match action {
            DrawAction::Render => DrawEvent::Rendered { drawn },
            DrawAction::LookForFrame => DrawEvent::Looked { found },
            DrawAction::Present => DrawEvent::Presented,
            DrawAction::SwapBuffers => DrawEvent::Swapped,
            DrawAction::Stop => return actions,
        };
    }
}

#[test]
fn a_drawn_frame_is_shown_once() {
    assert_eq!(
        course(true, true),
        [
            DrawAction::Render,
            DrawAction::LookForFrame,
            DrawAction::Present,
            DrawAction::SwapBuffers,
            DrawAction::Stop,
        ]
    );
    assert_eq!(
        course(true, false),
        [DrawAction::Render, DrawAction::LookForFrame, DrawAction::Stop]
    );
    assert_eq!(course(false, true), [DrawAction::Render, DrawAction::Stop]);
    assert_eq!(course(false, false), [DrawAction::Render, DrawAction::Stop]);
}

#[test]
fn only_frames_that_were_drawn_are_shown() {
    assert_eq!(draw(DrawEvent::Begin), DrawAction::Render);
    assert_eq!(draw(DrawEvent::Rendered { drawn: false }), DrawAction::Stop);
    assert_eq!(draw(DrawEvent::Rendered { drawn: true }), DrawAction::LookForFrame);
    assert_eq!(draw(DrawEvent::Looked { found: false }), DrawAction::Stop);
    assert_eq!(draw(DrawEvent::Looked { found: true }), DrawAction::Present);
    assert_eq!(draw(DrawEvent::Presented), DrawAction::SwapBuffers);
    assert_eq!(draw(DrawEvent::Swapped), DrawAction::Stop);
}
