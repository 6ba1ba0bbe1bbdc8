use gpui_fbdev::client::{
    after_reading, compositor_name, keyboard_layout, next_frame, FbdevClientState, FrameAction,
    PostAction, RequestFrameOptions, WindowError, FRAME_INTERVAL,
};
use gpui_fbdev::clock::{Clock, MAX_NANOS};
use gpui_fbdev::input::{
    Capslock, KeyDownEvent, KeyUpEvent, Keystroke, Modifiers, ModifiersChangedEvent, PlatformInput,
};
use gpui_fbdev::key::Key;
use gpui_fbdev::keyboard::REPEAT_DELAY;
use gpui_fbdev::platform::{current_platform, is_supported, Backend, Features};
use gpui_fbdev::window::{
    text_to_type, Bounds, DisplayId, FbdevDisplay, FbdevWindow, InputStep, Point, Size,
    WindowAppearance, WindowBackgroundAppearance, WindowBounds,
};

type Client = FbdevClientState<&'static str, &'static str, &'static str, u64>;
type Window = FbdevWindow<&'static str, &'static str, &'static str>;

fn client() -> Client {
    Client::new("loop", "egl", 640, 480)
}

fn refresh() -> FrameAction {
    FrameAction::Refresh(RequestFrameOptions { require_presentation: false, force_render: false })
}

fn window() -> Window {
    Window::new(FbdevDisplay::new(640, 480))
}

fn key_down(modifiers: Modifiers, text: Option<&str>) -> PlatformInput {
    PlatformInput::KeyDown(KeyDownEvent {
        keystroke: Keystroke {
            modifiers,
            key: "a".to_string(),
            key_char: text.map(|text| text.to_string()),
        },
        is_held: false,
        prefer_character_input: false,
    })
}

#[test]
fn frames_keep_their_cadence() {
    assert_eq!(FRAME_INTERVAL, 16_667_000);
    assert_eq!(next_frame(100, 99), 100);
    assert_eq!(next_frame(100, 100), 16_667_100);
    assert_eq!(next_frame(100, 16_667_099), 16_667_100);
    assert_eq!(next_frame(100, 16_667_100), 33_334_100);
    assert_eq!(next_frame(100, 1_000_000_000), 100 + 60 * 16_667_000);
}

#[test]
fn only_one_window_can_be_opened() {
    let mut client = client();
    assert_eq!(client.active_window(), None);
    assert_eq!(client.open_window(), Ok("egl"));
    client.window_opened("window", 7);
    assert_eq!(client.window, Some("window"));
    assert_eq!(client.active_window(), Some(7));
    let error = client.open_window().unwrap_err();
    assert_eq!(error, WindowError::SingleWindow);
    assert_eq!(error.message(), "The framebuffer platform can only show a single window");
}

#[test]
fn a_window_that_could_not_be_made_is_not_retried() {
    let mut client = client();
    assert!(client.open_window().is_ok());
    assert_eq!(client.open_window(), Err(WindowError::SingleWindow));
    assert_eq!(client.window, None);
}

#[test]
fn the_event_loop_runs_once() {
    let mut client = client();
    assert_eq!(client.run(), "loop");
    assert_eq!(client.event_loop, None);
}

#[test]
fn the_display_is_the_framebuffer() {
    let client = client();
    let display = FbdevDisplay { width: 640, height: 480 };
    assert_eq!(client.displays(), [display]);
    assert_eq!(client.primary_display(), Some(display));
    assert_eq!(client.display(DisplayId { id: 0 }), Some(display));
    assert_eq!(client.display(DisplayId { id: 1 }), None);
    assert_eq!(display.id(), DisplayId { id: 0 });
    assert_eq!(uuid::Uuid::from_u128(display.uuid()), uuid::Uuid::nil());
    assert_eq!(
        display.bounds(),
        Bounds { origin: Point { x: 0, y: 0 }, size: Size { width: 640, height: 480 } }
    );
    assert_eq!(keyboard_layout(), "unknown");
    assert_eq!(compositor_name(), "fbdev");
}

#[test]
fn input_goes_to_the_window() {
    let mut client = client();
    let events = || vec![key_down(Modifiers::default(), None), key_down(Modifiers::shift(), None)];
    assert_eq!(client.dispatch_input(events()), []);
    client.window_opened("window", 7);
    assert_eq!(client.dispatch_input(events()), events());
    assert_eq!(client.dispatch_input(Vec::new()), []);
}

#[test]
fn a_frame_brings_the_repeat_that_is_due() {
    let mut client = client();
    client.window_opened("window", 7);
    client.keyboard.press(Key::named("up"), true, 0, &mut Vec::new());
    assert_eq!(client.frame_tick(REPEAT_DELAY - 1), [refresh()]);
    let actions = client.frame_tick(REPEAT_DELAY);
    assert_eq!(actions.len(), 2);
    assert!(matches!(
        &actions[0],
        FrameAction::Input(PlatformInput::KeyDown(event)) if event.is_held
    ));
    assert_eq!(actions[1], refresh());
}

#[test]
fn a_repeat_without_a_window_is_lost() {
    let mut client = client();
    client.keyboard.press(Key::named("up"), true, 0, &mut Vec::new());
    assert!(client.frame_tick(REPEAT_DELAY).is_empty());
    client.window_opened("window", 7);
    assert_eq!(client.frame_tick(REPEAT_DELAY + 1), [refresh()]);
}

#[test]
fn a_device_that_fails_is_removed() {
    assert_eq!(after_reading(false), PostAction::Continue);
    assert_eq!(after_reading(true), PostAction::Remove);
}

#[test]
fn the_clock_goes_on() {
    let clock = Clock::started();
    let first = clock.elapsed();
    let mut second = clock.elapsed();
    while second == first {
        second = clock.elapsed();
    }
    assert!(first < second && second <= MAX_NANOS);
    assert_eq!(MAX_NANOS, std::time::Duration::MAX.as_nanos());
}

#[test]
fn the_callback_gets_input_first() {
    let mut window = window();
    window.on_input("callback");
    window.set_input_handler("handler");
    let input = key_down(Modifiers::default(), Some("a"));
    assert!(matches!(window.handle_input(&input), InputStep::Call("callback")));
    assert_eq!(window.input, None);
    assert!(matches!(window.input_called("callback", false, &input), InputStep::Done));
    assert_eq!(window.input, Some("callback"));
    assert_eq!(window.input_handler, Some("handler"));
}

#[test]
fn input_that_nothing_handles_is_typed() {
    let mut window = window();
    window.on_input("callback");
    window.set_input_handler("handler");
    let input = key_down(Modifiers::shift(), Some("A"));
    assert!(matches!(window.handle_input(&input), InputStep::Call("callback")));
    let InputStep::Insert { handler, text } = window.input_called("callback", true, &input) else {
        panic!("nothing was typed");
    };
    assert_eq!((handler, text.as_str()), ("handler", "A"));
    assert_eq!(window.input_handler, None);
    window.text_inserted(handler);
    assert_eq!(window.input_handler, Some("handler"));
    assert_eq!(window.input, Some("callback"));
}

#[test]
fn input_during_the_callback_goes_past_it() {
    let mut window = window();
    window.on_input("callback");
    window.set_input_handler("handler");
    let input = key_down(Modifiers::default(), Some("a"));
    assert!(matches!(window.handle_input(&input), InputStep::Call("callback")));
    assert!(matches!(
        window.handle_input(&input),
        InputStep::Insert { handler: "handler", text } if text == "a"
    ));
}

#[test]
fn without_a_handler_nothing_is_typed() {
    let mut window = window();
    let input = key_down(Modifiers::default(), Some("a"));
    assert!(matches!(window.handle_input(&input), InputStep::Done));
    window.set_input_handler("handler");
    let input = key_down(Modifiers::default(), None);
    assert!(matches!(window.handle_input(&input), InputStep::Done));
    assert_eq!(window.take_input_handler(), Some("handler"));
    assert_eq!(window.input_handler, None);
}

#[test]
fn only_key_presses_without_shortcuts_type() {
    let text = |modifiers| text_to_type(&key_down(modifiers, Some("a")));
    assert_eq!(text(Modifiers::default()), Some("a".to_string()));
    assert_eq!(text(Modifiers::shift()), Some("a".to_string()));
    assert_eq!(text(Modifiers { control: true, ..Modifiers::default() }), None);
    assert_eq!(text(Modifiers { function: true, ..Modifiers::default() }), None);
    let keystroke = Keystroke {
        modifiers: Modifiers::default(),
        key: "a".to_string(),
        key_char: Some("a".to_string()),
    };
    assert_eq!(text_to_type(&PlatformInput::KeyUp(KeyUpEvent { keystroke })), None);
    let changed = ModifiersChangedEvent {
        modifiers: Modifiers::default(),
        capslock: Capslock::default(),
    };
    assert_eq!(text_to_type(&PlatformInput::ModifiersChanged(changed)), None);
}

#[test]
fn the_frame_callback_is_away_while_it_runs() {
    let mut window = window();
    assert_eq!(window.refresh(), None);
    window.on_request_frame("frame");
    assert_eq!(window.refresh(), Some("frame"));
    assert_eq!(window.refresh(), None);
    window.on_request_frame("other");
    window.refreshed("frame");
    assert_eq!(window.refresh(), Some("frame"));
}

#[test]
fn the_title_is_kept() {
    let mut window = window();
    assert_eq!(window.get_title(), "");
    window.set_title("Caf\u{e9}");
    assert_eq!(window.get_title(), "Caf\u{e9}");
}

#[test]
fn the_window_covers_the_display() {
    let window = window();
    let display = FbdevDisplay::new(640, 480);
    assert_eq!(window.bounds(), display.bounds());
    assert_eq!(window.window_bounds(), WindowBounds::Fullscreen(display.bounds()));
    assert_eq!(window.content_size(), Size { width: 640, height: 480 });
    assert_eq!(window.display(), Some(display));
    assert!(window.is_fullscreen() && window.is_active());
    assert!(!window.is_maximized() && !window.is_hovered());
    assert!(!window.is_subpixel_rendering_supported());
    assert_eq!(window.mouse_position(), Point { x: 0, y: 0 });
    assert_eq!(window.modifiers(), Modifiers::default());
    assert_eq!(window.capslock(), Capslock { on: false });
    assert_eq!(window.appearance(), WindowAppearance::Dark);
    assert_eq!(window.background_appearance(), WindowBackgroundAppearance::Opaque);
}

#[test]
fn the_platform_follows_the_compositor() {
    let all = Features { wayland: true, x11: true, fbdev: true };
    let fbdev = Features { wayland: false, x11: false, fbdev: true };
    let servers = Features { wayland: true, x11: true, fbdev: false };
    assert_eq!(current_platform(true, "Wayland", false, all), Backend::Headless);
    assert_eq!(current_platform(false, "Wayland", false, all), Backend::Wayland);
    assert_eq!(current_platform(false, "X11", true, all), Backend::X11);
    assert_eq!(current_platform(false, "Headless", false, all), Backend::Fbdev);
    assert_eq!(current_platform(false, "Headless", true, all), Backend::Headless);
    assert_eq!(current_platform(false, "Headless", false, servers), Backend::Headless);
    assert!(is_supported(false, "Headless", false, fbdev));
    assert!(is_supported(true, "Wayland", false, fbdev));
    assert!(!is_supported(false, "Wayland", false, fbdev));
    assert!(!is_supported(false, "X11", false, fbdev));
    assert!(!is_supported(false, "Quartz", false, all));
}
