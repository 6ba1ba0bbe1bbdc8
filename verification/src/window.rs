//! The single window: it covers the framebuffer, and passes input on to whoever registered for
//! it.

use crate::egl::EglWindow;
use crate::input::{no_modifiers, subset_of, Capslock, InputView, Modifiers, PlatformInput};
use crate::key::KeyView;
use crate::keyboard::{key_down_spec, key_up_spec, keystroke_spec};
use vstd::prelude::*;

verus! {

/// By which a display is known.
#[derive(Clone, Copy, Debug, PartialEq, Eq, Structural)]
pub struct DisplayId {
    pub id: u64,
}

/// `uuid::Uuid::nil` is the UUID with all bits zero; `Uuid::as_u128` gives its bits.
#[verifier::external_body]
fn nil_uuid() -> (bits: u128)
    ensures
        bits == 0,
{
    uuid::Uuid::nil().as_u128()
}

/// A point, in pixels.
#[derive(Clone, Copy, Debug, PartialEq, Eq, Structural)]
pub struct Point {
    pub x: u32,
    pub y: u32,
}

/// A size, in pixels.
#[derive(Clone, Copy, Debug, PartialEq, Eq, Structural)]
pub struct Size {
    pub width: u32,
    pub height: u32,
}

/// A rectangle, in pixels.
#[derive(Clone, Copy, Debug, PartialEq, Eq, Structural)]
pub struct Bounds {
    pub origin: Point,
    pub size: Size,
}

/// The framebuffer as a display.
#[derive(Clone, Copy, Debug, PartialEq, Eq, Structural)]
pub struct FbdevDisplay {
    pub width: u32,
    pub height: u32,
}

/// The rectangle that a display covers.
pub open spec fn display_bounds(display: FbdevDisplay) -> Bounds {
    Bounds {
        origin: Point { x: 0, y: 0 },
        size: Size { width: display.width, height: display.height },
    }
}

impl FbdevDisplay {
    /// A display of this size.
    pub fn new(width: u32, height: u32) -> (display: Self)
        ensures
            display == (FbdevDisplay { width, height }),
    {
        FbdevDisplay { width, height }
    }

    /// By which the display is known.
    pub fn id(&self) -> (id: DisplayId)
        ensures
            id == (DisplayId { id: 0 }),
    {
        DisplayId { id: 0 }
    }

    /// The bits of the display's UUID.
    pub fn uuid(&self) -> (bits: u128)
        ensures
            bits == 0,
    {
        nil_uuid()
    }

    /// The rectangle that the display covers.
    pub fn bounds(&self) -> (bounds: Bounds)
        ensures
            bounds == display_bounds(*self),
    {
        Bounds {
            origin: Point { x: 0, y: 0 },
            size: Size { width: self.width, height: self.height },
        }
    }
}

/// How frames are handed to the screen.
#[derive(Clone, Copy, Debug, PartialEq, Eq, Structural)]
pub enum PresentMode {
    Fifo,
    Mailbox,
    Immediate,
}

/// How the renderer's offscreen surface is made.
#[derive(Clone, Copy, Debug, PartialEq, Eq, Structural)]
pub struct SurfaceConfig {
    pub width: i32,
    pub height: i32,
    pub transparent: bool,
    pub preferred_present_mode: Option<PresentMode>,
}

/// A length in pixels as the signed number with the same bits.
pub open spec fn device_pixels(length: u32) -> int {
    if length <= i32::MAX {
        length as int
    } else {
        length - 0x1_0000_0000
    }
}

/// A length in pixels as the signed number with the same bits.
fn to_device_pixels(length: u32) -> (pixels: i32)
    ensures
        pixels == device_pixels(length),
{
    if length <= 0x7fff_ffff {
        length as i32
    } else {
        (length as i64 - 0x1_0000_0000) as i32
    }
}

/// The offscreen surface for an EGL window: as large as it, opaque, and with no preference for how
/// it is presented.
pub fn surface_config(egl: &EglWindow) -> (config: SurfaceConfig)
    ensures
        config.width == device_pixels(egl.width),
        config.height == device_pixels(egl.height),
        !config.transparent,
        config.preferred_present_mode is None,
{
    SurfaceConfig {
        width: to_device_pixels(egl.width),
        height: to_device_pixels(egl.height),
        transparent: false,
        preferred_present_mode: None,
    }
}

/// The offscreen surface of a window that is set up has the window's size, and that is not empty.
pub proof fn law_surface_is_as_large_as_the_window(egl: EglWindow)
    requires
        egl.wf(),
    ensures
        device_pixels(egl.width) == egl.width,
        device_pixels(egl.height) == egl.height,
        device_pixels(egl.width) >= 1,
        device_pixels(egl.height) >= 1,
{
}

/// Where a window is, and how it covers the display.
#[derive(Clone, Copy, Debug, PartialEq, Eq, Structural)]
pub enum WindowBounds {
    Windowed(Bounds),
    Maximized(Bounds),
    Fullscreen(Bounds),
}

/// The colors that a window is to be drawn in.
#[derive(Clone, Copy, Debug, PartialEq, Eq, Structural)]
pub enum WindowAppearance {
    Light,
    VibrantLight,
    Dark,
    VibrantDark,
}

/// What is behind a window's content.
#[derive(Clone, Copy, Debug, PartialEq, Eq, Structural)]
pub enum WindowBackgroundAppearance {
    Opaque,
    Transparent,
    Blurred,
}

/// The text that an input types when nothing handles it: the character of a key that goes down
/// with no modifier but shift held.
pub open spec fn typed_text(input: InputView) -> Option<Seq<char>> {
    match input {
        InputView::KeyDown { keystroke, .. } if subset_of(
            keystroke.modifiers,
            Modifiers { shift: true, ..no_modifiers() },
        ) => keystroke.key_char,
        _ => None,
    }
}

/// The text that an input types when nothing handles it.
pub fn text_to_type(input: &PlatformInput) -> (text: Option<String>)
    ensures
        match text {
            Some(text) => typed_text(input@) == Some(text@),
            None => typed_text(input@) is None,
        },
{
    match input {
        PlatformInput::KeyDown(event) => {
            if event.keystroke.modifiers.is_subset_of(&Modifiers::shift()) {
                match &event.keystroke.key_char {
                    Some(text) => Some(text.clone()),
                    None => None,
                }
            } else {
                None
            }
        },
        _ => None,
    }
}

/// The window, over its frame callback, its input callback and its text input handler. A callback
/// is not there while it runs.
#[derive(Debug)]
pub struct FbdevWindow<F, I, T> {
    pub display: FbdevDisplay,
    pub title: Option<String>,
    pub request_frame: Option<F>,
    pub input: Option<I>,
    pub input_handler: Option<T>,
}

/// What to do next with an input.
#[derive(Debug)]
pub enum InputStep<I, T> {
    /// Hand the input to the callback, then give the callback back.
    Call(I),
    /// Have the handler replace the selection by the text, then give the handler back.
    Insert { handler: T, text: String },
    /// Nothing.
    Done,
}

/// Whether an input that nothing handled is typed: then the handler is taken to insert the text,
/// and the window is left without it.
pub open spec fn is_typed<F, I, T>(
    before: FbdevWindow<F, I, T>,
    input: InputView,
    step: InputStep<I, T>,
    after: FbdevWindow<F, I, T>,
) -> bool {
    match (typed_text(input), before.input_handler) {
        (Some(typed), Some(taken)) => {
            &&& step matches InputStep::Insert { handler, text } && handler == taken && text@
                == typed
            &&& after == FbdevWindow { input_handler: None, ..before }
        },
        _ => step is Done && after == before,
    }
}

/// Whether handling an input starts with this step: the callback is taken to get it first, if
/// there is one, and the window is left without it.
pub open spec fn input_started<F, I, T>(
    before: FbdevWindow<F, I, T>,
    input: InputView,
    step: InputStep<I, T>,
    after: FbdevWindow<F, I, T>,
) -> bool {
    match before.input {
        Some(callback) => {
            &&& step == InputStep::<I, T>::Call(callback)
            &&& after == FbdevWindow { input: None, ..before }
        },
        None => is_typed(before, input, step, after),
    }
}

/// Whether handling an input goes on with this step after the callback returned: the window has
/// the callback again, and the input is typed only if it propagates.
pub open spec fn input_returned<F, I, T>(
    before: FbdevWindow<F, I, T>,
    callback: I,
    propagate: bool,
    input: InputView,
    step: InputStep<I, T>,
    after: FbdevWindow<F, I, T>,
) -> bool {
    let returned = FbdevWindow { input: Some(callback), ..before };
    if propagate {
        is_typed(returned, input, step, after)
    } else {
        step is Done && after == returned
    }
}

impl<F, I, T> FbdevWindow<F, I, T> {
    /// A window on the display, for which nobody has registered yet.
    pub fn new(display: FbdevDisplay) -> (window: Self)
        ensures
            window == (FbdevWindow::<F, I, T> {
                display,
                title: None,
                request_frame: None,
                input: None,
                input_handler: None,
            }),
    {
        FbdevWindow {
            display,
            title: None,
            request_frame: None,
            input: None,
            input_handler: None,
        }
    }

    /// Takes the callback that draws a frame, to call it.
    pub fn refresh(&mut self) -> (callback: Option<F>)
        ensures
            callback == old(self).request_frame,
            *final(self) == (FbdevWindow { request_frame: None, ..*old(self) }),
    {
        self.request_frame.take()
    }

    /// Gives the callback back after it drew a frame. One that was registered meanwhile gives way
    /// to it.
    pub fn refreshed(&mut self, callback: F)
        ensures
            *final(self) == (FbdevWindow { request_frame: Some(callback), ..*old(self) }),
    {
        self.request_frame = Some(callback);
    }

    /// Starts to handle an input: the callback gets it first, if there is one.
    pub fn handle_input(&mut self, input: &PlatformInput) -> (step: InputStep<I, T>)
        ensures
            input_started(*old(self), input@, step, *final(self)),
    {
        match self.input.take() {
            Some(callback) => InputStep::Call(callback),
            None => self.type_text(input),
        }
    }

    /// Goes on after the callback returned, with what it said: whether the input propagates. One
    /// that was registered meanwhile gives way to it.
    pub fn input_called(
        &mut self,
        callback: I,
        propagate: bool,
        input: &PlatformInput,
    ) -> (step: InputStep<I, T>)
        ensures
            input_returned(*old(self), callback, propagate, input@, step, *final(self)),
    {
        self.input = Some(callback);
        if !propagate {
            return InputStep::Done;
        }
        self.type_text(input)
    }

    /// Key presses nothing handled type their character into the focused text input.
    fn type_text(&mut self, input: &PlatformInput) -> (step: InputStep<I, T>)
        ensures
            is_typed(*old(self), input@, step, *final(self)),
    {
        match text_to_type(input) {
            Some(text) => match self.input_handler.take() {
                Some(handler) => InputStep::Insert { handler, text },
                None => InputStep::Done,
            },
            None => InputStep::Done,
        }
    }

    /// Gives the text input handler back after it inserted the text.
    pub fn text_inserted(&mut self, handler: T)
        ensures
            *final(self) == (FbdevWindow { input_handler: Some(handler), ..*old(self) }),
    {
        self.input_handler = Some(handler);
    }

    /// Registers the callback that draws a frame.
    pub fn on_request_frame(&mut self, callback: F)
        ensures
            *final(self) == (FbdevWindow { request_frame: Some(callback), ..*old(self) }),
    {
        self.request_frame = Some(callback);
    }

    /// Registers the callback that gets input.
    pub fn on_input(&mut self, callback: I)
        ensures
            *final(self) == (FbdevWindow { input: Some(callback), ..*old(self) }),
    {
        self.input = Some(callback);
    }

    /// Sets the handler of text input.
    pub fn set_input_handler(&mut self, input_handler: T)
        ensures
            *final(self) == (FbdevWindow { input_handler: Some(input_handler), ..*old(self) }),
    {
        self.input_handler = Some(input_handler);
    }

    /// Takes the handler of text input away.
    pub fn take_input_handler(&mut self) -> (input_handler: Option<T>)
        ensures
            input_handler == old(self).input_handler,
            *final(self) == (FbdevWindow { input_handler: None, ..*old(self) }),
    {
        self.input_handler.take()
    }

    /// Sets the title.
    pub fn set_title(&mut self, title: &str)
        ensures
            final(self).title matches Some(text) && text@ == title@,
            *final(self) == (FbdevWindow { title: final(self).title, ..*old(self) }),
    {
        self.title = Some(title.to_owned());
    }

    /// The title, empty if none was set.
    pub fn get_title(&self) -> (title: String)
        ensures
            title@ == match self.title {
                Some(text) => text@,
                None => seq![],
            },
    {
        match &self.title {
            Some(title) => title.clone(),
            None => String::new(),
        }
    }

    /// The window covers the display.
    pub fn bounds(&self) -> (bounds: Bounds)
        ensures
            bounds == display_bounds(self.display),
    {
        self.display.bounds()
    }

    /// The window is full-screen.
    pub fn window_bounds(&self) -> (bounds: WindowBounds)
        ensures
            bounds == WindowBounds::Fullscreen(display_bounds(self.display)),
    {
        WindowBounds::Fullscreen(self.bounds())
    }

    /// The size of what the window shows.
    pub fn content_size(&self) -> (size: Size)
        ensures
            size == (Size { width: self.display.width, height: self.display.height }),
    {
        self.bounds().size
    }

    /// The display that the window is on.
    pub fn display(&self) -> (display: Option<FbdevDisplay>)
        ensures
            display == Some(self.display),
    {
        Some(self.display)
    }

    pub fn is_maximized(&self) -> (maximized: bool)
        ensures
            !maximized,
    {
        false
    }

    pub fn is_fullscreen(&self) -> (fullscreen: bool)
        ensures
            fullscreen,
    {
        true
    }

    pub fn is_active(&self) -> (active: bool)
        ensures
            active,
    {
        true
    }

    /// There is no pointer to hover.
    pub fn is_hovered(&self) -> (hovered: bool)
        ensures
            !hovered,
    {
        false
    }

    pub fn is_subpixel_rendering_supported(&self) -> (supported: bool)
        ensures
            !supported,
    {
        false
    }

    /// There is no pointer; it counts as being in the corner.
    pub fn mouse_position(&self) -> (position: Point)
        ensures
            position == (Point { x: 0, y: 0 }),
    {
        Point { x: 0, y: 0 }
    }

    /// The window itself follows no modifiers; its input carries them.
    pub fn modifiers(&self) -> (modifiers: Modifiers)
        ensures
            modifiers == no_modifiers(),
    {
        Modifiers::default()
    }

    pub fn capslock(&self) -> (capslock: Capslock)
        ensures
            !capslock.on,
    {
        Capslock::default()
    }

    /// The window is drawn in dark colors.
    pub fn appearance(&self) -> (appearance: WindowAppearance)
        ensures
            appearance == WindowAppearance::Dark,
    {
        WindowAppearance::Dark
    }

    /// Nothing shows through the window.
    pub fn background_appearance(&self) -> (appearance: WindowBackgroundAppearance)
        ensures
            appearance == WindowBackgroundAppearance::Opaque,
    {
        WindowBackgroundAppearance::Opaque
    }
}

/// What a key types reaches the text input: a keystroke carries text only when no modifier but
/// shift is held, so none is held back for its modifiers. The function modifier, which no key
/// here sets, is left out.
pub proof fn law_keys_type_what_they_carry(modifiers: Modifiers, key: KeyView, is_held: bool)
    requires
        !modifiers.function,
    ensures
        typed_text(key_down_spec(modifiers, key, is_held)) == keystroke_spec(
            modifiers,
            key,
        ).key_char,
        typed_text(key_up_spec(modifiers, key)) is None,
{
}

/// Whether handling an input comes to this last step: `first` is how it starts, `called` the
/// window then, and the callback, if it is called, changes nothing in the window itself and says
/// whether the input propagates.
pub open spec fn input_handled<F, I, T>(
    window: FbdevWindow<F, I, T>,
    input: InputView,
    first: InputStep<I, T>,
    called: FbdevWindow<F, I, T>,
    propagate: bool,
    last: InputStep<I, T>,
    after: FbdevWindow<F, I, T>,
) -> bool {
    &&& input_started(window, input, first, called)
    &&& match first {
        InputStep::Call(callback) => input_returned(
            called,
            callback,
            propagate,
            input,
            last,
            after,
        ),
        _ => last == first && after == called,
    }
}

/// Handling an input leaves the window as it was, whether the callback stops the input or not,
/// once the callback and the handler that it took are given back, provided that they change
/// nothing themselves.
pub proof fn law_input_leaves_the_window_as_it_was<F, I, T>(
    window: FbdevWindow<F, I, T>,
    input: InputView,
    first: InputStep<I, T>,
    called: FbdevWindow<F, I, T>,
    propagate: bool,
    last: InputStep<I, T>,
    after: FbdevWindow<F, I, T>,
)
    requires
        input_handled(window, input, first, called, propagate, last, after),
    ensures
        match last {
            InputStep::Call(_) => false,
            InputStep::Insert { handler, .. } => window == FbdevWindow {
                input_handler: Some(handler),
                ..after
            },
            InputStep::Done => window == after,
        },
{
}

/// An input is typed exactly when it has text, there is a handler, and no callback stopped it;
/// then the window's handler inserts that text.
pub proof fn law_input_is_typed_unless_it_is_stopped<F, I, T>(
    window: FbdevWindow<F, I, T>,
    input: InputView,
    first: InputStep<I, T>,
    called: FbdevWindow<F, I, T>,
    propagate: bool,
    last: InputStep<I, T>,
    after: FbdevWindow<F, I, T>,
)
    requires
        input_handled(window, input, first, called, propagate, last, after),
    ensures
        last is Insert <==> typed_text(input) is Some && window.input_handler is Some && (
        window.input is None || propagate),
        last matches InputStep::Insert { handler, text } ==> window.input_handler == Some(handler)
            && typed_text(input) == Some(text@),
{
}

/// A display is as large as it was made, from the corner on, and is known as number 0 and by no
/// UUID.
pub proof fn law_displays_are_as_large_as_made(
    width: u32,
    height: u32,
    display: FbdevDisplay,
    bounds: Bounds,
    id: DisplayId,
    uuid: u128,
)
    requires
        call_ensures(FbdevDisplay::new, (width, height), display),
        call_ensures(FbdevDisplay::bounds, (&display,), bounds),
        call_ensures(FbdevDisplay::id, (&display,), id),
        call_ensures(FbdevDisplay::uuid, (&display,), uuid),
    ensures
        bounds.origin.x == 0 && bounds.origin.y == 0,
        bounds.size.width == width && bounds.size.height == height,
        id.id == 0,
        uuid == 0,
{
}

/// The offscreen surface has the sides of the EGL window, taken as signed numbers with the same
/// bits; it is opaque and prefers no way of being presented.
pub proof fn law_surfaces_keep_the_sides(egl: EglWindow, config: SurfaceConfig)
    requires
        call_ensures(surface_config, (&egl,), config),
    ensures
        config.width == egl.width || config.width == egl.width - 0x1_0000_0000,
        config.height == egl.height || config.height == egl.height - 0x1_0000_0000,
        !config.transparent,
        config.preferred_present_mode is None,
{
}

/// A window covers its display, all of it, full-screen.
pub proof fn law_windows_cover_their_display<F, I, T>(
    window: FbdevWindow<F, I, T>,
    bounds: Bounds,
    window_bounds: WindowBounds,
    size: Size,
    display: Option<FbdevDisplay>,
)
    requires
        call_ensures(FbdevWindow::<F, I, T>::bounds, (&window,), bounds),
        call_ensures(FbdevWindow::<F, I, T>::window_bounds, (&window,), window_bounds),
        call_ensures(FbdevWindow::<F, I, T>::content_size, (&window,), size),
        call_ensures(FbdevWindow::<F, I, T>::display, (&window,), display),
    ensures
        bounds.origin.x == 0 && bounds.origin.y == 0,
        bounds.size.width == window.display.width && bounds.size.height == window.display.height,
        window_bounds == WindowBounds::Fullscreen(bounds),
        size == bounds.size,
        display == Some(window.display),
{
}

/// Whatever has happened to a window, it is full-screen and active, and neither maximized nor
/// hovered; no pointer, no modifier and no caps lock is known; it is dark and opaque.
pub proof fn law_windows_stay_as_they_are<F, I, T>(
    window: FbdevWindow<F, I, T>,
    flags: (bool, bool, bool, bool, bool),
    position: Point,
    modifiers: Modifiers,
    capslock: Capslock,
    appearance: WindowAppearance,
    background: WindowBackgroundAppearance,
)
    requires
        call_ensures(FbdevWindow::<F, I, T>::is_maximized, (&window,), flags.0),
        call_ensures(FbdevWindow::<F, I, T>::is_fullscreen, (&window,), flags.1),
        call_ensures(FbdevWindow::<F, I, T>::is_active, (&window,), flags.2),
        call_ensures(FbdevWindow::<F, I, T>::is_hovered, (&window,), flags.3),
        call_ensures(
            FbdevWindow::<F, I, T>::is_subpixel_rendering_supported,
            (&window,),
            flags.4,
        ),
        call_ensures(FbdevWindow::<F, I, T>::mouse_position, (&window,), position),
        call_ensures(FbdevWindow::<F, I, T>::modifiers, (&window,), modifiers),
        call_ensures(FbdevWindow::<F, I, T>::capslock, (&window,), capslock),
        call_ensures(FbdevWindow::<F, I, T>::appearance, (&window,), appearance),
        call_ensures(FbdevWindow::<F, I, T>::background_appearance, (&window,), background),
    ensures
        flags == (false, true, true, false, false),
        position.x == 0 && position.y == 0,
        !modifiers.control && !modifiers.alt && !modifiers.shift && !modifiers.platform
            && !modifiers.function,
        !capslock.on,
        appearance == WindowAppearance::Dark,
        background == WindowBackgroundAppearance::Opaque,
{
}

/// A new window is on its display, and nobody has registered for anything.
pub proof fn law_new_windows_have_no_callbacks<F, I, T>(
    display: FbdevDisplay,
    window: FbdevWindow<F, I, T>,
)
    requires
        call_ensures(FbdevWindow::<F, I, T>::new, (display,), window),
    ensures
        window.display == display,
        window.title is None,
        window.request_frame is None && window.input is None && window.input_handler is None,
{
}

/// An input types the text that it carries exactly when it is a key going down, held or not, with
/// no modifier but shift.
pub proof fn law_key_presses_type_their_text(input: PlatformInput, text: Option<String>)
    requires
        call_ensures(text_to_type, (&input,), text),
    ensures
        match input {
            PlatformInput::KeyDown(event) => {
                let held = event.keystroke.modifiers;
                let shortcut = held.control || held.alt || held.platform || held.function;
                match (event.keystroke.key_char, text) {
                    (Some(carried), Some(text)) => !shortcut && text@ == carried@,
                    (Some(_), None) => shortcut,
                    (None, text) => text is None,
                }
            },
            _ => text is None,
        },
{
}

/// The input callback gets every input first, if there is one, and is away while it runs. Without
/// one, the text of the input, if it has any, is inserted by the text input handler, if there is
/// one, which is away meanwhile. Nothing else of the window changes.
pub proof fn law_callbacks_get_input_first<F, I, T>(
    window: &mut FbdevWindow<F, I, T>,
    input: PlatformInput,
    text: Option<String>,
    step: InputStep<I, T>,
)
    requires
        call_ensures(text_to_type, (&input,), text),
        call_ensures(FbdevWindow::<F, I, T>::handle_input, (window, &input), step),
    ensures
        match (old(window).input, text, old(window).input_handler) {
            (Some(callback), _, _) => {
                &&& step == InputStep::<I, T>::Call(callback)
                &&& *final(window) == (FbdevWindow { input: None, ..*old(window) })
            },
            (None, Some(text), Some(taken)) => {
                &&& step matches InputStep::Insert { handler, text: typed }
                &&& handler == taken && typed@ == text@
                &&& *final(window) == (FbdevWindow { input_handler: None, ..*old(window) })
            },
            _ => step is Done && *final(window) == *old(window),
        },
{
}

/// A callback that returns is there again. If it stops the input nothing follows; otherwise the
/// text of the input, if it has any, is inserted by the text input handler, if there is one.
pub proof fn law_callbacks_can_stop_input<F, I, T>(
    window: &mut FbdevWindow<F, I, T>,
    callback: I,
    propagate: bool,
    input: PlatformInput,
    text: Option<String>,
    step: InputStep<I, T>,
)
    requires
        call_ensures(text_to_type, (&input,), text),
        call_ensures(
            FbdevWindow::<F, I, T>::input_called,
            (window, callback, propagate, &input),
            step,
        ),
    ensures
        final(window).input == Some(callback),
        match (propagate, text, old(window).input_handler) {
            (true, Some(text), Some(taken)) => {
                &&& step matches InputStep::Insert { handler, text: typed }
                &&& handler == taken && typed@ == text@
                &&& final(window).input_handler is None
            },
            _ => step is Done && final(window).input_handler == old(window).input_handler,
        },
        final(window).display == old(window).display,
        final(window).title == old(window).title,
        final(window).request_frame == old(window).request_frame,
{
}

/// The callback that draws a frame is handed out once until it is given back or another is
/// registered.
pub proof fn law_frame_callbacks_are_handed_out_once<F, I, T>(
    window: &mut FbdevWindow<F, I, T>,
    callback: Option<F>,
)
    requires
        call_ensures(FbdevWindow::<F, I, T>::refresh, (window,), callback),
    ensures
        callback == old(window).request_frame,
        final(window).request_frame is None,
        *final(window) == (FbdevWindow { request_frame: None, ..*old(window) }),
{
}

/// A frame callback that is given back or registered is the window's, and nothing else changes.
pub proof fn law_frame_callbacks_are_kept<F, I, T>(
    window: &mut FbdevWindow<F, I, T>,
    callback: F,
)
    requires
        call_ensures(FbdevWindow::<F, I, T>::refreshed, (window, callback), ()) || call_ensures(
            FbdevWindow::<F, I, T>::on_request_frame,
            (window, callback),
            (),
        ),
    ensures
        *final(window) == (FbdevWindow { request_frame: Some(callback), ..*old(window) }),
{
}

/// An input callback that is registered is the window's, and nothing else changes.
pub proof fn law_input_callbacks_are_kept<F, I, T>(
    window: &mut FbdevWindow<F, I, T>,
    callback: I,
)
    requires
        call_ensures(FbdevWindow::<F, I, T>::on_input, (window, callback), ()),
    ensures
        *final(window) == (FbdevWindow { input: Some(callback), ..*old(window) }),
{
}

/// A text input handler that is set or given back is the window's, and nothing else changes.
pub proof fn law_input_handlers_are_kept<F, I, T>(
    window: &mut FbdevWindow<F, I, T>,
    handler: T,
)
    requires
        call_ensures(FbdevWindow::<F, I, T>::set_input_handler, (window, handler), ())
            || call_ensures(FbdevWindow::<F, I, T>::text_inserted, (window, handler), ()),
    ensures
        *final(window) == (FbdevWindow { input_handler: Some(handler), ..*old(window) }),
{
}

/// Taking the text input handler away gives it and leaves none, and nothing else changes.
pub proof fn law_input_handlers_are_taken_away<F, I, T>(
    window: &mut FbdevWindow<F, I, T>,
    handler: Option<T>,
)
    requires
        call_ensures(FbdevWindow::<F, I, T>::take_input_handler, (window,), handler),
    ensures
        handler == old(window).input_handler,
        *final(window) == (FbdevWindow { input_handler: None, ..*old(window) }),
{
}

/// The title that a window was given is the title that it tells, whole, whatever it was before.
pub proof fn law_titles_are_told_as_given<F, I, T>(
    window: &mut FbdevWindow<F, I, T>,
    title: &str,
    told: String,
)
    requires
        call_ensures(FbdevWindow::<F, I, T>::set_title, (window, title), ()),
        call_ensures(FbdevWindow::<F, I, T>::get_title, (final(window),), told),
    ensures
        told@ == title@,
        final(window).display == old(window).display,
        final(window).request_frame == old(window).request_frame,
        final(window).input == old(window).input,
        final(window).input_handler == old(window).input_handler,
{
}

/// A window without a title tells an empty one.
pub proof fn law_missing_titles_are_empty<F, I, T>(window: FbdevWindow<F, I, T>, told: String)
    requires
        window.title is None,
        call_ensures(FbdevWindow::<F, I, T>::get_title, (&window,), told),
    ensures
        told@.len() == 0,
{
}

} // verus!
