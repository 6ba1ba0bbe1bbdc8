//! The EGL surface of the framebuffer: the calls that set it up and tear it down, for vendor
//! drivers (such as ARM's Mali fbdev blob) whose default native window is the Linux framebuffer
//! itself.

use crate::text::{append_hex, hex, hex_value, is_digit, law_hex_digits_stand_for_their_number};
use vstd::prelude::*;
use vstd::string::*;

verus! {

pub const EGL_TRUE: u32 = 1;

pub const EGL_NONE: i32 = 0x3038;

pub const EGL_RED_SIZE: i32 = 0x3024;

pub const EGL_GREEN_SIZE: i32 = 0x3023;

pub const EGL_BLUE_SIZE: i32 = 0x3022;

pub const EGL_ALPHA_SIZE: i32 = 0x3021;

pub const EGL_SURFACE_TYPE: i32 = 0x3033;

pub const EGL_WINDOW_BIT: i32 = 0x0004;

pub const EGL_WIDTH: i32 = 0x3057;

pub const EGL_HEIGHT: i32 = 0x3056;

pub const EGL_CONTEXT_CLIENT_VERSION: i32 = 0x3098;

pub const EGL_OPENGL_ES_API: u32 = 0x30A0;

/// A handle of EGL's, as the number of its address; 0 is none.
pub type Handle = usize;

/// A call into EGL.
#[derive(Clone, Copy, Debug, PartialEq)]
pub enum EglCall {
    /// Gets the display of the default native display.
    GetDisplay,
    Initialize { display: Handle },
    /// Chooses one config that has the attributes.
    ChooseConfig { display: Handle, config_attributes: [i32; 11] },
    BindApi { api: u32 },
    /// Creates a surface on the null native window, without attributes. Vendor fbdev drivers treat
    /// a null native window as the framebuffer itself.
    CreateWindowSurface { display: Handle, config: Handle },
    /// Creates a context that shares with none.
    CreateContext { display: Handle, config: Handle, context_attributes: [i32; 3] },
    MakeCurrent { display: Handle, draw: Handle, read: Handle, context: Handle },
    QuerySurface { display: Handle, surface: Handle, attribute: i32 },
    SwapInterval { display: Handle, interval: i32 },
    SwapBuffers { display: Handle, surface: Handle },
    DestroyContext { display: Handle, context: Handle },
    DestroySurface { display: Handle, surface: Handle },
    Terminate { display: Handle },
}

/// What a call into EGL came back with.
#[derive(Clone, Copy, Debug, PartialEq, Eq, Structural)]
pub struct EglReply {
    /// What the call returned, where it returns a boolean.
    pub status: u32,
    /// The display, surface or context that it returned, or the config that it chose.
    pub handle: Handle,
    /// The number of configs that it chose, or the value that it queried.
    pub value: i32,
}

/// An OpenGL ES 3 context rendering to the whole framebuffer. The context is current on the
/// thread that created it, which must be the thread that renders.
#[derive(Clone, Copy, Debug, PartialEq, Eq, Structural)]
pub struct EglWindow {
    pub display: Handle,
    pub surface: Handle,
    pub context: Handle,
    pub width: u32,
    pub height: u32,
}

/// The calls that set a window up, in order.
#[derive(Clone, Copy, Debug, PartialEq, Eq, Structural)]
pub enum EglStage {
    GetDisplay,
    Initialize,
    ChooseConfig,
    BindApi,
    CreateWindowSurface,
    CreateContext,
    MakeCurrent,
    QueryWidth,
    QueryHeight,
    SwapInterval,
}

/// A window that is being set up: the call to make next, and what has been made so far.
#[derive(Clone, Copy, Debug, PartialEq, Eq, Structural)]
pub struct EglSetup {
    pub stage: EglStage,
    pub window: EglWindow,
    pub config: Handle,
}

/// What comes of a reply while a window is being set up.
#[derive(Clone, Copy, Debug, PartialEq, Eq, Structural)]
pub enum EglStep {
    /// Go on with the next call.
    Call(EglSetup),
    /// The call failed. What was made of the window, if anything, is to be torn down.
    Failed { stage: EglStage, made: Option<EglWindow> },
    /// The window is ready. Presentation waits for the vertical blank if `vsync` is set.
    Ready { window: EglWindow, vsync: bool },
}

/// A window of which nothing has been made.
pub open spec fn no_window() -> EglWindow {
    EglWindow { display: 0, surface: 0, context: 0, width: 0, height: 0 }
}

/// What is asked of a config: a window surface with eight bits of each color and of alpha.
pub open spec fn config_attributes() -> Seq<i32> {
    seq![
        EGL_SURFACE_TYPE,
        EGL_WINDOW_BIT,
        EGL_RED_SIZE,
        8,
        EGL_GREEN_SIZE,
        8,
        EGL_BLUE_SIZE,
        8,
        EGL_ALPHA_SIZE,
        8,
        EGL_NONE,
    ]
}

/// What is asked of a context: version 3 of OpenGL ES.
pub open spec fn context_attributes() -> Seq<i32> {
    seq![EGL_CONTEXT_CLIENT_VERSION, 3, EGL_NONE]
}

/// Whether `call` is the call to make at this point.
pub open spec fn is_next_call(setup: EglSetup, call: EglCall) -> bool {
    let window = setup.window;
    match setup.stage {
        EglStage::GetDisplay => call == EglCall::GetDisplay,
        EglStage::Initialize => call == (EglCall::Initialize { display: window.display }),
        EglStage::ChooseConfig => call matches EglCall::ChooseConfig {
            display,
            config_attributes: attributes,
        } && display == window.display && attributes@ == config_attributes(),
        EglStage::BindApi => call == (EglCall::BindApi { api: EGL_OPENGL_ES_API }),
        EglStage::CreateWindowSurface => call == (EglCall::CreateWindowSurface {
            display: window.display,
            config: setup.config,
        }),
        EglStage::CreateContext => call matches EglCall::CreateContext {
            display,
            config,
            context_attributes: attributes,
        } && display == window.display && config == setup.config && attributes@
            == context_attributes(),
        EglStage::MakeCurrent => call == (EglCall::MakeCurrent {
            display: window.display,
            draw: window.surface,
            read: window.surface,
            context: window.context,
        }),
        EglStage::QueryWidth => call == (EglCall::QuerySurface {
            display: window.display,
            surface: window.surface,
            attribute: EGL_WIDTH,
        }),
        EglStage::QueryHeight => call == (EglCall::QuerySurface {
            display: window.display,
            surface: window.surface,
            attribute: EGL_HEIGHT,
        }),
        EglStage::SwapInterval => call == (EglCall::SwapInterval {
            display: window.display,
            interval: 1,
        }),
    }
}

/// A side of the window, of which EGL says that it is `queried` pixels long: at least one.
pub open spec fn side(queried: i32) -> u32 {
    if queried < 1 {
        1
    } else {
        queried as u32
    }
}

/// What comes of a reply.
pub open spec fn advanced(setup: EglSetup, reply: EglReply) -> EglStep {
    let window = setup.window;
    let ok = reply.status == EGL_TRUE;
    let failed = EglStep::Failed { stage: setup.stage, made: Some(window) };
    match setup.stage {
        EglStage::GetDisplay => if reply.handle == 0 {
            EglStep::Failed { stage: setup.stage, made: None }
        } else {
            EglStep::Call(
                EglSetup {
                    stage: EglStage::Initialize,
                    window: EglWindow { display: reply.handle, ..no_window() },
                    ..setup
                },
            )
        },
        EglStage::Initialize => if ok {
            EglStep::Call(EglSetup { stage: EglStage::ChooseConfig, ..setup })
        } else {
            failed
        },
        EglStage::ChooseConfig => if ok && reply.value != 0 {
            EglStep::Call(EglSetup { stage: EglStage::BindApi, config: reply.handle, ..setup })
        } else {
            failed
        },
        EglStage::BindApi => if ok {
            EglStep::Call(EglSetup { stage: EglStage::CreateWindowSurface, ..setup })
        } else {
            failed
        },
        EglStage::CreateWindowSurface => if reply.handle != 0 {
            EglStep::Call(
                EglSetup {
                    stage: EglStage::CreateContext,
                    window: EglWindow { surface: reply.handle, ..window },
                    ..setup
                },
            )
        } else {
            failed
        },
        EglStage::CreateContext => if reply.handle != 0 {
            EglStep::Call(
                EglSetup {
                    stage: EglStage::MakeCurrent,
                    window: EglWindow { context: reply.handle, ..window },
                    ..setup
                },
            )
        } else {
            failed
        },
        EglStage::MakeCurrent => if ok {
            EglStep::Call(EglSetup { stage: EglStage::QueryWidth, ..setup })
        } else {
            failed
        },
        EglStage::QueryWidth => if ok {
            EglStep::Call(
                EglSetup {
                    stage: EglStage::QueryHeight,
                    window: EglWindow { width: side(reply.value), ..window },
                    ..setup
                },
            )
        } else {
            failed
        },
        EglStage::QueryHeight => if ok {
            EglStep::Call(
                EglSetup {
                    stage: EglStage::SwapInterval,
                    window: EglWindow { height: side(reply.value), ..window },
                    ..setup
                },
            )
        } else {
            failed
        },
        EglStage::SwapInterval => EglStep::Ready { window, vsync: ok },
    }
}

/// The name of the call of a stage.
pub open spec fn stage_name(stage: EglStage) -> Seq<char> {
    match stage {
        EglStage::GetDisplay => "eglGetDisplay"@,
        EglStage::Initialize => "eglInitialize"@,
        EglStage::ChooseConfig => "eglChooseConfig"@,
        EglStage::BindApi => "eglBindAPI"@,
        EglStage::CreateWindowSurface => "eglCreateWindowSurface"@,
        EglStage::CreateContext => "eglCreateContext"@,
        EglStage::MakeCurrent => "eglMakeCurrent"@,
        EglStage::QueryWidth => "eglQuerySurface"@,
        EglStage::QueryHeight => "eglQuerySurface"@,
        EglStage::SwapInterval => "eglSwapInterval"@,
    }
}

impl EglStage {
    /// The name of the call of the stage.
    pub fn name(self) -> (name: &'static str)
        ensures
            name@ == stage_name(self),
    {
        match self {
            EglStage::GetDisplay => "eglGetDisplay",
            EglStage::Initialize => "eglInitialize",
            EglStage::ChooseConfig => "eglChooseConfig",
            EglStage::BindApi => "eglBindAPI",
            EglStage::CreateWindowSurface => "eglCreateWindowSurface",
            EglStage::CreateContext => "eglCreateContext",
            EglStage::MakeCurrent => "eglMakeCurrent",
            EglStage::QueryWidth => "eglQuerySurface",
            EglStage::QueryHeight => "eglQuerySurface",
            EglStage::SwapInterval => "eglSwapInterval",
        }
    }
}

/// A side of the window, of which EGL says that it is `queried` pixels long.
fn at_least_one(queried: i32) -> (pixels: u32)
    ensures
        pixels == side(queried),
{
    if queried < 1 {
        1
    } else {
        queried as u32
    }
}

impl EglSetup {
    /// The call to make next.
    pub fn call(&self) -> (call: EglCall)
        ensures
            is_next_call(*self, call),
    {
        let display: Handle = self.window.display;
        let surface: Handle = self.window.surface;
        match self.stage {
            EglStage::GetDisplay => EglCall::GetDisplay,
            EglStage::Initialize => EglCall::Initialize { display },
            EglStage::ChooseConfig => {
                let attributes: [i32; 11] = [
                    EGL_SURFACE_TYPE,
                    EGL_WINDOW_BIT,
                    EGL_RED_SIZE,
                    8,
                    EGL_GREEN_SIZE,
                    8,
                    EGL_BLUE_SIZE,
                    8,
                    EGL_ALPHA_SIZE,
                    8,
                    EGL_NONE,
                ];
                assert(attributes@ =~= config_attributes());
                EglCall::ChooseConfig { display, config_attributes: attributes }
            },
            EglStage::BindApi => EglCall::BindApi { api: EGL_OPENGL_ES_API },
            EglStage::CreateWindowSurface => EglCall::CreateWindowSurface {
                display,
                config: self.config,
            },
            EglStage::CreateContext => {
                let attributes: [i32; 3] = [EGL_CONTEXT_CLIENT_VERSION, 3, EGL_NONE];
                assert(attributes@ =~= context_attributes());
                EglCall::CreateContext { display, config: self.config, context_attributes: attributes }
            },
            EglStage::MakeCurrent => EglCall::MakeCurrent {
                display,
                draw: surface,
                read: surface,
                context: self.window.context,
            },
            EglStage::QueryWidth => EglCall::QuerySurface {
                display,
                surface,
                attribute: EGL_WIDTH,
            },
            EglStage::QueryHeight => EglCall::QuerySurface {
                display,
                surface,
                attribute: EGL_HEIGHT,
            },
            EglStage::SwapInterval => EglCall::SwapInterval { display, interval: 1 },
        }
    }

    /// Takes the reply to the call.
    pub fn advance(self, reply: EglReply) -> (step: EglStep)
        ensures
            step == advanced(self, reply),
    {
        let mut next = self;
        let ok = match self.stage {
            EglStage::GetDisplay => {
                if reply.handle == 0 {
                    return EglStep::Failed { stage: self.stage, made: None };
                }
                next.stage = EglStage::Initialize;
                next.window = EglWindow {
                    display: reply.handle,
                    surface: 0,
                    context: 0,
                    width: 0,
                    height: 0,
                };
                true
            },
            EglStage::Initialize => {
                next.stage = EglStage::ChooseConfig;
                reply.status == EGL_TRUE
            },
            EglStage::ChooseConfig => {
                next.stage = EglStage::BindApi;
                next.config = reply.handle;
                reply.status == EGL_TRUE && reply.value != 0
            },
            EglStage::BindApi => {
                next.stage = EglStage::CreateWindowSurface;
                reply.status == EGL_TRUE
            },
            EglStage::CreateWindowSurface => {
                next.stage = EglStage::CreateContext;
                next.window.surface = reply.handle;
                reply.handle != 0
            },
            EglStage::CreateContext => {
                next.stage = EglStage::MakeCurrent;
                next.window.context = reply.handle;
                reply.handle != 0
            },
            EglStage::MakeCurrent => {
                next.stage = EglStage::QueryWidth;
                reply.status == EGL_TRUE
            },
            EglStage::QueryWidth => {
                next.stage = EglStage::QueryHeight;
                next.window.width = at_least_one(reply.value);
                reply.status == EGL_TRUE
            },
            EglStage::QueryHeight => {
                next.stage = EglStage::SwapInterval;
                next.window.height = at_least_one(reply.value);
                reply.status == EGL_TRUE
            },
            EglStage::SwapInterval => {
                return EglStep::Ready { window: self.window, vsync: reply.status == EGL_TRUE };
            },
        };
        if !ok {
            return EglStep::Failed { stage: self.stage, made: Some(self.window) };
        }
        EglStep::Call(next)
    }
}

/// The start of setting a window up.
pub open spec fn first_setup() -> EglSetup {
    EglSetup { stage: EglStage::GetDisplay, window: no_window(), config: 0 }
}

/// The calls that tear a window down: it stops being current, and what was made of it is
/// destroyed.
pub open spec fn teardown_calls(window: EglWindow) -> Seq<EglCall> {
    let display = window.display;
    let release = EglCall::MakeCurrent { display, draw: 0, read: 0, context: 0 };
    let context = if window.context != 0 {
        seq![EglCall::DestroyContext { display, context: window.context }]
    } else {
        seq![]
    };
    let surface = if window.surface != 0 {
        seq![EglCall::DestroySurface { display, surface: window.surface }]
    } else {
        seq![]
    };
    seq![release] + context + surface + seq![EglCall::Terminate { display }]
}

impl EglWindow {
    /// Starts setting a window up.
    pub fn new() -> (setup: EglSetup)
        ensures
            setup == first_setup(),
    {
        EglSetup {
            stage: EglStage::GetDisplay,
            window: EglWindow { display: 0, surface: 0, context: 0, width: 0, height: 0 },
            config: 0,
        }
    }

    /// The size of the framebuffer.
    pub fn size(&self) -> (size: (u32, u32))
        ensures
            size == (self.width, self.height),
    {
        (self.width, self.height)
    }

    /// The call that shows what was rendered.
    pub fn swap_buffers(&self) -> (call: EglCall)
        ensures
            call == (EglCall::SwapBuffers { display: self.display, surface: self.surface }),
    {
        EglCall::SwapBuffers { display: self.display, surface: self.surface }
    }

    /// The calls that tear the window down, in order.
    pub fn teardown(&self) -> (calls: Vec<EglCall>)
        ensures
            calls@ == teardown_calls(*self),
    {
        let display: Handle = self.display;
        let mut calls: Vec<EglCall> = Vec::new();
        calls.push(EglCall::MakeCurrent { display, draw: 0, read: 0, context: 0 });
        if self.context != 0 {
            calls.push(EglCall::DestroyContext { display, context: self.context });
        }
        if self.surface != 0 {
            calls.push(EglCall::DestroySurface { display, surface: self.surface });
        }
        calls.push(EglCall::Terminate { display });
        assert(calls@ =~= teardown_calls(*self));
        calls
    }
}

/// A signed number as the unsigned number with the same bits.
pub open spec fn unsigned(code: i32) -> nat {
    if code < 0 {
        (code + 0x1_0000_0000) as nat
    } else {
        code as nat
    }
}

/// The message for a call that failed, when EGL's error code is `code`.
pub fn egl_error(call: &str, code: i32) -> (message: String)
    ensures
        message@ == call@ + " failed with EGL error 0x"@ + hex(unsigned(code)),
{
    let mut message = call.to_owned();
    message.append(" failed with EGL error 0x");
    let bits: u32 = if code < 0 {
        (code as i64 + 0x1_0000_0000) as u32
    } else {
        code as u32
    };
    append_hex(&mut message, bits);
    message
}

/// The NUL-terminated name to ask EGL's procedure lookup for. A name that has a NUL inside is the
/// name of no procedure.
pub fn get_proc_address(name: &str) -> (terminated: Option<Vec<u8>>)
    ensures
        match terminated {
            Some(terminated) => !name.spec_bytes().contains(0u8) && terminated@
                == name.spec_bytes().push(0u8),
            None => name.spec_bytes().contains(0u8),
        },
{
    let bytes = name.as_bytes();
    let mut terminated: Vec<u8> = Vec::new();
    let mut i: usize = 0;
    while i < bytes.len()
        invariant
            i <= bytes.len(),
            bytes@ == name.spec_bytes(),
            terminated@ == bytes@.take(i as int),
            forall|j: int| 0 <= j < i ==> bytes@[j] != 0,
        decreases bytes.len() - i,
    {
        if bytes[i] == 0 {
            assert(bytes@.contains(bytes@[i as int]));
            return None;
        }
        terminated.push(bytes[i]);
        assert(bytes@.take(i + 1) =~= bytes@.take(i as int).push(bytes@[i as int]));
        i = i + 1;
    }
    assert(bytes@.take(i as int) =~= bytes@);
    terminated.push(0);
    Some(terminated)
}

/// How many calls come before that of a stage.
pub open spec fn rank(stage: EglStage) -> nat {
    match stage {
        EglStage::GetDisplay => 0,
        EglStage::Initialize => 1,
        EglStage::ChooseConfig => 2,
        EglStage::BindApi => 3,
        EglStage::CreateWindowSurface => 4,
        EglStage::CreateContext => 5,
        EglStage::MakeCurrent => 6,
        EglStage::QueryWidth => 7,
        EglStage::QueryHeight => 8,
        EglStage::SwapInterval => 9,
    }
}

impl EglSetup {
    /// What has been made by each stage.
    pub open spec fn wf(self) -> bool {
        let done = rank(self.stage);
        let window = self.window;
        &&& window.display != 0 <==> done > rank(EglStage::GetDisplay)
        &&& window.surface != 0 <==> done > rank(EglStage::CreateWindowSurface)
        &&& window.context != 0 <==> done > rank(EglStage::CreateContext)
        &&& done > rank(EglStage::QueryWidth) ==> 1 <= window.width <= i32::MAX
        &&& done > rank(EglStage::QueryHeight) ==> 1 <= window.height <= i32::MAX
    }
}

impl EglWindow {
    /// A window that is set up has all that it needs, and at least one pixel.
    pub open spec fn wf(self) -> bool {
        &&& self.display != 0
        &&& self.surface != 0
        &&& self.context != 0
        &&& 1 <= self.width <= i32::MAX
        &&& 1 <= self.height <= i32::MAX
    }
}

/// Setting a window up keeps to its stages: each reply leads to the next call or to the end, what
/// each stage has made is there from then on, and a window that is ready has everything.
pub proof fn law_setup_keeps_to_its_stages(setup: EglSetup, reply: EglReply)
    requires
        setup.wf(),
    ensures
        match advanced(setup, reply) {
            EglStep::Call(next) => next.wf() && rank(next.stage) == rank(setup.stage) + 1,
            EglStep::Failed { stage, made } => stage == setup.stage && (made is Some
                <==> setup.window.display != 0),
            EglStep::Ready { window, .. } => window.wf() && setup.stage == EglStage::SwapInterval,
        },
{
}

/// Where setting a window up stands after the calls from `setup` on had these replies.
pub open spec fn after_replies(setup: EglSetup, replies: Seq<EglReply>) -> EglStep
    decreases replies.len(),
{
    if replies.len() == 0 {
        EglStep::Call(setup)
    } else {
        match advanced(setup, replies[0]) {
            EglStep::Call(next) => after_replies(next, replies.drop_first()),
            step => step,
        }
    }
}

/// The calls that undo what the calls from `setup` on made, the last first, given their replies.
pub open spec fn owed(setup: EglSetup, replies: Seq<EglReply>) -> Seq<EglCall>
    decreases replies.len(),
{
    if replies.len() == 0 {
        seq![]
    } else {
        let made = replies[0].handle;
        let undo = if made == 0 {
            seq![]
        } else {
            match setup.stage {
                EglStage::GetDisplay => seq![EglCall::Terminate { display: made }],
                EglStage::CreateWindowSurface => seq![
                    EglCall::DestroySurface { display: setup.window.display, surface: made },
                ],
                EglStage::CreateContext => seq![
                    EglCall::DestroyContext { display: setup.window.display, context: made },
                ],
                _ => seq![],
            }
        };
        match advanced(setup, replies[0]) {
            EglStep::Call(next) => owed(next, replies.drop_first()) + undo,
            _ => undo,
        }
    }
}

/// Setting a window up ends after ten calls at the latest.
pub proof fn law_setup_ends(replies: Seq<EglReply>)
    requires
        replies.len() >= 10,
    ensures
        !(after_replies(first_setup(), replies) is Call),
{
    lemma_setup_ends(first_setup(), replies);
}

proof fn lemma_setup_ends(setup: EglSetup, replies: Seq<EglReply>)
    requires
        setup.wf(),
        replies.len() + rank(setup.stage) >= 10,
    ensures
        !(after_replies(setup, replies) is Call),
    decreases replies.len(),
{
    law_setup_keeps_to_its_stages(setup, replies[0]);
    if let EglStep::Call(next) = advanced(setup, replies[0]) {
        lemma_setup_ends(next, replies.drop_first());
    }
}

/// However setting a window up ends, the window that it leaves is torn down by undoing exactly
/// what was made, the last first, after it has stopped being current. Where it leaves no window,
/// nothing was made.
pub proof fn law_teardown_undoes_setup(replies: Seq<EglReply>)
    ensures
        match after_replies(first_setup(), replies) {
            EglStep::Call(_) => true,
            EglStep::Failed { made: None, .. } => owed(first_setup(), replies) == Seq::<
                EglCall,
            >::empty(),
            EglStep::Failed { made: Some(window), .. } => teardown_calls(window) == seq![
                EglCall::MakeCurrent { display: window.display, draw: 0, read: 0, context: 0 },
            ] + owed(first_setup(), replies),
            EglStep::Ready { window, .. } => teardown_calls(window) == seq![
                EglCall::MakeCurrent { display: window.display, draw: 0, read: 0, context: 0 },
            ] + owed(first_setup(), replies),
        },
{
    lemma_teardown_undoes(first_setup(), replies);
}

/// What is owed for what a window has.
spec fn undoing(window: EglWindow) -> Seq<EglCall> {
    if window.display == 0 {
        seq![]
    } else {
        teardown_calls(window).drop_first()
    }
}

#[verifier::rlimit(40)]
proof fn lemma_teardown_undoes(setup: EglSetup, replies: Seq<EglReply>)
    requires
        setup.wf(),
    ensures
        match after_replies(setup, replies) {
            EglStep::Call(_) => true,
            EglStep::Failed { made: None, .. } => owed(setup, replies) + undoing(setup.window)
                == Seq::<EglCall>::empty(),
            EglStep::Failed { made: Some(window), .. } => undoing(window) == owed(setup, replies)
                + undoing(setup.window) && window.display != 0,
            EglStep::Ready { window, .. } => undoing(window) == owed(setup, replies) + undoing(
                setup.window,
            ) && window.display != 0,
        },
    decreases replies.len(),
{
    if replies.len() > 0 {
        law_setup_keeps_to_its_stages(setup, replies[0]);
        if let EglStep::Call(next) = advanced(setup, replies[0]) {
            lemma_teardown_undoes(next, replies.drop_first());
        }
    }
}

/// Taking a reply, and starting to set a window up, do what the laws on their course say.
pub proof fn law_setup_takes_its_course(
    first: EglSetup,
    setup: EglSetup,
    reply: EglReply,
    step: EglStep,
)
    requires
        call_ensures(EglWindow::new, (), first),
        call_ensures(EglSetup::advance, (setup, reply), step),
    ensures
        first == first_setup(),
        step == advanced(setup, reply),
{
}

proof fn lemma_last_reply(setup: EglSetup, replies: Seq<EglReply>)
    requires
        replies.len() > 0,
    ensures
        after_replies(setup, replies) == match after_replies(setup, replies.drop_last()) {
            EglStep::Call(next) => advanced(next, replies.last()),
            step => step,
        },
    decreases replies.len(),
{
    reveal_with_fuel(after_replies, 2);
    if replies.len() > 1 {
        assert(replies.drop_last().drop_first() =~= replies.drop_first().drop_last());
        if let EglStep::Call(next) = advanced(setup, replies[0]) {
            lemma_last_reply(next, replies.drop_first());
        }
    }
}

/// What the replies to the first calls have made of a window: the first call returns the display,
/// the third the config, the fifth the surface and the sixth the context; the eighth and ninth tell
/// the width and the height, which are at least one pixel.
pub open spec fn made_by(replies: Seq<EglReply>) -> (EglWindow, Handle) {
    let n = replies.len();
    let handle = |i: int|
        if i < n {
            replies[i].handle
        } else {
            0
        };
    let pixels = |i: int|
        if i >= n {
            0u32
        } else if replies[i].value >= 1 {
            replies[i].value as u32
        } else {
            1u32
        };
    (
        EglWindow {
            display: handle(0),
            surface: handle(4),
            context: handle(5),
            width: pixels(7),
            height: pixels(8),
        },
        handle(2),
    )
}

/// A window that is being set up is what the replies have made of it, and its stage is how many
/// there were.
pub proof fn law_setup_is_made_by_the_replies(replies: Seq<EglReply>, setup: EglSetup)
    requires
        after_replies(first_setup(), replies) == EglStep::Call(setup),
    ensures
        rank(setup.stage) == replies.len(),
        (setup.window, setup.config) == made_by(replies),
    decreases replies.len(),
{
    if replies.len() > 0 {
        lemma_last_reply(first_setup(), replies);
        let before = after_replies(first_setup(), replies.drop_last());
        law_setup_is_made_by_the_replies(replies.drop_last(), before->Call_0);
        assert(setup.window == made_by(replies).0);
        assert(setup.config == made_by(replies).1);
    }
}

/// The calls that set a window up come in this order, each on what the earlier ones returned.
pub proof fn law_calls_build_on_earlier_replies(
    replies: Seq<EglReply>,
    setup: EglSetup,
    call: EglCall,
)
    requires
        after_replies(first_setup(), replies) == EglStep::Call(setup),
        call_ensures(EglSetup::call, (&setup,), call),
    ensures
        ({
            let n = replies.len();
            let display = replies[0].handle;
            let config = replies[2].handle;
            let surface = replies[4].handle;
            &&& n <= 9
            &&& n == 0 ==> call == EglCall::GetDisplay
            &&& n == 1 ==> call == EglCall::Initialize { display }
            &&& n == 2 ==> (call matches EglCall::ChooseConfig {
                display: on,
                config_attributes: asked,
            } && on == display && asked@ == seq![
                0x3033i32,
                4,
                0x3024,
                8,
                0x3023,
                8,
                0x3022,
                8,
                0x3021,
                8,
                0x3038,
            ])
            &&& n == 3 ==> call == EglCall::BindApi { api: 0x30a0 }
            &&& n == 4 ==> call == EglCall::CreateWindowSurface { display, config }
            &&& n == 5 ==> (call matches EglCall::CreateContext {
                display: on,
                config: with,
                context_attributes: asked,
            } && on == display && with == config && asked@ == seq![0x3098i32, 3, 0x3038])
            &&& n == 6 ==> call == EglCall::MakeCurrent {
                display,
                draw: surface,
                read: surface,
                context: replies[5].handle,
            }
            &&& n == 7 ==> call == EglCall::QuerySurface { display, surface, attribute: 0x3057 }
            &&& n == 8 ==> call == EglCall::QuerySurface { display, surface, attribute: 0x3056 }
            &&& n == 9 ==> call == EglCall::SwapInterval { display, interval: 1 }
        }),
{
    law_setup_is_made_by_the_replies(replies, setup);
}

/// Whether the reply to the call after `calls` others says that it failed: no display, surface or
/// context, or no config, or a status other than 1. The last call cannot fail.
pub open spec fn refused(calls: nat, reply: EglReply) -> bool {
    if calls == 0 || calls == 4 || calls == 5 {
        reply.handle == 0
    } else if calls == 2 {
        reply.status != 1 || reply.value == 0
    } else {
        calls != 9 && reply.status != 1
    }
}

/// Setting a window up goes on exactly as long as no call fails. It fails at the first call that
/// does, with what was made before it, if anything. After the tenth call the window is ready, with
/// all that the calls returned; it waits for the vertical blank if that could be set.
pub proof fn law_setup_fails_with_its_first_failure(
    replies: Seq<EglReply>,
    setup: EglSetup,
    reply: EglReply,
)
    requires
        after_replies(first_setup(), replies) == EglStep::Call(setup),
    ensures
        match after_replies(first_setup(), replies.push(reply)) {
            EglStep::Call(next) => replies.len() < 9 && !refused(replies.len(), reply),
            EglStep::Failed { stage, made } => {
                &&& refused(replies.len(), reply)
                &&& rank(stage) == replies.len()
                &&& match made {
                    Some(window) => replies.len() > 0 && window == made_by(replies).0,
                    None => replies.len() == 0,
                }
            },
            EglStep::Ready { window, vsync } => {
                &&& replies.len() == 9
                &&& window == made_by(replies).0
                &&& vsync == (reply.status == 1)
            },
        },
{
    let all = replies.push(reply);
    lemma_last_reply(first_setup(), all);
    assert(all.drop_last() =~= replies);
    law_setup_is_made_by_the_replies(replies, setup);
}

/// Each stage is called by the name of its call.
pub proof fn law_stages_are_called_by_their_calls(stage: EglStage, name: &'static str)
    requires
        call_ensures(EglStage::name, (stage,), name),
    ensures
        rank(stage) == 0 ==> name@ == "eglGetDisplay"@,
        rank(stage) == 1 ==> name@ == "eglInitialize"@,
        rank(stage) == 2 ==> name@ == "eglChooseConfig"@,
        rank(stage) == 3 ==> name@ == "eglBindAPI"@,
        rank(stage) == 4 ==> name@ == "eglCreateWindowSurface"@,
        rank(stage) == 5 ==> name@ == "eglCreateContext"@,
        rank(stage) == 6 ==> name@ == "eglMakeCurrent"@,
        rank(stage) == 7 || rank(stage) == 8 ==> name@ == "eglQuerySurface"@,
        rank(stage) == 9 ==> name@ == "eglSwapInterval"@,
{
}

/// Tearing a window down first makes nothing current on its display and last terminates the
/// display. Between them the context, if there is one, is destroyed, and then the surface, if there
/// is one; nothing else is done.
pub proof fn law_teardown_destroys_what_is_there(window: EglWindow, calls: Vec<EglCall>)
    requires
        call_ensures(EglWindow::teardown, (&window,), calls),
    ensures
        ({
            let display = window.display;
            let has_context = window.context != 0;
            let has_surface = window.surface != 0;
            &&& calls@.len() == 2 + (if has_context {
                1int
            } else {
                0
            }) + (if has_surface {
                1int
            } else {
                0
            })
            &&& calls@[0] == EglCall::MakeCurrent { display, draw: 0, read: 0, context: 0 }
            &&& has_context ==> calls@[1] == EglCall::DestroyContext {
                display,
                context: window.context,
            }
            &&& has_surface ==> calls@[calls@.len() - 2] == EglCall::DestroySurface {
                display,
                surface: window.surface,
            }
            &&& calls@.last() == EglCall::Terminate { display }
        }),
{
}

/// A window tells the size that it has, and shows what was rendered on its own surface.
pub proof fn law_windows_tell_their_own(window: EglWindow, size: (u32, u32), swap: EglCall)
    requires
        call_ensures(EglWindow::size, (&window,), size),
        call_ensures(EglWindow::swap_buffers, (&window,), swap),
    ensures
        size.0 == window.width,
        size.1 == window.height,
        swap == (EglCall::SwapBuffers { display: window.display, surface: window.surface }),
{
}

/// The message for a failed call names the call and then the error code in hexadecimal digits, a
/// negative one by its bits.
pub proof fn law_errors_tell_call_and_code(call: &str, code: i32, message: String)
    requires
        call_ensures(egl_error, (call, code), message),
    ensures
        ({
            let start = call@ + " failed with EGL error 0x"@;
            let digits = message@.skip(start.len() as int);
            &&& message@.len() > start.len()
            &&& message@.take(start.len() as int) == start
            &&& forall|i: int| 0 <= i < digits.len() ==> is_digit(#[trigger] digits[i])
            &&& hex_value(digits) == code || hex_value(digits) == code + 0x1_0000_0000
            &&& 0 <= hex_value(digits) < 0x1_0000_0000
            &&& code != 0 ==> digits[0] != '0'
        }),
{
    let start = call@ + " failed with EGL error 0x"@;
    law_hex_digits_stand_for_their_number(unsigned(code));
    assert(message@.take(start.len() as int) =~= start);
    assert(message@.skip(start.len() as int) =~= hex(unsigned(code)));
}

/// A procedure is asked for by the bytes of its name and one NUL after them; a name that has a NUL
/// inside is not asked for.
pub proof fn law_procedure_names_are_terminated(name: &str, terminated: Option<Vec<u8>>)
    requires
        call_ensures(get_proc_address, (name,), terminated),
    ensures
        ({
            let bytes = name.spec_bytes();
            match terminated {
                Some(terminated) => {
                    &&& terminated@.len() == bytes.len() + 1
                    &&& terminated@.last() == 0
                    &&& forall|i: int|
                        0 <= i < bytes.len() ==> #[trigger] terminated@[i] == bytes[i] && bytes[i]
                            != 0
                },
                None => exists|i: int| 0 <= i < bytes.len() && #[trigger] bytes[i] == 0,
            }
        }),
{
    let bytes = name.spec_bytes();
    if terminated is Some {
        assert forall|i: int| 0 <= i < bytes.len() implies #[trigger] terminated->0@[i] == bytes[i]
            && bytes[i] != 0 by {
            assert(bytes.contains(bytes[i]));
        }
    }
}

} // verus!
