//! The client of the framebuffer: its one display, its one window, its keyboard, and the cadence
//! of its frames.

use crate::clock::Nanos;
use crate::input::{InputView, PlatformInput};
use crate::key::same_key;
use crate::keyboard::{
    idle_keyboard, is_down, repeated, same_repeat, KeyboardState, REPEAT_INTERVAL,
};
use crate::window::{DisplayId, FbdevDisplay};
use vstd::prelude::*;

verus! {

/// The time between two frames.
pub const FRAME_INTERVAL: Nanos = 16_667_000;

/// The first frame after `now`, of frames at `deadline` and at every interval after it.
pub open spec fn frame_after(deadline: nat, now: nat) -> nat {
    if deadline > now {
        deadline
    } else {
        deadline + ((now - deadline) as nat / FRAME_INTERVAL as nat + 1) * FRAME_INTERVAL as nat
    }
}

/// When to draw the next frame, after the frame that was due at `deadline`. Without a compositor
/// there is no frame callback, so frames are requested on a fixed cadence.
pub fn next_frame(deadline: Nanos, now: Nanos) -> (next: Nanos)
    requires
        now + FRAME_INTERVAL <= u128::MAX,
    ensures
        next == frame_after(deadline as nat, now as nat),
{
    let mut next: Nanos = deadline;
    let ghost mut frames: int = 0;
    while next <= now
        invariant
            now + FRAME_INTERVAL <= u128::MAX,
            frames >= 0,
            next == deadline + frames * FRAME_INTERVAL,
            frames > 0 ==> next - FRAME_INTERVAL <= now,
        decreases now + FRAME_INTERVAL - next,
    {
        next = next + FRAME_INTERVAL;
        proof {
            assert((frames + 1) * FRAME_INTERVAL == frames * FRAME_INTERVAL + FRAME_INTERVAL)
                by (nonlinear_arith);
            frames = frames + 1;
        }
    }
    proof {
        if frames > 0 {
            let late = now - deadline;
            assert(late / FRAME_INTERVAL as int == frames - 1) by (nonlinear_arith)
                requires
                    (frames - 1) * FRAME_INTERVAL <= late < frames * FRAME_INTERVAL,
                    FRAME_INTERVAL > 0,
            ;
        }
    }
    next
}

/// How a frame is requested.
#[derive(Clone, Copy, Debug, PartialEq, Eq, Structural)]
pub struct RequestFrameOptions {
    pub require_presentation: bool,
    pub force_render: bool,
}

/// What to do with the window when a frame is due.
#[derive(Clone, Debug, PartialEq)]
pub enum FrameAction {
    /// Hand it the input.
    Input(PlatformInput),
    /// Request the frame from it.
    Refresh(RequestFrameOptions),
}

/// What a `FrameAction` stands for.
pub enum FrameActionView {
    Input(InputView),
    Refresh(RequestFrameOptions),
}

impl View for FrameAction {
    type V = FrameActionView;

    open spec fn view(&self) -> FrameActionView {
        match self {
            FrameAction::Input(input) => FrameActionView::Input(input@),
            FrameAction::Refresh(options) => FrameActionView::Refresh(*options),
        }
    }
}

/// What is done, in order, with a window when a frame is due: it gets the repeat of the held key,
/// if one is due, and then the frame is requested. Nothing is done without a window.
pub open spec fn frame_actions(has_window: bool, repeat: Option<InputView>) -> Seq<FrameActionView> {
    let refresh = FrameActionView::Refresh(
        RequestFrameOptions { require_presentation: false, force_render: false },
    );
    match (has_window, repeat) {
        (true, Some(input)) => seq![FrameActionView::Input(input), refresh],
        (true, None) => seq![refresh],
        (false, _) => seq![],
    }
}

/// What to do with a device after reading from it.
#[derive(Clone, Copy, Debug, PartialEq, Eq, Structural)]
pub enum PostAction {
    /// Wait for more.
    Continue,
    /// Stop watching it.
    Remove,
}

/// A device that cannot be read any more is no longer watched.
pub fn after_reading(failed: bool) -> (action: PostAction)
    ensures
        action == if failed {
            PostAction::Remove
        } else {
            PostAction::Continue
        },
{
    if failed {
        PostAction::Remove
    } else {
        PostAction::Continue
    }
}

/// Why a window cannot be opened.
#[derive(Clone, Copy, Debug, PartialEq, Eq, Structural)]
pub enum WindowError {
    /// The framebuffer was handed to a window before.
    SingleWindow,
}

impl WindowError {
    /// The message for the error.
    pub fn message(self) -> (message: &'static str)
        ensures
            message@ == "The framebuffer platform can only show a single window"@,
    {
        match self {
            WindowError::SingleWindow => "The framebuffer platform can only show a single window",
        }
    }
}

/// The state of the client, over its event loop, its EGL surface, its window and the handle by
/// which the window is known.
#[derive(Debug)]
pub struct FbdevClientState<L, E, W, H> {
    pub event_loop: Option<L>,
    pub display: FbdevDisplay,
    /// Created up front so the display size is known before the window opens; handed to the only
    /// window the framebuffer can show.
    pub egl: Option<E>,
    pub window: Option<W>,
    pub window_handle: Option<H>,
    pub keyboard: KeyboardState,
}

/// Whether asking for a window gave this and left the state like that: the EGL surface, if it is
/// still there, and none is there afterwards.
pub open spec fn window_asked_for<L, E, W, H>(
    before: FbdevClientState<L, E, W, H>,
    egl: Result<E, WindowError>,
    after: FbdevClientState<L, E, W, H>,
) -> bool {
    &&& after == FbdevClientState { egl: None, ..before }
    &&& match before.egl {
        Some(surface) => egl == Ok::<E, WindowError>(surface),
        None => egl == Err::<E, WindowError>(WindowError::SingleWindow),
    }
}

impl<L, E, W, H> FbdevClientState<L, E, W, H> {
    /// A window has the framebuffer and a handle.
    pub open spec fn wf(self) -> bool {
        &&& self.window is Some ==> self.egl is None
        &&& self.window is Some <==> self.window_handle is Some
    }

    /// A client that has not opened its window yet.
    pub fn new(event_loop: L, egl: E, width: u32, height: u32) -> (state: Self)
        ensures
            state.event_loop == Some(event_loop),
            state.display == (FbdevDisplay { width, height }),
            state.egl == Some(egl),
            state.window is None,
            state.window_handle is None,
            state.keyboard@ == idle_keyboard(),
            state.wf(),
    {
        FbdevClientState {
            event_loop: Some(event_loop),
            display: FbdevDisplay::new(width, height),
            egl: Some(egl),
            window: None,
            window_handle: None,
            keyboard: KeyboardState::default(),
        }
    }

    /// What to do with the window, in order, now that a frame is due. A repeat that falls due while
    /// there is no window is lost.
    pub fn frame_tick(&mut self, now: Nanos) -> (actions: Vec<FrameAction>)
        requires
            now + REPEAT_INTERVAL <= u128::MAX,
        ensures
            *final(self) == (FbdevClientState { keyboard: final(self).keyboard, ..*old(self) }),
            final(self).keyboard@ == repeated(old(self).keyboard@, now as nat).0,
            actions@.map_values(|action: FrameAction| action@) == frame_actions(
                old(self).window is Some,
                repeated(old(self).keyboard@, now as nat).1,
            ),
    {
        let repeat = self.keyboard.due_repeat(now);
        let mut actions: Vec<FrameAction> = Vec::new();
        if self.window.is_some() {
            if let Some(repeat) = repeat {
                actions.push(FrameAction::Input(repeat));
            }
            let options = RequestFrameOptions { require_presentation: false, force_render: false };
            actions.push(FrameAction::Refresh(options));
        }
        actions
    }

    /// The inputs to hand to the window, in order: all of them, or none while there is no window.
    pub fn dispatch_input(&self, events: Vec<PlatformInput>) -> (dispatched: Vec<PlatformInput>)
        ensures
            dispatched@ == if self.window is Some {
                events@
            } else {
                seq![]
            },
    {
        if self.window.is_some() {
            events
        } else {
            Vec::new()
        }
    }

    /// Takes the EGL surface for the window that is to be opened. It is there only once, whether
    /// or not the window can then be made.
    pub fn open_window(&mut self) -> (egl: Result<E, WindowError>)
        ensures
            window_asked_for(*old(self), egl, *final(self)),
    {
        match self.egl.take() {
            Some(egl) => Ok(egl),
            None => Err(WindowError::SingleWindow),
        }
    }

    /// Notes the window that was opened.
    pub fn window_opened(&mut self, window: W, handle: H)
        ensures
            *final(self) == (FbdevClientState {
                window: Some(window),
                window_handle: Some(handle),
                ..*old(self)
            }),
    {
        self.window = Some(window);
        self.window_handle = Some(handle);
    }

    /// Takes the event loop to run it. It runs only once.
    pub fn run(&mut self) -> (event_loop: L)
        requires
            old(self).event_loop is Some,
        ensures
            Some(event_loop) == old(self).event_loop,
            *final(self) == (FbdevClientState { event_loop: None, ..*old(self) }),
    {
        self.event_loop.take().unwrap()
    }

    /// The displays: the framebuffer.
    pub fn displays(&self) -> (displays: Vec<FbdevDisplay>)
        ensures
            displays@ == seq![self.display],
    {
        let mut displays: Vec<FbdevDisplay> = Vec::new();
        displays.push(self.display);
        assert(displays@ =~= seq![self.display]);
        displays
    }

    /// The primary display.
    pub fn primary_display(&self) -> (display: Option<FbdevDisplay>)
        ensures
            display == Some(self.display),
    {
        Some(self.display)
    }

    /// The display with this id.
    pub fn display(&self, id: DisplayId) -> (display: Option<FbdevDisplay>)
        ensures
            display == if id == (DisplayId { id: 0 }) {
                Some(self.display)
            } else {
                None
            },
    {
        if self.display.id() == id {
            Some(self.display)
        } else {
            None
        }
    }
}

impl<L, E, W, H: Copy> FbdevClientState<L, E, W, H> {
    /// The window that has the focus: the one that was opened.
    pub fn active_window(&self) -> (handle: Option<H>)
        ensures
            handle == self.window_handle,
    {
        self.window_handle
    }
}

/// The name of the keyboard layout, which is not known.
pub fn keyboard_layout() -> (name: &'static str)
    ensures
        name@ == "unknown"@,
{
    "unknown"
}

/// What stands in for the name of a compositor.
pub fn compositor_name() -> (name: &'static str)
    ensures
        name@ == "fbdev"@,
{
    "fbdev"
}

/// The next frame is after `now`, on the cadence of `deadline`, and the first that is.
pub proof fn law_next_frame_is_first_after_now(deadline: nat, now: nat, frames: nat)
    ensures
        frame_after(deadline, now) > now,
        exists|skipped: nat|
            frame_after(deadline, now) == deadline + #[trigger] (skipped * FRAME_INTERVAL as nat),
        deadline + frames * FRAME_INTERVAL as nat > now ==> frame_after(deadline, now) <= deadline
            + frames * FRAME_INTERVAL as nat,
{
    let interval = FRAME_INTERVAL as nat;
    if deadline > now {
        assert(deadline + 0nat * interval == deadline);
        assert(frames * interval >= 0) by (nonlinear_arith);
    } else {
        let late = (now - deadline) as nat;
        let skipped = late / interval + 1;
        assert(skipped * interval > late && (frames * interval > late ==> skipped * interval
            <= frames * interval)) by (nonlinear_arith)
            requires
                skipped == late / interval + 1,
                interval == 16_667_000,
        ;
        assert(frame_after(deadline, now) == deadline + skipped * interval);
    }
}

/// The framebuffer is handed out once: after one window was asked for, whatever happens to the
/// rest of the state, another is refused.
pub proof fn law_one_window_only<L, E, W, H>(
    first: FbdevClientState<L, E, W, H>,
    first_egl: Result<E, WindowError>,
    after_first: FbdevClientState<L, E, W, H>,
    second: FbdevClientState<L, E, W, H>,
    second_egl: Result<E, WindowError>,
    after_second: FbdevClientState<L, E, W, H>,
)
    requires
        window_asked_for(first, first_egl, after_first),
        second.egl == after_first.egl,
        window_asked_for(second, second_egl, after_second),
    ensures
        second_egl == Err::<E, WindowError>(WindowError::SingleWindow),
{
}

/// A window that is opened has the framebuffer: asking for one and noting it when it is open leave
/// the client in order.
pub proof fn law_window_has_the_framebuffer<L, E, W, H>(
    before: FbdevClientState<L, E, W, H>,
    egl: Result<E, WindowError>,
    after: FbdevClientState<L, E, W, H>,
    window: W,
    handle: H,
)
    requires
        before.wf(),
        window_asked_for(before, egl, after),
    ensures
        after.wf(),
        (FbdevClientState { window: Some(window), window_handle: Some(handle), ..after }).wf(),
{
}

/// The next frame comes after now, on the cadence of the last one at 16.667 ms, and none of its
/// frames that is still to come is left out; a frame that is still to come is the next one.
pub proof fn law_frames_keep_their_cadence(deadline: Nanos, now: Nanos, next: Nanos)
    requires
        call_ensures(next_frame, (deadline, now), next),
    ensures
        next > now,
        next >= deadline,
        (next - deadline) % 16_667_000 == 0,
        next == deadline || next - 16_667_000 <= now,
{
    if deadline <= now {
        let late = (now - deadline) as nat;
        assert(next - deadline == (late / 16_667_000 + 1) * 16_667_000);
    }
}

/// When a frame is due, the window, if there is one, is asked to refresh, last of all, neither
/// forced to render nor to present. Before that it gets the repeat of the key that is held, if its
/// time has come, under the modifiers that are held. The repeat then waits for 100 ms, window or
/// not. Nothing else of the client changes.
pub proof fn law_frames_bring_the_repeat_and_then_refresh<L, E, W, H>(
    client: &mut FbdevClientState<L, E, W, H>,
    now: Nanos,
    actions: Vec<FrameAction>,
)
    requires
        call_ensures(FbdevClientState::<L, E, W, H>::frame_tick, (client, now), actions),
    ensures
        ({
            let before = old(client).keyboard;
            let after = final(client).keyboard;
            let due = before.repeat matches Some(repeat) && repeat.next <= now;
            &&& *final(client) == (FbdevClientState { keyboard: after, ..*old(client) })
            &&& after.modifiers == before.modifiers
            &&& due ==> (after.repeat matches Some(repeat) && same_key(
                repeat.key,
                (before.repeat->0).key,
            ) && repeat.next == now + 100_000_000)
            &&& !due ==> same_repeat(after.repeat, before.repeat)
            &&& old(client).window is None ==> actions@.len() == 0
            &&& old(client).window is Some ==> {
                &&& actions@.len() == if due {
                    2int
                } else {
                    1
                }
                &&& actions@.last() == FrameAction::Refresh(
                    RequestFrameOptions { require_presentation: false, force_render: false },
                )
                &&& due ==> (actions@[0] matches FrameAction::Input(input) && is_down(
                    input,
                    (before.repeat->0).key,
                    before.modifiers,
                    true,
                ))
            }
        }),
{
    let views = actions@.map_values(|action: FrameAction| action@);
    assert(views.len() == actions@.len());
    if actions@.len() > 0 {
        assert(views.last() == actions@.last()@);
        assert(views[0] == actions@[0]@);
    }
}

/// All inputs reach the window, in order; without a window none does.
pub proof fn law_all_input_reaches_the_window<L, E, W, H>(
    client: FbdevClientState<L, E, W, H>,
    events: Vec<PlatformInput>,
    dispatched: Vec<PlatformInput>,
)
    requires
        call_ensures(
            FbdevClientState::<L, E, W, H>::dispatch_input,
            (&client, events),
            dispatched,
        ),
    ensures
        client.window is Some ==> dispatched@.len() == events@.len() && forall|i: int|
            0 <= i < events@.len() ==> #[trigger] dispatched@[i] == events@[i],
        client.window is None ==> dispatched@.len() == 0,
{
}

/// The framebuffer goes to whoever first asks for a window, and everybody else is refused; nothing
/// else of the client changes.
pub proof fn law_first_to_ask_gets_the_framebuffer<L, E, W, H>(
    client: &mut FbdevClientState<L, E, W, H>,
    egl: Result<E, WindowError>,
)
    requires
        call_ensures(FbdevClientState::<L, E, W, H>::open_window, (client,), egl),
    ensures
        match old(client).egl {
            Some(surface) => egl == Ok::<E, WindowError>(surface),
            None => egl == Err::<E, WindowError>(WindowError::SingleWindow),
        },
        *final(client) == (FbdevClientState { egl: None, ..*old(client) }),
{
}

/// The window that was opened is the active one from then on, by its handle.
pub proof fn law_opened_windows_are_active<L, E, W, H: Copy>(
    client: &mut FbdevClientState<L, E, W, H>,
    window: W,
    handle: H,
    active: Option<H>,
)
    requires
        call_ensures(
            FbdevClientState::<L, E, W, H>::window_opened,
            (client, window, handle),
            (),
        ),
        call_ensures(FbdevClientState::<L, E, W, H>::active_window, (final(client),), active),
    ensures
        active == Some(handle),
        *final(client) == (FbdevClientState {
            window: Some(window),
            window_handle: Some(handle),
            ..*old(client)
        }),
{
}

/// The event loop is handed out to be run, once, and nothing else of the client changes.
pub proof fn law_event_loops_run_once<L, E, W, H>(
    client: &mut FbdevClientState<L, E, W, H>,
    event_loop: L,
)
    requires
        call_ensures(FbdevClientState::<L, E, W, H>::run, (client,), event_loop),
    ensures
        old(client).event_loop == Some(event_loop),
        *final(client) == (FbdevClientState { event_loop: None, ..*old(client) }),
{
}

/// A new client has its event loop, its framebuffer and a display of that size; no window is open,
/// no modifier is held and no key repeats.
pub proof fn law_new_clients_are_idle<L, E, W, H>(
    event_loop: L,
    egl: E,
    width: u32,
    height: u32,
    client: FbdevClientState<L, E, W, H>,
)
    requires
        call_ensures(
            FbdevClientState::<L, E, W, H>::new,
            (event_loop, egl, width, height),
            client,
        ),
    ensures
        client.event_loop == Some(event_loop) && client.egl == Some(egl),
        client.display.width == width && client.display.height == height,
        client.window is None && client.window_handle is None,
        client.keyboard.repeat is None,
        ({
            let held = client.keyboard.modifiers;
            !held.control && !held.alt && !held.shift && !held.platform && !held.function
        }),
{
}

/// There is one display, which is the primary one and is known as number 0.
pub proof fn law_there_is_one_display<L, E, W, H>(
    client: FbdevClientState<L, E, W, H>,
    displays: Vec<FbdevDisplay>,
    primary: Option<FbdevDisplay>,
    id: DisplayId,
    found: Option<FbdevDisplay>,
)
    requires
        call_ensures(FbdevClientState::<L, E, W, H>::displays, (&client,), displays),
        call_ensures(FbdevClientState::<L, E, W, H>::primary_display, (&client,), primary),
        call_ensures(FbdevClientState::<L, E, W, H>::display, (&client, id), found),
    ensures
        displays@.len() == 1 && displays@[0] == client.display,
        primary == Some(client.display),
        id.id == 0 ==> found == Some(client.display),
        id.id != 0 ==> found is None,
{
}

/// A device is watched until reading from it fails. The layout of the keyboard is not known, and
/// the framebuffer stands in for a compositor.
pub proof fn law_failed_devices_are_no_longer_watched(
    failed: bool,
    action: PostAction,
    error: WindowError,
    message: &'static str,
    layout: &'static str,
    compositor: &'static str,
)
    requires
        call_ensures(after_reading, (failed,), action),
        call_ensures(WindowError::message, (error,), message),
        call_ensures(keyboard_layout, (), layout),
        call_ensures(compositor_name, (), compositor),
    ensures
        failed <==> action == PostAction::Remove,
        message@ == "The framebuffer platform can only show a single window"@,
        layout@ == "unknown"@,
        compositor@ == "fbdev"@,
{
}

} // verus!
