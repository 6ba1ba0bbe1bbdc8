//! Which platform to run on.

use crate::text::same_text;
use vstd::prelude::*;

verus! {

/// The display servers and devices that are built in.
#[derive(Clone, Copy, Debug, PartialEq, Eq, Structural)]
pub struct Features {
    pub wayland: bool,
    pub x11: bool,
    pub fbdev: bool,
}

/// What the platform runs on.
#[derive(Clone, Copy, Debug, PartialEq, Eq, Structural)]
pub enum Backend {
    Headless,
    Fbdev,
    Wayland,
    X11,
}

/// The backend for a compositor (Wayland, X11, or Headless where there is none). Without a
/// compositor the framebuffer is used, unless the user asks for no display at all.
pub open spec fn backend(
    headless: bool,
    compositor: Seq<char>,
    headless_requested: bool,
    features: Features,
) -> Option<Backend> {
    if headless {
        Some(Backend::Headless)
    } else if compositor == "Headless"@ {
        if features.fbdev && !headless_requested {
            Some(Backend::Fbdev)
        } else {
            Some(Backend::Headless)
        }
    } else if features.wayland && compositor == "Wayland"@ {
        Some(Backend::Wayland)
    } else if features.x11 && compositor == "X11"@ {
        Some(Backend::X11)
    } else {
        None
    }
}

/// Whether there is a backend for the compositor.
pub fn is_supported(
    headless: bool,
    compositor: &str,
    headless_requested: bool,
    features: Features,
) -> (supported: bool)
    ensures
        supported == (backend(headless, compositor@, headless_requested, features) is Some),
{
    headless || same_text(compositor, "Headless") || (features.wayland && same_text(
        compositor,
        "Wayland",
    )) || (features.x11 && same_text(compositor, "X11"))
}

/// Returns the default backend for the current system, given the compositor that it seems to run
/// and whether the user asks for no display.
pub fn current_platform(
    headless: bool,
    compositor: &str,
    headless_requested: bool,
    features: Features,
) -> (chosen: Backend)
    requires
        backend(headless, compositor@, headless_requested, features) is Some,
    ensures
        Some(chosen) == backend(headless, compositor@, headless_requested, features),
{
    proof {
        reveal_strlit("Headless");
        reveal_strlit("Wayland");
        reveal_strlit("X11");
        assert("Headless"@.len() == 8 && "Wayland"@.len() == 7 && "X11"@.len() == 3);
    }
    if headless {
        return Backend::Headless;
    }
    if features.fbdev && same_text(compositor, "Headless") && !headless_requested {
        return Backend::Fbdev;
    }
    if features.wayland && same_text(compositor, "Wayland") {
        return Backend::Wayland;
    }
    if features.x11 && same_text(compositor, "X11") {
        return Backend::X11;
    }
    Backend::Headless
}

/// A display server or the framebuffer is used only where it is built in, and none of them when no
/// display is wanted.
pub proof fn law_backend_is_built_in(
    headless: bool,
    compositor: Seq<char>,
    headless_requested: bool,
    features: Features,
)
    ensures
        ({
            let chosen = backend(headless, compositor, headless_requested, features);
            &&& headless ==> chosen == Some(Backend::Headless)
            &&& chosen == Some(Backend::Wayland) ==> features.wayland
            &&& chosen == Some(Backend::X11) ==> features.x11
            &&& chosen == Some(Backend::Fbdev) ==> features.fbdev && !headless_requested
        }),
{
}

/// The framebuffer is used only where no compositor runs; a display server that runs and is built
/// in is used, whatever else is built in and whatever the user asks for.
pub proof fn law_framebuffer_never_displaces_a_display_server(
    headless: bool,
    compositor: &str,
    headless_requested: bool,
    features: Features,
    chosen: Backend,
)
    requires
        call_ensures(
            current_platform,
            (headless, compositor, headless_requested, features),
            chosen,
        ),
    ensures
        headless ==> chosen == Backend::Headless,
        chosen == Backend::Fbdev <==> !headless && compositor@ == "Headless"@ && features.fbdev
            && !headless_requested,
        chosen == Backend::Wayland <==> !headless && compositor@ == "Wayland"@ && features.wayland,
        chosen == Backend::X11 <==> !headless && compositor@ == "X11"@ && features.x11,
{
    reveal_strlit("Headless");
    reveal_strlit("Wayland");
    reveal_strlit("X11");
    assert("Headless"@.len() == 8 && "Wayland"@.len() == 7 && "X11"@.len() == 3);
}

/// There is a backend when no display is wanted, where no compositor runs, and for each display
/// server that is built in; and for nothing else.
pub proof fn law_display_servers_must_be_built_in(
    headless: bool,
    compositor: &str,
    headless_requested: bool,
    features: Features,
    supported: bool,
)
    requires
        call_ensures(is_supported, (headless, compositor, headless_requested, features), supported),
    ensures
        supported <==> {
            ||| headless
            ||| compositor@ == "Headless"@
            ||| compositor@ == "Wayland"@ && features.wayland
            ||| compositor@ == "X11"@ && features.x11
        },
        supported == (backend(headless, compositor@, headless_requested, features) is Some),
{
}

/// The choice is one of what runs: a display server is used exactly where it runs and is built in,
/// and the framebuffer only where none runs.
pub proof fn law_backend_is_what_runs(
    headless: bool,
    compositor: Seq<char>,
    headless_requested: bool,
    features: Features,
)
    ensures
        ({
            let chosen = backend(headless, compositor, headless_requested, features);
            &&& chosen == Some(Backend::Fbdev) ==> compositor == "Headless"@
            &&& !headless && features.x11 && compositor == "X11"@ ==> chosen == Some(Backend::X11)
            &&& !headless && features.wayland && compositor == "Wayland"@ ==> chosen == Some(
                Backend::Wayland,
            )
            &&& !headless && compositor == "Headless"@ && features.fbdev && !headless_requested
                ==> chosen == Some(Backend::Fbdev)
            &&& !headless && compositor == "Headless"@ && (!features.fbdev || headless_requested)
                ==> chosen == Some(Backend::Headless)
        }),
{
    reveal_strlit("Headless");
    reveal_strlit("Wayland");
    reveal_strlit("X11");
    assert("Headless"@.len() == 8 && "Wayland"@.len() == 7 && "X11"@.len() == 3);
}

} // verus!
