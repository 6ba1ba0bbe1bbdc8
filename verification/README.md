# gpui_fbdev

Runs a user interface straight on a Linux framebuffer, without a display server.

- `src/` is the library, verified with Verus: which platform to use (`platform`), evdev devices and
  their events (`evdev`, `device`), keys, modifiers and key repeat (`key`, `keyboard`, `input`), the
  EGL surface (`egl`), the window and its input (`window`), copying frames to the screen
  (`present`), and the client that ties them together (`client`).
- `app/` performs what the library decides: it reads the devices, calls EGL, and runs the event
  loop. It leaves the GPU and the UI toolkit to traits.
- `tests/` runs the library.

Time is counted in nanoseconds since a `Clock` was started. The functions whose names begin with
`law_` are proofs of what holds of the library as a whole.
