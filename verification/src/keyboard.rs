//! Modifier and key-repeat state shared by all input devices.

use crate::clock::Nanos;
use crate::input::{
    inputs, lemma_one_more_input, lemma_push_input, lemma_same_inputs, no_modifiers, one_more_input,
    same_inputs, Capslock, InputView, KeyDownEvent, KeyUpEvent, Keystroke, KeystrokeView, Modifiers,
    ModifiersChangedEvent, PlatformInput,
};
use crate::key::{key_for_code, key_spec, same_key, Key, KeyView};
use crate::text::single;
use vstd::prelude::*;

verus! {

/// Repeat timing for held keys on devices whose driver does not repeat them (typically
/// gamepads). Slower than keyboard defaults so D-pad list navigation stays precise.
pub const REPEAT_DELAY: Nanos = 400_000_000;

/// The time between two repeats of a held key.
pub const REPEAT_INTERVAL: Nanos = 100_000_000;

/// The modifiers that a keyboard has keys for.
pub enum Modifier {
    Control,
    Shift,
    Alt,
    Platform,
}

/// The modifier whose left or right key has code `code`.
pub open spec fn modifier_for_code(code: u16) -> Option<Modifier> {
    if code == 29 || code == 97 {
        Some(Modifier::Control)
    } else if code == 42 || code == 54 {
        Some(Modifier::Shift)
    } else if code == 56 || code == 100 {
        Some(Modifier::Alt)
    } else if code == 125 || code == 126 {
        Some(Modifier::Platform)
    } else {
        None
    }
}

/// Whether `modifier` is held.
pub open spec fn held(modifiers: Modifiers, modifier: Modifier) -> bool {
    match modifier {
        Modifier::Control => modifiers.control,
        Modifier::Shift => modifiers.shift,
        Modifier::Alt => modifiers.alt,
        Modifier::Platform => modifiers.platform,
    }
}

/// `modifiers` with `modifier` held or not held.
pub open spec fn with_modifier(modifiers: Modifiers, modifier: Modifier, pressed: bool) -> Modifiers {
    match modifier {
        Modifier::Control => Modifiers { control: pressed, ..modifiers },
        Modifier::Shift => Modifiers { shift: pressed, ..modifiers },
        Modifier::Alt => Modifiers { alt: pressed, ..modifiers },
        Modifier::Platform => Modifiers { platform: pressed, ..modifiers },
    }
}

/// The flag of the modifier whose key has code `code`.
pub fn modifier_flag(modifiers: &mut Modifiers, code: u16) -> (flag: Option<&mut bool>)
    ensures
        flag is Some <==> modifier_for_code(code) is Some,
        match modifier_for_code(code) {
            Some(modifier) => {
                &&& *flag->0 == held(*old(modifiers), modifier)
                &&& *final(modifiers) == with_modifier(*old(modifiers), modifier, *final(flag->0))
            },
            None => *final(modifiers) == *old(modifiers),
        },
{
    match code {
        29 | 97 => Some(&mut modifiers.control),
        42 | 54 => Some(&mut modifiers.shift),
        56 | 100 => Some(&mut modifiers.alt),
        125 | 126 => Some(&mut modifiers.platform),
        _ => None,
    }
}

/// A held key that is repeated here, and when it is next repeated.
#[derive(Clone, Copy, Debug)]
pub struct Repeat {
    pub key: Key,
    pub next: Nanos,
}

/// What a `Repeat` stands for.
pub struct RepeatView {
    pub key: KeyView,
    pub next: nat,
}

/// Modifier and key-repeat state shared by all input devices.
#[derive(Clone, Copy, Debug)]
pub struct KeyboardState {
    pub modifiers: Modifiers,
    pub repeat: Option<Repeat>,
}

/// What a `KeyboardState` stands for.
pub struct KeyboardView {
    pub modifiers: Modifiers,
    pub repeat: Option<RepeatView>,
}

impl View for KeyboardState {
    type V = KeyboardView;

    open spec fn view(&self) -> KeyboardView {
        KeyboardView {
            modifiers: self.modifiers,
            repeat: match self.repeat {
                Some(repeat) => Some(RepeatView { key: repeat.key@, next: repeat.next as nat }),
                None => None,
            },
        }
    }
}

/// Nothing held.
pub open spec fn idle_keyboard() -> KeyboardView {
    KeyboardView { modifiers: no_modifiers(), repeat: None }
}

/// Whether keys type text: not while they are part of a shortcut.
pub open spec fn types_text(modifiers: Modifiers) -> bool {
    !modifiers.control && !modifiers.alt && !modifiers.platform
}

/// `key` struck while `modifiers` are held.
pub open spec fn keystroke_spec(modifiers: Modifiers, key: KeyView) -> KeystrokeView {
    KeystrokeView {
        modifiers,
        key: key.name,
        key_char: match key.characters {
            Some((plain, shifted)) if types_text(modifiers) => Some(
                seq![
                    if modifiers.shift {
                        shifted
                    } else {
                        plain
                    },
                ],
            ),
            _ => None,
        },
    }
}

/// `key` going down, or held down, while `modifiers` are held.
pub open spec fn key_down_spec(modifiers: Modifiers, key: KeyView, is_held: bool) -> InputView {
    InputView::KeyDown {
        keystroke: keystroke_spec(modifiers, key),
        is_held,
        prefer_character_input: false,
    }
}

/// `key` going up while `modifiers` are held.
pub open spec fn key_up_spec(modifiers: Modifiers, key: KeyView) -> InputView {
    InputView::KeyUp { keystroke: keystroke_spec(modifiers, key) }
}

/// The keyboard after `key` was pressed at `now`: the key is now the one that repeats, if the
/// repeating is done here, and no other key repeats any more.
pub open spec fn pressed(
    keyboard: KeyboardView,
    key: KeyView,
    software_repeat: bool,
    now: nat,
) -> KeyboardView {
    KeyboardView {
        repeat: if software_repeat {
            Some(RepeatView { key, next: now + REPEAT_DELAY as nat })
        } else {
            None
        },
        ..keyboard
    }
}

/// The keyboard after `key` was released.
pub open spec fn released(keyboard: KeyboardView, key: KeyView) -> KeyboardView {
    match keyboard.repeat {
        Some(repeat) if repeat.key == key => KeyboardView { repeat: None, ..keyboard },
        _ => keyboard,
    }
}

/// Whether a repeat is due at `now`.
pub open spec fn repeat_due(keyboard: KeyboardView, now: nat) -> bool {
    keyboard.repeat matches Some(repeat) && repeat.next <= now
}

/// The keyboard after it was asked at `now` for a repeat, and the repeat.
pub open spec fn repeated(keyboard: KeyboardView, now: nat) -> (KeyboardView, Option<InputView>) {
    match keyboard.repeat {
        Some(repeat) if repeat.next <= now => (
            KeyboardView {
                repeat: Some(RepeatView { next: now + REPEAT_INTERVAL as nat, ..repeat }),
                ..keyboard
            },
            Some(key_down_spec(keyboard.modifiers, repeat.key, true)),
        ),
        _ => (keyboard, None),
    }
}

/// The keyboard after the key event (`code`, `value`) at `now`, and the input that it gives. The
/// value is 0 when the key goes up, 1 when it goes down and 2 when the driver repeats it.
pub open spec fn key_event(
    keyboard: KeyboardView,
    code: u16,
    value: i32,
    software_repeat: bool,
    now: nat,
) -> (KeyboardView, Seq<InputView>) {
    match modifier_for_code(code) {
        Some(modifier) => {
            let modifiers = with_modifier(keyboard.modifiers, modifier, value != 0);
            if modifiers == keyboard.modifiers {
                (keyboard, seq![])
            } else {
                (
                    KeyboardView { modifiers, ..keyboard },
                    seq![InputView::ModifiersChanged { modifiers, capslock: Capslock { on: false } }],
                )
            }
        },
        None => match key_spec(code) {
            Some(key) => if value == 0 {
                (released(keyboard, key), seq![key_up_spec(keyboard.modifiers, key)])
            } else if value == 1 {
                (
                    pressed(keyboard, key, software_repeat, now),
                    seq![key_down_spec(keyboard.modifiers, key, false)],
                )
            } else if value == 2 {
                (keyboard, seq![key_down_spec(keyboard.modifiers, key, true)])
            } else {
                (keyboard, seq![])
            },
            None => (keyboard, seq![]),
        },
    }
}

impl Default for KeyboardState {
    fn default() -> (keyboard: Self)
        ensures
            keyboard@ == idle_keyboard(),
    {
        KeyboardState { modifiers: Modifiers::default(), repeat: None }
    }
}

impl KeyboardState {
    /// Handles a key event that was read at `now`.
    pub fn handle_key(
        &mut self,
        code: u16,
        value: i32,
        software_repeat: bool,
        now: Nanos,
        output: &mut Vec<PlatformInput>,
    )
        requires
            now + REPEAT_DELAY <= u128::MAX,
        ensures
            final(self)@ == key_event(old(self)@, code, value, software_repeat, now as nat).0,
            inputs(final(output)@) == inputs(old(output)@) + key_event(
                old(self)@,
                code,
                value,
                software_repeat,
                now as nat,
            ).1,
    {
        let pressed = value != 0;
        if let Some(flag) = modifier_flag(&mut self.modifiers, code) {
            let changed = *flag != pressed;
            *flag = pressed;
            if changed {
                let event = PlatformInput::ModifiersChanged(
                    ModifiersChangedEvent {
                        modifiers: self.modifiers,
                        capslock: Capslock::default(),
                    },
                );
                proof {
                    lemma_push_input(output@, event);
                }
                output.push(event);
            }
            return;
        }
        let Some(key) = key_for_code(code) else {
            return;
        };
        match value {
            0 => self.release(key, output),
            1 => self.press(key, software_repeat, now, output),
            2 => {
                let event = self.key_down(key, true);
                proof {
                    lemma_push_input(output@, event);
                }
                output.push(event);
            },
            _ => {},
        }
    }

    /// Presses `key` at `now`.
    pub fn press(
        &mut self,
        key: Key,
        software_repeat: bool,
        now: Nanos,
        output: &mut Vec<PlatformInput>,
    )
        requires
            now + REPEAT_DELAY <= u128::MAX,
        ensures
            final(self)@ == pressed(old(self)@, key@, software_repeat, now as nat),
            inputs(final(output)@) == inputs(old(output)@).push(
                key_down_spec(old(self)@.modifiers, key@, false),
            ),
    {
        let event = self.key_down(key, false);
        proof {
            lemma_push_input(output@, event);
        }
        output.push(event);
        self.repeat = if software_repeat {
            Some(Repeat { key, next: now + REPEAT_DELAY })
        } else {
            None
        };
    }

    /// Releases `key`.
    pub fn release(&mut self, key: Key, output: &mut Vec<PlatformInput>)
        ensures
            final(self)@ == released(old(self)@, key@),
            inputs(final(output)@) == inputs(old(output)@).push(
                key_up_spec(old(self)@.modifiers, key@),
            ),
    {
        let repeats = match self.repeat {
            Some(repeat) => repeat.key.same(&key),
            None => false,
        };
        if repeats {
            self.repeat = None;
        }
        let event = PlatformInput::KeyUp(KeyUpEvent { keystroke: self.keystroke(key) });
        proof {
            lemma_push_input(output@, event);
        }
        output.push(event);
    }

    /// Returns a repeat of the held key once it is due, for keys the driver does not repeat.
    pub fn due_repeat(&mut self, now: Nanos) -> (input: Option<PlatformInput>)
        requires
            now + REPEAT_INTERVAL <= u128::MAX,
        ensures
            final(self)@ == repeated(old(self)@, now as nat).0,
            match input {
                Some(input) => repeated(old(self)@, now as nat).1 == Some(input@),
                None => repeated(old(self)@, now as nat).1 is None,
            },
    {
        let Some(repeat) = self.repeat else {
            return None;
        };
        if now < repeat.next {
            return None;
        }
        self.repeat = Some(Repeat { key: repeat.key, next: now + REPEAT_INTERVAL });
        Some(self.key_down(repeat.key, true))
    }

    /// `key` going down, or held down, under the modifiers that are held.
    pub fn key_down(&self, key: Key, is_held: bool) -> (input: PlatformInput)
        ensures
            input@ == key_down_spec(self@.modifiers, key@, is_held),
    {
        PlatformInput::KeyDown(
            KeyDownEvent {
                keystroke: self.keystroke(key),
                is_held,
                prefer_character_input: false,
            },
        )
    }

    /// `key` struck under the modifiers that are held.
    pub fn keystroke(&self, key: Key) -> (keystroke: Keystroke)
        ensures
            keystroke@ == keystroke_spec(self@.modifiers, key@),
    {
        let modifiers = self.modifiers;
        let types_text = !(modifiers.control || modifiers.alt || modifiers.platform);
        let key_char = match key.characters {
            Some((plain, shifted)) if types_text => Some(
                single(
                    if modifiers.shift {
                        shifted
                    } else {
                        plain
                    },
                ),
            ),
            _ => None,
        };
        Keystroke { modifiers, key: key.name.to_owned(), key_char }
    }
}

/// The keys of modifiers are no other keys: a code stands for one or the other.
pub proof fn law_modifiers_are_no_keys(code: u16)
    ensures
        modifier_for_code(code) is Some ==> key_spec(code) is None,
{
}

/// A key event changes the modifiers or the repeat, never both: modifier keys leave the repeat
/// alone, and all other keys the modifiers.
pub proof fn law_modifiers_and_repeat_are_apart(
    keyboard: KeyboardView,
    code: u16,
    value: i32,
    software_repeat: bool,
    now: nat,
)
    ensures
        ({
            let after = key_event(keyboard, code, value, software_repeat, now).0;
            if modifier_for_code(code) is Some {
                after.repeat == keyboard.repeat
            } else {
                after.modifiers == keyboard.modifiers
            }
        }),
{
}

/// After a modifier key event, that modifier is held if and only if the value is not 0, and all
/// others are as they were.
pub proof fn law_modifier_follows_its_key(
    keyboard: KeyboardView,
    code: u16,
    value: i32,
    software_repeat: bool,
    now: nat,
    other: Modifier,
)
    requires
        modifier_for_code(code) is Some,
    ensures
        ({
            let modifier = modifier_for_code(code)->0;
            let after = key_event(keyboard, code, value, software_repeat, now).0;
            &&& held(after.modifiers, modifier) == (value != 0)
            &&& other != modifier ==> held(after.modifiers, other) == held(
                keyboard.modifiers,
                other,
            )
            &&& after.modifiers.function == keyboard.modifiers.function
        }),
{
}

/// A modifier is announced only when it changes: the same event once more gives nothing.
pub proof fn law_modifier_is_announced_once(
    keyboard: KeyboardView,
    code: u16,
    value: i32,
    software_repeat: bool,
    now: nat,
    later: nat,
)
    requires
        modifier_for_code(code) is Some,
    ensures
        ({
            let after = key_event(keyboard, code, value, software_repeat, now).0;
            key_event(after, code, value, software_repeat, later) == (after, Seq::<InputView>::empty())
        }),
{
}

/// Releasing a modifier undoes pressing it.
pub proof fn law_modifier_release_undoes_press(
    keyboard: KeyboardView,
    code: u16,
    software_repeat: bool,
    now: nat,
    later: nat,
)
    requires
        modifier_for_code(code) matches Some(modifier) && !held(keyboard.modifiers, modifier),
    ensures
        ({
            let down = key_event(keyboard, code, 1, software_repeat, now).0;
            key_event(down, code, 0, software_repeat, later).0 == keyboard
        }),
{
}

/// A key pressed at `now` on a device that does not repeat it is first repeated once the delay has
/// passed, and not before.
pub proof fn law_repeat_waits_for_the_delay(
    keyboard: KeyboardView,
    key: KeyView,
    now: nat,
    later: nat,
)
    ensures
        ({
            let down = pressed(keyboard, key, true, now);
            if later < now + REPEAT_DELAY {
                repeated(down, later) == (down, None::<InputView>)
            } else {
                repeated(down, later).1 == Some(key_down_spec(keyboard.modifiers, key, true))
            }
        }),
{
}

/// After a repeat at `now` the same key is repeated again once the interval has passed, and not
/// before.
pub proof fn law_repeats_are_spaced(keyboard: KeyboardView, now: nat, later: nat)
    requires
        repeat_due(keyboard, now),
    ensures
        ({
            let (after, given) = repeated(keyboard, now);
            &&& given is Some
            &&& if later < now + REPEAT_INTERVAL {
                repeated(after, later) == (after, None::<InputView>)
            } else {
                repeated(after, later).1 == given
            }
        }),
{
}

/// Releasing the key that repeats ends the repeat, whenever it is asked for.
pub proof fn law_release_ends_the_repeat(
    keyboard: KeyboardView,
    key: KeyView,
    software_repeat: bool,
    now: nat,
    later: nat,
)
    ensures
        ({
            let up = released(pressed(keyboard, key, software_repeat, now), key);
            &&& up == KeyboardView { repeat: None, ..keyboard }
            &&& repeated(up, later) == (up, None::<InputView>)
        }),
{
}

/// Releasing another key leaves the repeat alone.
pub proof fn law_other_releases_keep_the_repeat(
    keyboard: KeyboardView,
    key: KeyView,
    other: KeyView,
    software_repeat: bool,
    now: nat,
)
    requires
        key != other,
    ensures
        ({
            let down = pressed(keyboard, key, software_repeat, now);
            released(down, other) == down
        }),
{
}

/// Only the key pressed last repeats.
pub proof fn law_last_press_repeats(
    keyboard: KeyboardView,
    key: KeyView,
    other: KeyView,
    other_repeat: bool,
    software_repeat: bool,
    now: nat,
    later: nat,
)
    ensures
        pressed(pressed(keyboard, other, other_repeat, now), key, software_repeat, later)
            == pressed(keyboard, key, software_repeat, later),
{
}

/// A key on a device that repeats held keys itself is never repeated here.
pub proof fn law_driver_repeats_are_left_to_it(
    keyboard: KeyboardView,
    key: KeyView,
    now: nat,
    later: nat,
)
    ensures
        repeated(pressed(keyboard, key, false, now), later).1 is None,
{
}

/// While control, alt or the platform key is held keys type nothing; otherwise a key that has
/// characters types one of them, by shift.
pub proof fn law_shortcuts_type_nothing(modifiers: Modifiers, key: KeyView)
    ensures
        !types_text(modifiers) ==> keystroke_spec(modifiers, key).key_char is None,
        types_text(modifiers) ==> (keystroke_spec(modifiers, key).key_char is Some
            <==> key.characters is Some),
        types_text(modifiers) && key.characters is Some ==> keystroke_spec(modifiers, key).key_char
            == Some(
            seq![
                if modifiers.shift {
                    (key.characters->0).1
                } else {
                    (key.characters->0).0
                },
            ],
        ),
{
}

/// Whether `code` is that of a left or right control, shift, alt or platform key.
pub open spec fn is_modifier_code(code: u16) -> bool {
    ||| code == 29 || code == 97
    ||| code == 42 || code == 54
    ||| code == 56 || code == 100
    ||| code == 125 || code == 126
}

/// Whether two repeats are of the same key at the same time.
pub open spec fn same_repeat(a: Option<Repeat>, b: Option<Repeat>) -> bool {
    match (a, b) {
        (Some(a), Some(b)) => same_key(a.key, b.key) && a.next == b.next,
        (None, None) => true,
        _ => false,
    }
}

/// Whether `keystroke` tells that `key` was struck while `modifiers` were held, and what it types
/// then: nothing without characters or as part of a shortcut, and else one character, by shift.
pub open spec fn is_stroke(keystroke: Keystroke, key: Key, modifiers: Modifiers) -> bool {
    let shortcut = modifiers.control || modifiers.alt || modifiers.platform;
    &&& keystroke.modifiers == modifiers
    &&& keystroke.key@ == key.name@
    &&& match keystroke.key_char {
        Some(text) => {
            &&& !shortcut
            &&& key.characters matches Some((plain, shifted))
            &&& text@.len() == 1
            &&& modifiers.shift ==> text@[0] == shifted
            &&& !modifiers.shift ==> text@[0] == plain
        },
        None => shortcut || key.characters is None,
    }
}

/// Whether `input` is `key` going down while `modifiers` were held.
pub open spec fn is_down(input: PlatformInput, key: Key, modifiers: Modifiers, held: bool) -> bool {
    &&& input matches PlatformInput::KeyDown(event)
    &&& is_stroke(event.keystroke, key, modifiers)
    &&& event.is_held == held
    &&& !event.prefer_character_input
}

/// Whether `input` is `key` going up while `modifiers` were held.
pub open spec fn is_up(input: PlatformInput, key: Key, modifiers: Modifiers) -> bool {
    &&& input matches PlatformInput::KeyUp(event)
    &&& is_stroke(event.keystroke, key, modifiers)
}

/// A keystroke tells the key by its name and all modifiers that are held, whether or not the key
/// types text; and what it types, which is one character or nothing.
pub proof fn law_keystrokes_tell_key_and_modifiers(
    keyboard: KeyboardState,
    key: Key,
    keystroke: Keystroke,
)
    requires
        call_ensures(KeyboardState::keystroke, (&keyboard, key), keystroke),
    ensures
        keystroke.modifiers == keyboard.modifiers,
        keystroke.key@ == key.name@,
        is_stroke(keystroke, key, keyboard.modifiers),
{
}

/// Whatever key it is and whatever is held with it, what goes down or up tells the modifiers and the
/// name of the key as they are.
pub proof fn law_strokes_keep_modifiers_and_name(modifiers: Modifiers, key: KeyView, held: bool)
    ensures
        keystroke_spec(modifiers, key).modifiers == modifiers,
        keystroke_spec(modifiers, key).key == key.name,
        key_down_spec(modifiers, key, held) == (InputView::KeyDown {
            keystroke: keystroke_spec(modifiers, key),
            is_held: held,
            prefer_character_input: false,
        }),
        key_up_spec(modifiers, key) == (InputView::KeyUp {
            keystroke: keystroke_spec(modifiers, key),
        }),
{
}

/// A key that goes down is told as its keystroke, and whether it is held.
pub proof fn law_key_down_tells_the_keystroke(
    keyboard: KeyboardState,
    key: Key,
    held: bool,
    input: PlatformInput,
)
    requires
        call_ensures(KeyboardState::key_down, (&keyboard, key, held), input),
    ensures
        is_down(input, key, keyboard.modifiers, held),
{
}

/// Every press gives one key-down and leaves the modifiers alone. If the repeating is done here,
/// the key repeats in 400 ms; otherwise no key repeats any more.
pub proof fn law_press_gives_a_key_down(
    keyboard: &mut KeyboardState,
    key: Key,
    software_repeat: bool,
    now: Nanos,
    output: &mut Vec<PlatformInput>,
)
    requires
        call_ensures(KeyboardState::press, (keyboard, key, software_repeat, now, output), ()),
    ensures
        one_more_input(old(output)@, final(output)@),
        is_down(final(output)@.last(), key, old(keyboard).modifiers, false),
        final(keyboard).modifiers == old(keyboard).modifiers,
        software_repeat ==> (final(keyboard).repeat matches Some(repeat) && same_key(
            repeat.key,
            key,
        ) && repeat.next == now + 400_000_000),
        !software_repeat ==> final(keyboard).repeat is None,
{
    lemma_one_more_input(
        old(output)@,
        final(output)@,
        key_down_spec(old(keyboard)@.modifiers, key@, false),
    );
}

/// Every release gives one key-up and leaves the modifiers alone. It ends the repeat of that key,
/// and of no other.
pub proof fn law_release_gives_a_key_up(
    keyboard: &mut KeyboardState,
    key: Key,
    output: &mut Vec<PlatformInput>,
)
    requires
        call_ensures(KeyboardState::release, (keyboard, key, output), ()),
    ensures
        one_more_input(old(output)@, final(output)@),
        is_up(final(output)@.last(), key, old(keyboard).modifiers),
        final(keyboard).modifiers == old(keyboard).modifiers,
        if old(keyboard).repeat matches Some(repeat) && same_key(repeat.key, key) {
            final(keyboard).repeat is None
        } else {
            same_repeat(final(keyboard).repeat, old(keyboard).repeat)
        },
{
    lemma_one_more_input(
        old(output)@,
        final(output)@,
        key_up_spec(old(keyboard)@.modifiers, key@),
    );
}

/// A repeat comes exactly when there is a key that repeats and its time has come. It is that key,
/// held down, under the modifiers that are held by then; and it comes again in 100 ms. Asking
/// changes nothing else.
pub proof fn law_due_repeat_holds_the_key(
    keyboard: &mut KeyboardState,
    now: Nanos,
    input: Option<PlatformInput>,
)
    requires
        call_ensures(KeyboardState::due_repeat, (keyboard, now), input),
    ensures
        final(keyboard).modifiers == old(keyboard).modifiers,
        input is Some <==> (old(keyboard).repeat matches Some(repeat) && repeat.next <= now),
        match input {
            Some(input) => {
                let key = (old(keyboard).repeat->0).key;
                &&& is_down(input, key, old(keyboard).modifiers, true)
                &&& final(keyboard).repeat matches Some(repeat)
                &&& same_key(repeat.key, key)
                &&& repeat.next == now + 100_000_000
            },
            None => same_repeat(final(keyboard).repeat, old(keyboard).repeat),
        },
{
}

/// A key event of a modifier sets or clears that modifier alone, by whether the value is 0, and
/// leaves the repeat alone. If that changes anything it gives one input, which tells all modifiers
/// as they now are; otherwise it gives nothing.
pub proof fn law_modifier_events_change_one_modifier(
    keyboard: &mut KeyboardState,
    code: u16,
    value: i32,
    software_repeat: bool,
    now: Nanos,
    output: &mut Vec<PlatformInput>,
)
    requires
        is_modifier_code(code),
        call_ensures(
            KeyboardState::handle_key,
            (keyboard, code, value, software_repeat, now, output),
            (),
        ),
    ensures
        ({
            let before = old(keyboard).modifiers;
            let after = final(keyboard).modifiers;
            &&& after.control == (if code == 29 || code == 97 {
                value != 0
            } else {
                before.control
            })
            &&& after.shift == (if code == 42 || code == 54 {
                value != 0
            } else {
                before.shift
            })
            &&& after.alt == (if code == 56 || code == 100 {
                value != 0
            } else {
                before.alt
            })
            &&& after.platform == (if code == 125 || code == 126 {
                value != 0
            } else {
                before.platform
            })
            &&& after.function == before.function
            &&& same_repeat(final(keyboard).repeat, old(keyboard).repeat)
            &&& if after == before {
                same_inputs(old(output)@, final(output)@)
            } else {
                &&& one_more_input(old(output)@, final(output)@)
                &&& final(output)@.last() matches PlatformInput::ModifiersChanged(event)
                &&& event.modifiers == after
                &&& !event.capslock.on
            }
        }),
{
    let given = key_event(old(keyboard)@, code, value, software_repeat, now as nat).1;
    if given.len() == 0 {
        assert(inputs(old(output)@) + given =~= inputs(old(output)@));
        lemma_same_inputs(old(output)@, final(output)@);
    } else {
        assert(inputs(old(output)@) + given =~= inputs(old(output)@).push(given[0]));
        lemma_one_more_input(old(output)@, final(output)@, given[0]);
    }
}

/// A key event of any other key gives exactly one input, of that key under the modifiers that are
/// held: a key-up for 0, a key-down for 1, a held key-down for 2; and nothing for other values.
/// The modifiers stay as they are. Only going up and going down matter to the repeat.
pub proof fn law_key_events_give_one_input(
    keyboard: &mut KeyboardState,
    code: u16,
    key: Key,
    value: i32,
    software_repeat: bool,
    now: Nanos,
    output: &mut Vec<PlatformInput>,
)
    requires
        !is_modifier_code(code),
        call_ensures(key_for_code, (code,), Some(key)),
        call_ensures(
            KeyboardState::handle_key,
            (keyboard, code, value, software_repeat, now, output),
            (),
        ),
    ensures
        0 <= value <= 2 ==> one_more_input(old(output)@, final(output)@),
        value == 0 ==> is_up(final(output)@.last(), key, old(keyboard).modifiers),
        value == 1 ==> is_down(final(output)@.last(), key, old(keyboard).modifiers, false),
        value == 2 ==> is_down(final(output)@.last(), key, old(keyboard).modifiers, true),
        value < 0 || value > 2 ==> same_inputs(old(output)@, final(output)@),
        final(keyboard).modifiers == old(keyboard).modifiers,
        value == 0 && (old(keyboard).repeat matches Some(repeat) && same_key(repeat.key, key))
            ==> final(keyboard).repeat is None,
        value == 0 && !(old(keyboard).repeat matches Some(repeat) && same_key(repeat.key, key))
            ==> same_repeat(final(keyboard).repeat, old(keyboard).repeat),
        value == 1 && software_repeat ==> (final(keyboard).repeat matches Some(repeat) && same_key(
            repeat.key,
            key,
        ) && repeat.next == now + 400_000_000),
        value == 1 && !software_repeat ==> final(keyboard).repeat is None,
        value < 0 || value > 1 ==> same_repeat(final(keyboard).repeat, old(keyboard).repeat),
{
    let given = key_event(old(keyboard)@, code, value, software_repeat, now as nat).1;
    if given.len() == 0 {
        assert(inputs(old(output)@) + given =~= inputs(old(output)@));
        lemma_same_inputs(old(output)@, final(output)@);
    } else {
        assert(inputs(old(output)@) + given =~= inputs(old(output)@).push(given[0]));
        lemma_one_more_input(old(output)@, final(output)@, given[0]);
    }
}

/// An event of a code that is no key and no modifier changes nothing and gives nothing.
pub proof fn law_unknown_codes_do_nothing(
    keyboard: &mut KeyboardState,
    code: u16,
    value: i32,
    software_repeat: bool,
    now: Nanos,
    output: &mut Vec<PlatformInput>,
)
    requires
        !is_modifier_code(code),
        call_ensures(key_for_code, (code,), None::<Key>),
        call_ensures(
            KeyboardState::handle_key,
            (keyboard, code, value, software_repeat, now, output),
            (),
        ),
    ensures
        same_inputs(old(output)@, final(output)@),
        final(keyboard).modifiers == old(keyboard).modifiers,
        same_repeat(final(keyboard).repeat, old(keyboard).repeat),
{
    assert(inputs(old(output)@) + Seq::<InputView>::empty() =~= inputs(old(output)@));
    lemma_same_inputs(old(output)@, final(output)@);
}

/// Each modifier's flag is reached by the codes of its two keys and by no other code, and through
/// it that flag alone is changed.
pub proof fn law_flags_belong_to_their_keys(
    modifiers: &mut Modifiers,
    code: u16,
    flag: Option<&mut bool>,
)
    requires
        call_ensures(modifier_flag, (modifiers, code), flag),
    ensures
        flag is Some <==> is_modifier_code(code),
        flag is None ==> *final(modifiers) == *old(modifiers),
        code == 29 || code == 97 ==> *flag->0 == old(modifiers).control && *final(modifiers) == (
        Modifiers { control: *final(flag->0), ..*old(modifiers) }),
        code == 42 || code == 54 ==> *flag->0 == old(modifiers).shift && *final(modifiers) == (
        Modifiers { shift: *final(flag->0), ..*old(modifiers) }),
        code == 56 || code == 100 ==> *flag->0 == old(modifiers).alt && *final(modifiers) == (
        Modifiers { alt: *final(flag->0), ..*old(modifiers) }),
        code == 125 || code == 126 ==> *flag->0 == old(modifiers).platform && *final(modifiers) == (
        Modifiers { platform: *final(flag->0), ..*old(modifiers) }),
{
}

/// What is held repeats at 400 ms and every 100 ms from then on, as long as it is asked for at
/// those times, whichever key it is and whatever is held with it.
pub proof fn law_held_keys_repeat_ten_times_a_second(
    keyboard: KeyboardView,
    key: KeyView,
    now: nat,
    repeats: nat,
)
    ensures
        ({
            let due = now + 400_000_000 + repeats * 100_000_000;
            let asked = repeats_asked(pressed(keyboard, key, true, now), now, repeats);
            &&& asked.modifiers == keyboard.modifiers
            &&& asked.repeat == Some(RepeatView { key, next: due as nat })
            &&& repeated(asked, due as nat).1 == Some(key_down_spec(keyboard.modifiers, key, true))
            &&& repeated(asked, (due - 1) as nat).1 is None
        }),
    decreases repeats,
{
    if repeats > 0 {
        law_held_keys_repeat_ten_times_a_second(keyboard, key, now, (repeats - 1) as nat);
    }
}

/// The keyboard after a key went down at `now` and was asked for repeats so many times, at 400 ms
/// and every 100 ms from then on.
pub open spec fn repeats_asked(keyboard: KeyboardView, now: nat, repeats: nat) -> KeyboardView
    decreases repeats,
{
    if repeats == 0 {
        keyboard
    } else {
        let before = repeats_asked(keyboard, now, (repeats - 1) as nat);
        repeated(before, now + 400_000_000 + ((repeats - 1) as nat) * 100_000_000).0
    }
}

} // verus!
