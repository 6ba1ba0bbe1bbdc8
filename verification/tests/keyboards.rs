use gpui_fbdev::input::{
    Capslock, KeyDownEvent, KeyUpEvent, Keystroke, Modifiers, ModifiersChangedEvent, PlatformInput,
};
use gpui_fbdev::key::Key;
use gpui_fbdev::keyboard::{modifier_flag, KeyboardState, REPEAT_DELAY, REPEAT_INTERVAL};

const SHIFT: u16 = 42;
const RIGHT_SHIFT: u16 = 54;
const CONTROL: u16 = 29;
const A: u16 = 30;
const B: u16 = 48;
const ENTER: u16 = 28;

fn held(control: bool, alt: bool, shift: bool, platform: bool) -> Modifiers {
    Modifiers { control, alt, shift, platform, function: false }
}

fn none() -> Modifiers {
    held(false, false, false, false)
}

fn stroke(modifiers: Modifiers, key: &str, text: Option<&str>) -> Keystroke {
    Keystroke { modifiers, key: key.to_string(), key_char: text.map(|text| text.to_string()) }
}

fn down(keystroke: Keystroke, is_held: bool) -> PlatformInput {
    PlatformInput::KeyDown(KeyDownEvent { keystroke, is_held, prefer_character_input: false })
}

fn up(keystroke: Keystroke) -> PlatformInput {
    PlatformInput::KeyUp(KeyUpEvent { keystroke })
}

fn changed(modifiers: Modifiers) -> PlatformInput {
    PlatformInput::ModifiersChanged(ModifiersChangedEvent {
        modifiers,
        capslock: Capslock { on: false },
    })
}

fn event(keyboard: &mut KeyboardState, code: u16, value: i32, now: u128) -> Vec<PlatformInput> {
    let mut output = Vec::new();
    keyboard.handle_key(code, value, true, now, &mut output);
    output
}

#[test]
fn pressing_and_releasing_a_key() {
    let mut keyboard = KeyboardState::default();
    assert_eq!(event(&mut keyboard, A, 1, 0), [down(stroke(none(), "a", Some("a")), false)]);
    assert_eq!(event(&mut keyboard, A, 0, 1), [up(stroke(none(), "a", Some("a")))]);
    assert_eq!(event(&mut keyboard, ENTER, 1, 2), [down(stroke(none(), "enter", None), false)]);
}

#[test]
fn output_is_appended() {
    let mut keyboard = KeyboardState::default();
    let mut output = vec![changed(none())];
    keyboard.handle_key(A, 1, true, 0, &mut output);
    assert_eq!(output, [changed(none()), down(stroke(none(), "a", Some("a")), false)]);
}

#[test]
fn driver_repeats_are_passed_on() {
    let mut keyboard = KeyboardState::default();
    let mut output = Vec::new();
    keyboard.handle_key(A, 1, false, 0, &mut output);
    keyboard.handle_key(A, 2, false, 1, &mut output);
    assert_eq!(
        output,
        [
            down(stroke(none(), "a", Some("a")), false),
            down(stroke(none(), "a", Some("a")), true),
        ]
    );
    assert_eq!(keyboard.due_repeat(REPEAT_DELAY * 10), None);
}

#[test]
fn other_values_and_codes_give_nothing() {
    let mut keyboard = KeyboardState::default();
    assert_eq!(event(&mut keyboard, A, 3, 0), []);
    assert_eq!(event(&mut keyboard, A, -1, 0), []);
    assert_eq!(event(&mut keyboard, 0, 1, 0), []);
    assert!(keyboard.repeat.is_none());
}

#[test]
fn modifiers_are_announced_when_they_change() {
    let mut keyboard = KeyboardState::default();
    let shift = held(false, false, true, false);
    assert_eq!(event(&mut keyboard, SHIFT, 1, 0), [changed(shift)]);
    assert_eq!(event(&mut keyboard, SHIFT, 2, 1), []);
    assert_eq!(event(&mut keyboard, RIGHT_SHIFT, 1, 2), []);
    assert_eq!(event(&mut keyboard, RIGHT_SHIFT, 0, 3), [changed(none())]);
    assert_eq!(event(&mut keyboard, SHIFT, 0, 4), []);
    assert_eq!(keyboard.modifiers, Modifiers::default());
}

#[test]
fn every_modifier_has_two_keys() {
    for (codes, expected) in [
        ([29, 97], held(true, false, false, false)),
        ([56, 100], held(false, true, false, false)),
        ([42, 54], held(false, false, true, false)),
        ([125, 126], held(false, false, false, true)),
    ] {
        for code in codes {
            let mut modifiers = Modifiers::default();
            *modifier_flag(&mut modifiers, code).unwrap() = true;
            assert_eq!(modifiers, expected);
        }
    }
    let mut modifiers = Modifiers::default();
    assert!(modifier_flag(&mut modifiers, A).is_none());
    assert_eq!(modifiers, none());
}

#[test]
fn shift_types_the_other_character() {
    let mut keyboard = KeyboardState::default();
    let shift = held(false, false, true, false);
    event(&mut keyboard, SHIFT, 1, 0);
    assert_eq!(event(&mut keyboard, A, 1, 1), [down(stroke(shift, "a", Some("A")), false)]);
    assert_eq!(event(&mut keyboard, 2, 1, 2), [down(stroke(shift, "1", Some("!")), false)]);
    assert_eq!(event(&mut keyboard, 57, 1, 3), [down(stroke(shift, "space", Some(" ")), false)]);
}

#[test]
fn shortcuts_type_nothing() {
    for (code, modifiers) in [
        (CONTROL, held(true, false, false, false)),
        (56, held(false, true, false, false)),
        (125, held(false, false, false, true)),
    ] {
        let mut keyboard = KeyboardState::default();
        event(&mut keyboard, code, 1, 0);
        assert_eq!(event(&mut keyboard, A, 1, 1), [down(stroke(modifiers, "a", None), false)]);
    }
}

#[test]
fn a_held_key_repeats_after_the_delay_and_then_at_the_interval() {
    assert_eq!(REPEAT_DELAY, 400_000_000);
    assert_eq!(REPEAT_INTERVAL, 100_000_000);
    let mut keyboard = KeyboardState::default();
    event(&mut keyboard, A, 1, 1_000);
    let repeat = Some(down(stroke(none(), "a", Some("a")), true));
    assert_eq!(keyboard.due_repeat(400_000_999), None);
    assert_eq!(keyboard.due_repeat(400_001_000), repeat);
    assert_eq!(keyboard.due_repeat(400_001_001), None);
    assert_eq!(keyboard.due_repeat(500_000_999), None);
    assert_eq!(keyboard.due_repeat(520_000_000), repeat);
    assert_eq!(keyboard.due_repeat(619_999_999), None);
    assert_eq!(keyboard.due_repeat(620_000_000), repeat);
}

#[test]
fn a_repeat_takes_the_modifiers_of_its_time() {
    let mut keyboard = KeyboardState::default();
    event(&mut keyboard, A, 1, 0);
    event(&mut keyboard, SHIFT, 1, 1);
    assert_eq!(
        keyboard.due_repeat(REPEAT_DELAY),
        Some(down(stroke(held(false, false, true, false), "a", Some("A")), true))
    );
}

#[test]
fn releasing_the_key_ends_its_repeat() {
    let mut keyboard = KeyboardState::default();
    event(&mut keyboard, A, 1, 0);
    event(&mut keyboard, A, 0, 1);
    assert_eq!(keyboard.due_repeat(REPEAT_DELAY), None);
}

#[test]
fn releasing_another_key_keeps_the_repeat() {
    let mut keyboard = KeyboardState::default();
    event(&mut keyboard, A, 1, 0);
    event(&mut keyboard, B, 1, 10);
    event(&mut keyboard, A, 0, 20);
    assert_eq!(
        keyboard.due_repeat(REPEAT_DELAY + 10),
        Some(down(stroke(none(), "b", Some("b")), true))
    );
}

#[test]
fn a_press_that_the_driver_repeats_ends_the_repeat() {
    let mut keyboard = KeyboardState::default();
    let mut output = Vec::new();
    keyboard.press(Key::named("up"), true, 0, &mut output);
    keyboard.press(Key::named("enter"), false, 1, &mut output);
    assert_eq!(keyboard.due_repeat(REPEAT_DELAY), None);
    assert_eq!(output.len(), 2);
}

#[test]
fn an_idle_keyboard_repeats_nothing() {
    assert_eq!(KeyboardState::default().due_repeat(u128::MAX / 2), None);
}

#[test]
fn modifier_subsets() {
    let shift = Modifiers::shift();
    assert_eq!(shift, held(false, false, true, false));
    assert!(none().is_subset_of(&shift));
    assert!(shift.is_subset_of(&shift));
    assert!(!shift.is_subset_of(&none()));
    assert!(!held(true, false, true, false).is_subset_of(&shift));
    let function = Modifiers { function: true, ..none() };
    assert!(!function.is_subset_of(&shift));
}
