use gpui_fbdev::clock::Clock;
use gpui_fbdev::device::{
    decode_event, ByteOrder, EvdevDevice, InputEvent, ReadOutcome, ReadStep, RecordFormat,
};
use gpui_fbdev::evdev::{
    device_name, evdev_read_request, has_bit, name_bytes, open_device, open_devices, query_bits,
    Probe, ProbeStep,
};
use gpui_fbdev::input::PlatformInput;
use gpui_fbdev::keyboard::{KeyboardState, REPEAT_DELAY};

fn device(kernel_repeat: bool) -> EvdevDevice {
    EvdevDevice { name: "pad".to_string(), kernel_repeat, hat: [None, None] }
}

fn describe(inputs: &[PlatformInput]) -> Vec<String> {
    inputs
        .iter()
        .map(|input| match input {
            PlatformInput::KeyDown(event) if event.is_held => {
                format!("held {}", event.keystroke.key)
            }
            PlatformInput::KeyDown(event) => format!("down {}", event.keystroke.key),
            PlatformInput::KeyUp(event) => format!("up {}", event.keystroke.key),
            PlatformInput::ModifiersChanged(_) => "modifiers".to_string(),
        })
        .collect()
}

fn send(
    device: &mut EvdevDevice,
    keyboard: &mut KeyboardState,
    event: (u16, u16, i32),
    now: u128,
) -> Vec<String> {
    let mut output = Vec::new();
    device.handle_event(event.0, event.1, event.2, now, keyboard, &mut output);
    describe(&output)
}

#[test]
fn the_hat_presses_and_releases_directions() {
    let mut device = device(true);
    let mut keyboard = KeyboardState::default();
    assert_eq!(send(&mut device, &mut keyboard, (3, 0x10, -1), 0), ["down left"]);
    assert_eq!(send(&mut device, &mut keyboard, (3, 0x10, -1), 1), Vec::<String>::new());
    assert_eq!(send(&mut device, &mut keyboard, (3, 0x10, 1), 2), ["up left", "down right"]);
    assert_eq!(send(&mut device, &mut keyboard, (3, 0x11, -5), 3), ["down up"]);
    assert_eq!(send(&mut device, &mut keyboard, (3, 0x11, -9), 4), Vec::<String>::new());
    assert_eq!(send(&mut device, &mut keyboard, (3, 0x10, 0), 5), ["up right"]);
    assert_eq!(send(&mut device, &mut keyboard, (3, 0x11, i32::MAX), 6), ["up up", "down down"]);
    assert_eq!(send(&mut device, &mut keyboard, (3, 0x11, 0), 7), ["up down"]);
    assert_eq!(device.hat, [None, None]);
    assert!(keyboard.repeat.is_none());
}

#[test]
fn the_hat_repeats_even_where_the_driver_repeats_keys() {
    let mut device = device(true);
    let mut keyboard = KeyboardState::default();
    send(&mut device, &mut keyboard, (3, 0x11, 1), 7);
    assert_eq!(keyboard.due_repeat(REPEAT_DELAY + 6), None);
    let repeat = keyboard.due_repeat(REPEAT_DELAY + 7).unwrap();
    assert_eq!(describe(&[repeat]), ["held down"]);
}

#[test]
fn keys_repeat_here_unless_the_driver_repeats_them() {
    for kernel_repeat in [false, true] {
        let mut device = device(kernel_repeat);
        let mut keyboard = KeyboardState::default();
        assert_eq!(send(&mut device, &mut keyboard, (1, 0x130, 1), 0), ["down btn_south"]);
        assert_eq!(keyboard.due_repeat(REPEAT_DELAY).is_some(), !kernel_repeat);
    }
}

#[test]
fn a_dpad_button_ends_the_repeat_of_the_same_direction() {
    let mut device = device(false);
    let mut keyboard = KeyboardState::default();
    send(&mut device, &mut keyboard, (3, 0x11, -1), 0);
    assert_eq!(send(&mut device, &mut keyboard, (1, 0x220, 0), 1), ["up up"]);
    assert!(keyboard.repeat.is_none());
}

#[test]
fn other_events_are_passed_over() {
    let mut device = device(false);
    let mut keyboard = KeyboardState::default();
    for event in [(0, 0, 0), (2, 0, 5), (3, 0, 128), (3, 0x12, 1), (4, 4, 30), (0x14, 0, 1)] {
        assert_eq!(send(&mut device, &mut keyboard, event, 0), Vec::<String>::new());
    }
}

#[test]
fn records_are_decoded_in_both_orders() {
    let little = [9, 9, 9, 9, 0x01, 0x00, 0x30, 0x01, 0xfe, 0xff, 0xff, 0xff];
    let big = [0x00, 0x01, 0x01, 0x30, 0xff, 0xff, 0xff, 0xfe];
    let event = InputEvent { event_type: 1, code: 0x130, value: -2 };
    assert_eq!(decode_event(&little, ByteOrder::Little), event);
    assert_eq!(decode_event(&big, ByteOrder::Big), event);
    let bytes = [3, 0, 0x11, 0, 0x78, 0x56, 0x34, 0x12];
    assert_eq!(
        decode_event(&bytes, ByteOrder::Little),
        InputEvent { event_type: 3, code: 0x11, value: 0x1234_5678 }
    );
}

#[test]
fn the_order_of_a_machine_is_that_in_which_it_reads() {
    let little = u16::from_le_bytes([1, 0]);
    let big = u16::from_be_bytes([1, 0]);
    assert_eq!(
        RecordFormat::of_machine(little, 24),
        RecordFormat { size: 24, order: ByteOrder::Little }
    );
    assert_eq!(
        RecordFormat::of_machine(big, 16),
        RecordFormat { size: 16, order: ByteOrder::Big }
    );
}

#[test]
fn the_native_format_is_that_of_the_machine() {
    let format = RecordFormat::native();
    assert_eq!(format.size, std::mem::size_of::<libc::input_event>());
    assert_eq!(format.buffer_size(), 64 * format.size);
    let first = 0x0102u16.to_ne_bytes()[0];
    let order = if first == 1 { ByteOrder::Big } else { ByteOrder::Little };
    assert_eq!(format.order, order);
}

fn record(event: (u16, u16, i32)) -> Vec<u8> {
    let mut bytes = vec![0u8; RecordFormat::native().size - 8];
    bytes.extend_from_slice(&event.0.to_ne_bytes());
    bytes.extend_from_slice(&event.1.to_ne_bytes());
    bytes.extend_from_slice(&event.2.to_ne_bytes());
    bytes
}

#[test]
fn reading_translates_whole_records() {
    let mut device = device(false);
    let mut keyboard = KeyboardState::default();
    let mut output = Vec::new();
    let clock = Clock::started();
    let mut bytes = record((1, 42, 1));
    bytes.extend(record((0, 0, 0)));
    bytes.extend(record((1, 30, 1)));
    bytes.extend(record((3, 0x10, 1)));
    bytes.extend(record((3, 0x10, 0)));
    bytes.extend([1, 2, 3]);
    let step = device.read_events(
        ReadOutcome::Read(&bytes),
        RecordFormat::native(),
        &clock,
        &mut keyboard,
        &mut output,
    );
    assert_eq!(step, ReadStep::Again);
    assert_eq!(describe(&output), ["modifiers", "down a", "down right", "up right"]);
}

#[test]
fn reading_in_parts_comes_to_the_same() {
    let format = RecordFormat::native();
    let clock = Clock::started();
    let mut bytes = record((1, 30, 1));
    bytes.extend(record((1, 30, 0)));
    bytes.extend(record((3, 0x11, -1)));
    let mut at_once = Vec::new();
    let mut whole = device(false);
    let mut keyboard = KeyboardState::default();
    whole.read_events(ReadOutcome::Read(&bytes), format, &clock, &mut keyboard, &mut at_once);
    let mut in_parts = Vec::new();
    let mut parts = device(false);
    let mut keyboard = KeyboardState::default();
    for part in [&bytes[..format.size], &bytes[format.size..]] {
        parts.read_events(ReadOutcome::Read(part), format, &clock, &mut keyboard, &mut in_parts);
    }
    assert_eq!(at_once, in_parts);
    assert_eq!(whole.hat, parts.hat);
}

#[test]
fn a_press_that_is_read_repeats_by_the_clock() {
    let mut device = device(false);
    let mut keyboard = KeyboardState::default();
    let mut output = Vec::new();
    let clock = Clock::started();
    let before = clock.elapsed();
    device.read_events(
        ReadOutcome::Read(&record((1, 30, 1))),
        RecordFormat::native(),
        &clock,
        &mut keyboard,
        &mut output,
    );
    let after = clock.elapsed();
    let next = keyboard.repeat.unwrap().next;
    assert!(before + REPEAT_DELAY <= next && next <= after + REPEAT_DELAY);
}

#[test]
fn reading_ends_when_nothing_is_pending() {
    let mut device = device(false);
    let mut keyboard = KeyboardState::default();
    let mut output = Vec::new();
    let clock = Clock::started();
    let format = RecordFormat::native();
    for (outcome, expected) in [
        (ReadOutcome::Read(&[]), ReadStep::Done),
        (ReadOutcome::WouldBlock, ReadStep::Done),
        (ReadOutcome::Failed, ReadStep::Failed),
        (ReadOutcome::Read(&[0]), ReadStep::Again),
    ] {
        let step = device.read_events(outcome, format, &clock, &mut keyboard, &mut output);
        assert_eq!(step, expected);
    }
    assert!(output.is_empty());
}

#[test]
fn read_requests_are_encoded() {
    // EVIOCGNAME(256), EVIOCGBIT(0, 3) and EVIOCGBIT(EV_KEY, 96).
    assert_eq!(evdev_read_request(0x06, 256), 0x8100_4506);
    assert_eq!(query_bits(0, 3), 0x8003_4520);
    assert_eq!(query_bits(1, 96), 0x8060_4521);
    assert_eq!(evdev_read_request(0x06, 0x1_0000), 0x1_8000_4506);
}

#[test]
fn bits_are_counted_from_the_lowest() {
    let bits = [0b0000_0001, 0b1000_0000];
    assert!(has_bit(&bits, 0));
    assert!(!has_bit(&bits, 1));
    assert!(!has_bit(&bits, 8));
    assert!(has_bit(&bits, 15));
    assert!(!has_bit(&bits, 16));
    assert!(!has_bit(&bits, usize::MAX));
    assert!(!has_bit(&[], 0));
}

#[test]
fn names_end_at_the_first_nul() {
    assert_eq!(device_name(4, b"pad\0\0\0"), "pad");
    assert_eq!(device_name(6, b"pad\0xy"), "pad");
    assert_eq!(device_name(2, b"pad\0"), "pa");
    assert_eq!(device_name(900, b"pad"), "pad");
    assert_eq!(device_name(1, b"\0pad"), "");
    assert_eq!(name_bytes(3, b"pad\0"), Some(b"pad".to_vec()));
}

#[test]
fn a_device_without_a_name_is_unknown() {
    assert_eq!(device_name(0, b"pad"), "unknown");
    assert_eq!(device_name(-25, b"pad"), "unknown");
    assert_eq!(name_bytes(0, b"pad"), None);
}

#[test]
fn names_that_are_no_text_are_mended() {
    assert_eq!(device_name(3, b"p\xffd"), "p\u{fffd}d");
    assert_eq!(device_name(2, "\u{e9}".as_bytes()), "\u{e9}");
}

fn set(len: usize, bits: &[usize]) -> Vec<u8> {
    let mut bytes = vec![0u8; len];
    for bit in bits {
        bytes[bit / 8] |= 1 << (bit % 8);
    }
    bytes
}

fn probe(event_types: &[usize], keys: &[usize]) -> ProbeStep {
    let first = Probe::EventTypes;
    assert_eq!(first.request(), (0x8003_4520, 3));
    let ProbeStep::Ask(second) = open_device(first, 3, set(3, event_types)) else {
        panic!("the keys were not asked for");
    };
    assert_eq!(second.request(), (0x8060_4521, 96));
    let ProbeStep::Ask(third) = open_device(second, 96, set(96, keys)) else {
        panic!("the name was not asked for");
    };
    assert_eq!(third.request(), (0x8100_4506, 256));
    open_device(third, 4, b"pad\0".to_vec())
}

#[test]
fn keyboards_gamepads_and_power_buttons_are_used() {
    for wanted in [28, 0x130, 116] {
        for repeats in [false, true] {
            let event_types: &[usize] = if repeats { &[1, 0x14] } else { &[1] };
            let ProbeStep::Use(device) = probe(event_types, &[wanted, 5]) else {
                panic!("{wanted} is not wanted");
            };
            assert_eq!(device.name, "pad");
            assert_eq!(device.kernel_repeat, repeats);
            assert_eq!(device.hat, [None, None]);
        }
    }
}

#[test]
fn other_key_sources_are_ignored() {
    assert!(matches!(probe(&[1], &[1, 113, 114, 0x131]), ProbeStep::Ignored(name) if name == "pad"));
}

#[test]
fn devices_that_do_not_answer_are_unusable() {
    assert!(matches!(open_device(Probe::EventTypes, -1, vec![0; 3]), ProbeStep::Unusable));
    let keys = Probe::Keys { event_types: vec![0; 3] };
    assert!(matches!(open_device(keys, -1, set(96, &[28])), ProbeStep::Unusable));
    let name = Probe::Name { event_types: vec![0; 3], keys: set(96, &[28]) };
    assert!(
        matches!(open_device(name, -1, vec![0; 256]), ProbeStep::Use(device) if device.name == "unknown")
    );
}

fn entries(names: &[&str]) -> Vec<Option<String>> {
    names.iter().map(|name| Some(name.to_string())).collect()
}

#[test]
fn event_nodes_are_opened_in_order_of_their_names() {
    let mut listed = entries(&["event2", "mice", "event10", "by-id", "event1", "even", "event"]);
    listed.push(None);
    assert_eq!(open_devices(&listed), ["event", "event1", "event10", "event2"]);
    listed.reverse();
    assert_eq!(open_devices(&listed), ["event", "event1", "event10", "event2"]);
    assert_eq!(open_devices(&[]), Vec::<String>::new());
    assert_eq!(open_devices(&entries(&["event\u{e9}", "eventz", "Event0"])), ["eventz", "event\u{e9}"]);
}
