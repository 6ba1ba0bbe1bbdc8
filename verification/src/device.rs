//! One input device: decoding its event records and following its D-pad hat.

use crate::clock::{Clock, Nanos, MAX_NANOS};
use crate::evdev::{EV_ABS, EV_KEY};
use crate::input::{
    inputs, lemma_more_inputs, lemma_same_inputs, same_inputs, InputView, PlatformInput,
};
use crate::key::{is_named, key_spec, named_key, same_key, Key, KeyView};
use crate::keyboard::{
    is_down, is_up, key_down_spec, key_event, key_up_spec, pressed, released, same_repeat,
    KeyboardState, KeyboardView, REPEAT_DELAY,
};
use vstd::prelude::*;
use vstd::slice::slice_subrange;

verus! {

/// The horizontal axis of the D-pad hat.
pub const ABS_HAT0X: u16 = 0x10;

/// The vertical axis of the D-pad hat.
pub const ABS_HAT0Y: u16 = 0x11;

/// A keyboard, gamepad or power button.
#[derive(Debug)]
pub struct EvdevDevice {
    pub name: String,
    /// Whether the driver repeats held keys itself; otherwise they are repeated here.
    pub kernel_repeat: bool,
    /// The direction currently pressed on each D-pad hat axis.
    pub hat: [Option<Key>; 2],
}

/// What an `EvdevDevice` stands for.
pub struct DeviceView {
    pub name: Seq<char>,
    pub kernel_repeat: bool,
    pub hat_x: Option<KeyView>,
    pub hat_y: Option<KeyView>,
}

/// What an optional key stands for.
pub open spec fn key_view(key: Option<Key>) -> Option<KeyView> {
    match key {
        Some(key) => Some(key@),
        None => None,
    }
}

impl View for EvdevDevice {
    type V = DeviceView;

    open spec fn view(&self) -> DeviceView {
        DeviceView {
            name: self.name@,
            kernel_repeat: self.kernel_repeat,
            hat_x: key_view(self.hat@[0]),
            hat_y: key_view(self.hat@[1]),
        }
    }
}

/// The direction that the value of a hat axis stands for.
pub open spec fn hat_key(code: u16, value: i32) -> Option<KeyView> {
    if value == 0 {
        None
    } else if code == ABS_HAT0X {
        Some(
            named_key(
                if value < 0 {
                    "left"@
                } else {
                    "right"@
                },
            ),
        )
    } else {
        Some(
            named_key(
                if value < 0 {
                    "up"@
                } else {
                    "down"@
                },
            ),
        )
    }
}

/// The direction currently pressed on a hat axis.
pub open spec fn hat_axis(device: DeviceView, code: u16) -> Option<KeyView> {
    if code == ABS_HAT0X {
        device.hat_x
    } else {
        device.hat_y
    }
}

/// The keyboard after a hat axis went from one direction to another, and the input that it gives:
/// the old direction goes up, then the new one goes down.
pub open spec fn hat_moved(
    keyboard: KeyboardView,
    from: Option<KeyView>,
    to: Option<KeyView>,
    now: nat,
) -> (KeyboardView, Seq<InputView>) {
    if from == to {
        (keyboard, seq![])
    } else {
        let (left, up) = match from {
            Some(key) => (
                released(keyboard, key),
                seq![key_up_spec(keyboard.modifiers, key)],
            ),
            None => (keyboard, seq![]),
        };
        match to {
            Some(key) => (
                pressed(left, key, true, now),
                up.push(key_down_spec(keyboard.modifiers, key, false)),
            ),
            None => (left, up),
        }
    }
}

/// An event of a device.
#[derive(Clone, Copy, Debug, PartialEq, Eq, Structural)]
pub struct InputEvent {
    pub event_type: u16,
    pub code: u16,
    pub value: i32,
}

/// The device and the keyboard after an event at `now`, and the input that it gives.
pub open spec fn event_handled(
    device: DeviceView,
    keyboard: KeyboardView,
    event: InputEvent,
    now: nat,
) -> (DeviceView, KeyboardView, Seq<InputView>) {
    if event.event_type == EV_KEY {
        let (keyboard, given) = key_event(
            keyboard,
            event.code,
            event.value,
            !device.kernel_repeat,
            now,
        );
        (device, keyboard, given)
    } else if event.event_type == EV_ABS && (event.code == ABS_HAT0X || event.code == ABS_HAT0Y) {
        let to = hat_key(event.code, event.value);
        let (keyboard, given) = hat_moved(keyboard, hat_axis(device, event.code), to, now);
        let device = if event.code == ABS_HAT0X {
            DeviceView { hat_x: to, ..device }
        } else {
            DeviceView { hat_y: to, ..device }
        };
        (device, keyboard, given)
    } else {
        (device, keyboard, seq![])
    }
}

impl EvdevDevice {
    /// Handles an event that was read at `now`.
    pub fn handle_event(
        &mut self,
        event_type: u16,
        code: u16,
        value: i32,
        now: Nanos,
        keyboard: &mut KeyboardState,
        output: &mut Vec<PlatformInput>,
    )
        requires
            now + REPEAT_DELAY <= u128::MAX,
        ensures
            final(self)@ == event_handled(
                old(self)@,
                old(keyboard)@,
                (InputEvent { event_type, code, value }),
                now as nat,
            ).0,
            final(keyboard)@ == event_handled(
                old(self)@,
                old(keyboard)@,
                (InputEvent { event_type, code, value }),
                now as nat,
            ).1,
            inputs(final(output)@) == inputs(old(output)@) + event_handled(
                old(self)@,
                old(keyboard)@,
                (InputEvent { event_type, code, value }),
                now as nat,
            ).2,
    {
        if event_type == EV_KEY {
            keyboard.handle_key(code, value, !self.kernel_repeat, now, output);
        } else if event_type == EV_ABS && (code == ABS_HAT0X || code == ABS_HAT0Y) {
            let key = if value == 0 {
                None
            } else if code == ABS_HAT0X {
                Some(
                    Key::named(
                        if value < 0 {
                            "left"
                        } else {
                            "right"
                        },
                    ),
                )
            } else {
                Some(
                    Key::named(
                        if value < 0 {
                            "up"
                        } else {
                            "down"
                        },
                    ),
                )
            };
            let axis: usize = (code - ABS_HAT0X) as usize;
            let previous = self.hat[axis];
            let unchanged = match (&previous, &key) {
                (Some(previous), Some(key)) => previous.same(key),
                (None, None) => true,
                _ => false,
            };
            if unchanged {
                return;
            }
            if let Some(previous) = previous {
                keyboard.release(previous, output);
            }
            if let Some(key) = key {
                keyboard.press(key, true, now, output);
            }
            self.hat[axis] = key;
        }
    }
}

/// The order of the bytes of a number in memory.
#[derive(Clone, Copy, Debug, PartialEq, Eq, Structural)]
pub enum ByteOrder {
    Little,
    Big,
}

/// The order of the bytes of a number in the memory of the machine.
pub open spec fn machine_order() -> ByteOrder {
    match vstd::endian::endianness() {
        vstd::endian::Endian::Little => ByteOrder::Little,
        vstd::endian::Endian::Big => ByteOrder::Big,
    }
}

/// `u16::from_ne_bytes` reads the bytes in the order of the machine.
#[verifier::external_body]
fn native_u16(first: u8, second: u8) -> (number: u16)
    ensures
        number == u16_spec(seq![first, second], machine_order()),
{
    u16::from_ne_bytes([first, second])
}

/// `libc::input_event`, the record in which the kernel writes an event, carried as an opaque type.
#[verifier::external_type_specification]
#[verifier::external_body]
pub struct ExInputEvent(libc::input_event);

/// `std::mem::size_of` gives the size of `libc::input_event` on the machine: a time of eight or
/// sixteen bytes, then the event's type, code and value, which take eight bytes.
#[verifier::external_body]
fn input_event_size() -> (size: usize)
    ensures
        size as nat == vstd::layout::size_of::<libc::input_event>(),
        size == 16 || size == 24,
{
    std::mem::size_of::<libc::input_event>()
}

/// How events are laid out in what is read from a device: records of `size` bytes, the last eight
/// of which hold the type, the code and the value.
#[derive(Clone, Copy, Debug, PartialEq, Eq, Structural)]
pub struct RecordFormat {
    pub size: usize,
    pub order: ByteOrder,
}

impl RecordFormat {
    /// The records hold the fields that are read of them.
    pub open spec fn wf(self) -> bool {
        self.size >= 8
    }

    /// The format of a machine whose records take `size` bytes, and which reads the bytes 1 and 0
    /// as the number `probe`.
    pub fn of_machine(probe: u16, size: usize) -> (format: RecordFormat)
        requires
            probe == u16_spec(seq![1u8, 0u8], ByteOrder::Little) || probe == u16_spec(
                seq![1u8, 0u8],
                ByteOrder::Big,
            ),
        ensures
            format.size == size,
            u16_spec(seq![1u8, 0u8], format.order) == probe,
    {
        let order = if probe == 1 {
            ByteOrder::Little
        } else {
            ByteOrder::Big
        };
        RecordFormat { size, order }
    }

    /// The format of this machine: its records are as large as the kernel's, and their numbers are
    /// in the machine's byte order.
    pub fn native() -> (format: RecordFormat)
        ensures
            format.wf(),
            format.order == machine_order(),
            format.size as nat == vstd::layout::size_of::<libc::input_event>(),
            format.size == 16 || format.size == 24,
    {
        RecordFormat::of_machine(native_u16(1, 0), input_event_size())
    }

    /// The size of a buffer that takes 64 records.
    pub fn buffer_size(&self) -> (size: usize)
        requires
            64 * self.size <= usize::MAX,
        ensures
            size == 64 * self.size,
    {
        64 * self.size
    }
}

/// The number that two bytes hold.
pub open spec fn u16_spec(bytes: Seq<u8>, order: ByteOrder) -> int {
    match order {
        ByteOrder::Little => bytes[0] + 0x100 * bytes[1],
        ByteOrder::Big => 0x100 * bytes[0] + bytes[1],
    }
}

/// The number that four bytes hold in two's complement.
pub open spec fn i32_spec(bytes: Seq<u8>, order: ByteOrder) -> int {
    let unsigned = match order {
        ByteOrder::Little => u16_spec(bytes, order) + 0x1_0000 * u16_spec(bytes.skip(2), order),
        ByteOrder::Big => 0x1_0000 * u16_spec(bytes, order) + u16_spec(bytes.skip(2), order),
    };
    if unsigned < 0x8000_0000 {
        unsigned
    } else {
        unsigned - 0x1_0000_0000
    }
}

/// The event that a record holds.
pub open spec fn record_event(record: Seq<u8>, order: ByteOrder) -> InputEvent {
    let fields = record.skip(record.len() - 8);
    InputEvent {
        event_type: u16_spec(fields, order) as u16,
        code: u16_spec(fields.skip(2), order) as u16,
        value: i32_spec(fields.skip(4), order) as i32,
    }
}

/// The event that a record holds.
pub fn decode_event(record: &[u8], order: ByteOrder) -> (event: InputEvent)
    requires
        record.len() >= 8,
    ensures
        event == record_event(record@, order),
{
    let at: usize = record.len() - 8;
    let high: u32;
    let low: u32;
    let event_type: u16;
    let code: u16;
    let ghost fields = record@.skip(record.len() - 8);
    match order {
        ByteOrder::Little => {
            event_type = record[at] as u16 + 0x100 * record[at + 1] as u16;
            code = record[at + 2] as u16 + 0x100 * record[at + 3] as u16;
            low = record[at + 4] as u32 + 0x100 * record[at + 5] as u32;
            high = record[at + 6] as u32 + 0x100 * record[at + 7] as u32;
        },
        ByteOrder::Big => {
            event_type = 0x100 * record[at] as u16 + record[at + 1] as u16;
            code = 0x100 * record[at + 2] as u16 + record[at + 3] as u16;
            high = 0x100 * record[at + 4] as u32 + record[at + 5] as u32;
            low = 0x100 * record[at + 6] as u32 + record[at + 7] as u32;
        },
    }
    let unsigned: u32 = 0x1_0000 * high + low;
    let value: i32 = if unsigned < 0x8000_0000 {
        unsigned as i32
    } else {
        (unsigned as i64 - 0x1_0000_0000) as i32
    };
    assert(fields.skip(4).skip(2) =~= fields.skip(6));
    InputEvent { event_type, code, value }
}

/// The events in what was read from a device; what is left after the last whole record is none.
pub open spec fn events_in(bytes: Seq<u8>, format: RecordFormat) -> Seq<InputEvent> {
    Seq::new(
        bytes.len() / format.size as nat,
        |i: int|
            record_event(
                bytes.subrange(i * format.size, (i + 1) * format.size),
                format.order,
            ),
    )
}

/// The device and the keyboard after events that were handled one after the other, each at its
/// time, and the input that they give.
pub open spec fn events_handled(
    device: DeviceView,
    keyboard: KeyboardView,
    events: Seq<InputEvent>,
    times: Seq<Nanos>,
) -> (DeviceView, KeyboardView, Seq<InputView>)
    decreases events.len(),
{
    if events.len() == 0 {
        (device, keyboard, seq![])
    } else {
        let (device, keyboard, given) = events_handled(
            device,
            keyboard,
            events.drop_last(),
            times.drop_last(),
        );
        let (device, keyboard, more) = event_handled(
            device,
            keyboard,
            events.last(),
            times.last() as nat,
        );
        (device, keyboard, given + more)
    }
}

/// What came of reading from a device.
pub enum ReadOutcome<'a> {
    /// These bytes were read; none at the end of the file.
    Read(&'a [u8]),
    /// Nothing is pending.
    WouldBlock,
    /// Reading failed.
    Failed,
}

/// What to do after reading from a device.
#[derive(Clone, Copy, Debug, PartialEq, Eq, Structural)]
pub enum ReadStep {
    /// Read again.
    Again,
    /// The device is drained.
    Done,
    /// Stop reading the device.
    Failed,
}

/// What to do after reading from a device.
pub open spec fn read_step(outcome: ReadOutcome) -> ReadStep {
    match outcome {
        ReadOutcome::Read(bytes) => if bytes@.len() == 0 {
            ReadStep::Done
        } else {
            ReadStep::Again
        },
        ReadOutcome::WouldBlock => ReadStep::Done,
        ReadOutcome::Failed => ReadStep::Failed,
    }
}

/// The bytes that were read from a device.
pub open spec fn bytes_read(outcome: ReadOutcome) -> Seq<u8> {
    match outcome {
        ReadOutcome::Read(bytes) => bytes@,
        _ => seq![],
    }
}

/// Whether each of these times is a reading of the clock.
pub open spec fn clock_times(clock: Clock, times: Seq<Nanos>) -> bool {
    forall|i: int|
        0 <= i < times.len() ==> #[trigger] times[i] <= MAX_NANOS && call_ensures(
            Clock::elapsed,
            (&clock,),
            times[i],
        )
}

/// Whether handling the events in `bytes` one after the other, each at the time that the clock
/// then showed, takes the device and the keyboard to where they are after, and gives that input.
pub open spec fn bytes_handled(
    clock: Clock,
    device: DeviceView,
    keyboard: KeyboardView,
    bytes: Seq<u8>,
    format: RecordFormat,
    after: (DeviceView, KeyboardView, Seq<InputView>),
) -> bool {
    exists|times: Seq<Nanos>|
        times.len() == events_in(bytes, format).len() && clock_times(clock, times)
            && #[trigger] events_handled(device, keyboard, events_in(bytes, format), times) == after
}

impl EvdevDevice {
    /// Handles what came of reading from the device: translates the events that were read into
    /// input, each at the time that the clock then shows. What those times are, the clock decides.
    pub fn read_events(
        &mut self,
        outcome: ReadOutcome,
        format: RecordFormat,
        clock: &Clock,
        keyboard: &mut KeyboardState,
        output: &mut Vec<PlatformInput>,
    ) -> (step: ReadStep)
        requires
            format.wf(),
        ensures
            step == read_step(outcome),
            final(output)@.len() >= old(output)@.len(),
            inputs(final(output)@).take(old(output)@.len() as int) == inputs(old(output)@),
            bytes_handled(
                *clock,
                old(self)@,
                old(keyboard)@,
                bytes_read(outcome),
                format,
                (
                    final(self)@,
                    final(keyboard)@,
                    inputs(final(output)@).skip(old(output)@.len() as int),
                ),
            ),
    {
        proof {
            assert(inputs(output@).take(output@.len() as int) =~= inputs(output@));
            assert(inputs(output@).skip(output@.len() as int) =~= seq![]);
            assert(events_in(seq![], format) =~= seq![]) by {
                assert(0nat / format.size as nat == 0) by (nonlinear_arith)
                    requires
                        format.size > 0,
                ;
            }
            assert(events_handled(self@, keyboard@, seq![], seq![]) == (
                self@,
                keyboard@,
                Seq::<InputView>::empty(),
            ));
        }
        match outcome {
            ReadOutcome::Read(bytes) => {
                if bytes.len() == 0 {
                    assert(bytes@ =~= seq![]);
                    return ReadStep::Done;
                }
                self.handle_bytes(bytes, format, clock, keyboard, output);
                ReadStep::Again
            },
            ReadOutcome::WouldBlock => ReadStep::Done,
            ReadOutcome::Failed => ReadStep::Failed,
        }
    }

    /// Translates the events in `bytes` into input, each at the time that the clock then shows.
    fn handle_bytes(
        &mut self,
        bytes: &[u8],
        format: RecordFormat,
        clock: &Clock,
        keyboard: &mut KeyboardState,
        output: &mut Vec<PlatformInput>,
    )
        requires
            format.wf(),
        ensures
            final(output)@.len() >= old(output)@.len(),
            inputs(final(output)@).take(old(output)@.len() as int) == inputs(old(output)@),
            bytes_handled(
                *clock,
                old(self)@,
                old(keyboard)@,
                bytes@,
                format,
                (
                    final(self)@,
                    final(keyboard)@,
                    inputs(final(output)@).skip(old(output)@.len() as int),
                ),
            ),
    {
        let ghost events = events_in(bytes@, format);
        let ghost mut times: Seq<Nanos> = seq![];
        let ghost mut given: Seq<InputView> = seq![];
        let count: usize = bytes.len() / format.size;
        let mut i: usize = 0;
        let mut at: usize = 0;
        proof {
            assert(events.take(0) =~= seq![]);
            assert(count * format.size <= bytes.len()) by (nonlinear_arith)
                requires
                    count == bytes.len() as int / format.size as int,
                    format.size > 0,
            ;
        }
        while i < count
            invariant
                format.wf(),
                i <= count,
                at == i * format.size,
                count * format.size <= bytes.len(),
                count == events.len(),
                events == events_in(bytes@, format),
                times.len() == i,
                clock_times(*clock, times),
                events_handled(old(self)@, old(keyboard)@, events.take(i as int), times) == (
                    self@,
                    keyboard@,
                    given,
                ),
                inputs(output@) == inputs(old(output)@) + given,
            decreases count - i,
        {
            assert((i + 1) * format.size == at + format.size && (i + 1) * format.size <= count
                * format.size) by (nonlinear_arith)
                requires
                    at == i * format.size,
                    i < count,
            ;
            let event = decode_event(slice_subrange(bytes, at, at + format.size), format.order);
            let now: Nanos = clock.elapsed();
            let ghost more = event_handled(self@, keyboard@, event, now as nat).2;
            self.handle_event(event.event_type, event.code, event.value, now, keyboard, output);
            proof {
                assert(event == events[i as int]);
                assert(events.take(i + 1).drop_last() =~= events.take(i as int));
                assert(times.push(now).drop_last() =~= times);
                times = times.push(now);
                assert(inputs(old(output)@) + given + more =~= inputs(old(output)@) + (given
                    + more));
                given = given + more;
            }
            i = i + 1;
            at = at + format.size;
        }
        proof {
            assert(events.take(count as int) =~= events);
            assert(inputs(output@).take(old(output)@.len() as int) =~= inputs(old(output)@));
            assert(inputs(output@).skip(old(output)@.len() as int) =~= given);
        }
    }
}

impl DeviceView {
    /// Each hat axis holds one of its own two directions, or none.
    pub open spec fn wf(self) -> bool {
        &&& self.hat_x matches Some(key) ==> key == named_key("left"@) || key == named_key("right"@)
        &&& self.hat_y matches Some(key) ==> key == named_key("up"@) || key == named_key("down"@)
    }
}

/// Whether an event is that of a hat axis.
pub open spec fn is_hat_event(event: InputEvent) -> bool {
    event.event_type == EV_ABS && (event.code == ABS_HAT0X || event.code == ABS_HAT0Y)
}

/// Whatever a device reports, however much of it, its hat axes hold their own directions, its name
/// and who repeats its keys stay as they are, and the function modifier is never set or cleared.
pub proof fn law_event_sequences_keep_the_device(
    device: DeviceView,
    keyboard: KeyboardView,
    events: Seq<InputEvent>,
    times: Seq<Nanos>,
)
    requires
        device.wf(),
    ensures
        ({
            let (after, keyboard_after, _) = events_handled(device, keyboard, events, times);
            &&& after.wf()
            &&& after.name == device.name
            &&& after.kernel_repeat == device.kernel_repeat
            &&& keyboard_after.modifiers.function == keyboard.modifiers.function
        }),
    decreases events.len(),
{
    if events.len() > 0 {
        law_event_sequences_keep_the_device(
            device,
            keyboard,
            events.drop_last(),
            times.drop_last(),
        );
    }
}

/// After a hat event its axis holds the direction of the value, and the other axis what it held.
pub proof fn law_hat_follows_its_axis(
    device: DeviceView,
    keyboard: KeyboardView,
    event: InputEvent,
    now: nat,
)
    requires
        is_hat_event(event),
    ensures
        ({
            let after = event_handled(device, keyboard, event, now).0;
            let other = if event.code == ABS_HAT0X {
                ABS_HAT0Y
            } else {
                ABS_HAT0X
            };
            &&& hat_axis(after, event.code) == hat_key(event.code, event.value)
            &&& hat_axis(after, other) == hat_axis(device, other)
        }),
{
}

/// A hat that is reported in the same direction again gives nothing, however far it is pushed.
pub proof fn law_hat_direction_is_reported_once(
    device: DeviceView,
    keyboard: KeyboardView,
    event: InputEvent,
    again: InputEvent,
    now: nat,
    later: nat,
)
    requires
        is_hat_event(event),
        is_hat_event(again),
        event.code == again.code,
        hat_key(event.code, event.value) == hat_key(again.code, again.value),
    ensures
        ({
            let (device_after, keyboard_after, _) = event_handled(device, keyboard, event, now);
            event_handled(device_after, keyboard_after, again, later) == (
                device_after,
                keyboard_after,
                Seq::<InputView>::empty(),
            )
        }),
{
}

/// A hat that goes back to its center gives the release of the direction that it was pushed in,
/// and that direction repeats no more.
pub proof fn law_hat_release_undoes_its_press(
    device: DeviceView,
    keyboard: KeyboardView,
    event: InputEvent,
    back: InputEvent,
    now: nat,
    later: nat,
)
    requires
        is_hat_event(event),
        is_hat_event(back),
        event.code == back.code,
        event.value != 0,
        back.value == 0,
        hat_axis(device, event.code) is None,
    ensures
        ({
            let key = hat_key(event.code, event.value)->0;
            let (pushed, down, press) = event_handled(device, keyboard, event, now);
            let (center, up, release) = event_handled(pushed, down, back, later);
            &&& press == seq![key_down_spec(keyboard.modifiers, key, false)]
            &&& release == seq![key_up_spec(keyboard.modifiers, key)]
            &&& center == device
            &&& up == KeyboardView { repeat: None, ..keyboard }
        }),
{
    let key = hat_key(event.code, event.value)->0;
    let (pushed, down, press) = event_handled(device, keyboard, event, now);
    assert(press =~= seq![key_down_spec(keyboard.modifiers, key, false)]);
}

/// Events other than those of keys and of the hat are passed over.
pub proof fn law_other_events_are_passed_over(
    device: DeviceView,
    keyboard: KeyboardView,
    event: InputEvent,
    now: nat,
)
    requires
        event.event_type != EV_KEY,
        !is_hat_event(event),
    ensures
        event_handled(device, keyboard, event, now) == (
            device,
            keyboard,
            Seq::<InputView>::empty(),
        ),
{
}

/// The keys of a device that repeats held keys itself are never made to repeat here.
pub proof fn law_kernel_repeat_is_left_to_the_driver(
    device: DeviceView,
    keyboard: KeyboardView,
    event: InputEvent,
    now: nat,
)
    requires
        device.kernel_repeat,
        event.event_type == EV_KEY,
    ensures
        ({
            let after = event_handled(device, keyboard, event, now).1;
            after.repeat is None || after.repeat == keyboard.repeat
        }),
{
}

/// The arrow keys of a keyboard, the D-pad buttons of a gamepad and the directions of its hat are
/// the same keys.
pub proof fn law_directions_are_the_same_keys(value: i32)
    ensures
        value < 0 ==> hat_key(ABS_HAT0X, value) == key_spec(105) && hat_key(ABS_HAT0X, value)
            == key_spec(0x222),
        value > 0 ==> hat_key(ABS_HAT0X, value) == key_spec(106) && hat_key(ABS_HAT0X, value)
            == key_spec(0x223),
        value < 0 ==> hat_key(ABS_HAT0Y, value) == key_spec(103) && hat_key(ABS_HAT0Y, value)
            == key_spec(0x220),
        value > 0 ==> hat_key(ABS_HAT0Y, value) == key_spec(108) && hat_key(ABS_HAT0Y, value)
            == key_spec(0x221),
{
}

/// Handling events is the same whether they come at once or in two parts.
pub proof fn law_events_can_come_in_parts(
    device: DeviceView,
    keyboard: KeyboardView,
    first: Seq<InputEvent>,
    first_times: Seq<Nanos>,
    second: Seq<InputEvent>,
    second_times: Seq<Nanos>,
)
    requires
        first.len() == first_times.len(),
        second.len() == second_times.len(),
    ensures
        ({
            let (d1, k1, given) = events_handled(device, keyboard, first, first_times);
            let (d2, k2, more) = events_handled(d1, k1, second, second_times);
            events_handled(device, keyboard, first + second, first_times + second_times) == (
                d2,
                k2,
                given + more,
            )
        }),
    decreases second.len(),
{
    let (d1, k1, given) = events_handled(device, keyboard, first, first_times);
    if second.len() == 0 {
        assert(first + second =~= first);
        assert(first_times + second_times =~= first_times);
        assert(given + Seq::<InputView>::empty() =~= given);
    } else {
        law_events_can_come_in_parts(
            device,
            keyboard,
            first,
            first_times,
            second.drop_last(),
            second_times.drop_last(),
        );
        assert((first + second).drop_last() =~= first + second.drop_last());
        assert((first_times + second_times).drop_last() =~= first_times
            + second_times.drop_last());
        let (d, k, more) = events_handled(d1, k1, second.drop_last(), second_times.drop_last());
        let (_, _, last) = event_handled(d, k, second.last(), second_times.last() as nat);
        assert((given + more) + last =~= given + (more + last));
    }
}

/// What is read from a device can be cut between any two records: the events of the parts are the
/// events of the whole.
pub proof fn law_reads_can_be_cut_between_records(
    first: Seq<u8>,
    second: Seq<u8>,
    format: RecordFormat,
)
    requires
        format.wf(),
        first.len() % format.size as nat == 0,
    ensures
        events_in(first + second, format) == events_in(first, format) + events_in(second, format),
{
    let size = format.size as int;
    let whole = first + second;
    let n = first.len() as int / size;
    let m = second.len() as int / size;
    assert(n * size == first.len() && (first.len() + second.len()) as int / size == n + m)
        by (nonlinear_arith)
        requires
            size > 0,
            first.len() as int % size == 0,
            n == first.len() as int / size,
            m == second.len() as int / size,
    ;
    let parts = events_in(first, format) + events_in(second, format);
    assert forall|i: int| 0 <= i < n + m implies #[trigger] events_in(whole, format)[i]
        == parts[i] by {
        if i < n {
            assert((i + 1) * size <= n * size && i * size >= 0 && (i + 1) * size == i * size + size)
                by (nonlinear_arith)
                requires
                    0 <= i < n,
                    size > 0,
            ;
            assert(whole.subrange(i * size, (i + 1) * size) =~= first.subrange(
                i * size,
                (i + 1) * size,
            ));
        } else {
            let j = i - n;
            assert(i * size == n * size + j * size && (i + 1) * size == n * size + (j + 1) * size
                && (j + 1) * size <= second.len() && j * size >= 0 && (j + 1) * size == j * size
                + size) by (nonlinear_arith)
                requires
                    j == i - n,
                    0 <= j < m,
                    m == second.len() as int / size,
                    size > 0,
            ;
            assert(whole.subrange(i * size, (i + 1) * size) =~= second.subrange(
                j * size,
                (j + 1) * size,
            ));
        }
    }
    assert(events_in(whole, format) =~= parts);
}

/// Reading in two parts comes to what reading at once comes to, where the first part ends with a
/// whole record.
pub proof fn law_reads_add_up(
    clock: Clock,
    device: DeviceView,
    keyboard: KeyboardView,
    first: Seq<u8>,
    between: (DeviceView, KeyboardView, Seq<InputView>),
    second: Seq<u8>,
    after: (DeviceView, KeyboardView, Seq<InputView>),
    format: RecordFormat,
)
    requires
        format.wf(),
        first.len() % format.size as nat == 0,
        bytes_handled(clock, device, keyboard, first, format, between),
        bytes_handled(clock, between.0, between.1, second, format, after),
    ensures
        bytes_handled(
            clock,
            device,
            keyboard,
            first + second,
            format,
            (after.0, after.1, between.2 + after.2),
        ),
{
    let events = events_in(first, format);
    let more = events_in(second, format);
    let times = choose|times: Seq<Nanos>|
        times.len() == events.len() && clock_times(clock, times) && #[trigger] events_handled(
            device,
            keyboard,
            events,
            times,
        ) == between;
    let later = choose|times: Seq<Nanos>|
        times.len() == more.len() && clock_times(clock, times) && #[trigger] events_handled(
            between.0,
            between.1,
            more,
            times,
        ) == after;
    law_reads_can_be_cut_between_records(first, second, format);
    law_events_can_come_in_parts(device, keyboard, events, times, more, later);
    assert(events_handled(device, keyboard, events + more, times + later) == (
        after.0,
        after.1,
        between.2 + after.2,
    ));
}

/// The bytes of a number below 0x1_0000.
pub open spec fn u16_bytes(number: int, order: ByteOrder) -> Seq<u8> {
    match order {
        ByteOrder::Little => seq![(number % 0x100) as u8, (number / 0x100) as u8],
        ByteOrder::Big => seq![(number / 0x100) as u8, (number % 0x100) as u8],
    }
}

/// The eight bytes in which the kernel writes an event's type, code and value.
pub open spec fn event_bytes(event: InputEvent, order: ByteOrder) -> Seq<u8> {
    let unsigned = if event.value < 0 {
        event.value + 0x1_0000_0000
    } else {
        event.value as int
    };
    let (first, second) = match order {
        ByteOrder::Little => (unsigned % 0x1_0000, unsigned / 0x1_0000),
        ByteOrder::Big => (unsigned / 0x1_0000, unsigned % 0x1_0000),
    };
    u16_bytes(event.event_type as int, order) + u16_bytes(event.code as int, order) + u16_bytes(
        first,
        order,
    ) + u16_bytes(second, order)
}

/// An event is read as it was written, after a time of any length.
pub proof fn law_events_are_read_as_written(time: Seq<u8>, event: InputEvent, order: ByteOrder)
    ensures
        record_event(time + event_bytes(event, order), order) == event,
{
    let bytes = event_bytes(event, order);
    let record = time + bytes;
    assert(bytes.len() == 8);
    assert(record.skip(record.len() - 8) =~= bytes);
    let unsigned = if event.value < 0 {
        event.value + 0x1_0000_0000
    } else {
        event.value as int
    };
    let (first, second) = match order {
        ByteOrder::Little => (unsigned % 0x1_0000, unsigned / 0x1_0000),
        ByteOrder::Big => (unsigned / 0x1_0000, unsigned % 0x1_0000),
    };
    assert(u16_spec(bytes, order) == event.event_type);
    assert(u16_spec(bytes.skip(2), order) == event.code);
    assert(u16_spec(bytes.skip(4), order) == first);
    assert(u16_spec(bytes.skip(4).skip(2), order) == second);
}

/// Whether a hat axis is pushed in the same direction, or in none.
pub open spec fn same_direction(a: Option<Key>, b: Option<Key>) -> bool {
    match (a, b) {
        (Some(a), Some(b)) => same_key(a, b),
        (None, None) => true,
        _ => false,
    }
}

/// A key event goes to the keyboard whole, with its code and its value as they are. The keys repeat
/// here exactly where the driver does not repeat them. The device stays as it is.
pub proof fn law_key_events_go_to_the_keyboard(
    device: &mut EvdevDevice,
    code: u16,
    value: i32,
    now: Nanos,
    keyboard: &mut KeyboardState,
    output: &mut Vec<PlatformInput>,
)
    requires
        call_ensures(
            EvdevDevice::handle_event,
            (device, 0x01u16, code, value, now, keyboard, output),
            (),
        ),
    ensures
        ({
            let repeats_here = !old(device).kernel_repeat;
            let (after, given) = key_event(old(keyboard)@, code, value, repeats_here, now as nat);
            &&& final(keyboard)@ == after
            &&& inputs(final(output)@) == inputs(old(output)@) + given
        }),
        final(device).name@ == old(device).name@,
        final(device).kernel_repeat == old(device).kernel_repeat,
        same_direction(final(device).hat@[0], old(device).hat@[0]),
        same_direction(final(device).hat@[1], old(device).hat@[1]),
{
}

/// A hat is pushed left and right on its first axis and up and down on its second, by the sign of
/// the value. The direction that an axis leaves goes up, and then the one that it takes goes down,
/// as arrow keys; a direction that it keeps gives nothing. The new direction repeats in 400 ms,
/// whoever repeats the keys of the device; the one that is left repeats no more. The other axis,
/// the modifiers and the rest of the device stay as they are.
pub proof fn law_hat_moves_as_arrow_keys(
    device: &mut EvdevDevice,
    code: u16,
    value: i32,
    now: Nanos,
    keyboard: &mut KeyboardState,
    output: &mut Vec<PlatformInput>,
)
    requires
        code == 0x10 || code == 0x11,
        call_ensures(
            EvdevDevice::handle_event,
            (device, 0x03u16, code, value, now, keyboard, output),
            (),
        ),
    ensures
        ({
            let axis = code - 0x10;
            let from = old(device).hat@[axis];
            let to = final(device).hat@[axis];
            let modifiers = old(keyboard).modifiers;
            let before = old(output)@;
            let after = final(output)@;
            let moved = !same_direction(from, to);
            &&& value == 0 ==> to is None
            &&& code == 0x10 && value < 0 ==> is_named(to, "left"@)
            &&& code == 0x10 && value > 0 ==> is_named(to, "right"@)
            &&& code == 0x11 && value < 0 ==> is_named(to, "up"@)
            &&& code == 0x11 && value > 0 ==> is_named(to, "down"@)
            &&& same_direction(final(device).hat@[1 - axis], old(device).hat@[1 - axis])
            &&& final(device).name@ == old(device).name@
            &&& final(device).kernel_repeat == old(device).kernel_repeat
            &&& final(keyboard).modifiers == modifiers
            &&& after.len() >= before.len()
            &&& same_inputs(before, after.take(before.len() as int))
            &&& !moved ==> after.len() == before.len() && same_repeat(
                final(keyboard).repeat,
                old(keyboard).repeat,
            )
            &&& moved ==> after.len() == before.len() + (if from is Some {
                1int
            } else {
                0
            }) + (if to is Some {
                1int
            } else {
                0
            })
            &&& moved && from is Some ==> is_up(after[before.len() as int], from->0, modifiers)
            &&& moved && to is Some ==> is_down(after.last(), to->0, modifiers, false)
            &&& moved && to is Some ==> (final(keyboard).repeat matches Some(repeat) && same_key(
                repeat.key,
                to->0,
            ) && repeat.next == now + 400_000_000)
            &&& moved && to is None ==> if old(keyboard).repeat matches Some(repeat) && same_key(
                repeat.key,
                from->0,
            ) {
                final(keyboard).repeat is None
            } else {
                same_repeat(final(keyboard).repeat, old(keyboard).repeat)
            }
        }),
{
    let event = InputEvent { event_type: 3, code, value };
    let given = event_handled(old(device)@, old(keyboard)@, event, now as nat).2;
    lemma_more_inputs(old(output)@, final(output)@, given);
    reveal_strlit("left");
    reveal_strlit("right");
    reveal_strlit("up");
    reveal_strlit("down");
    if given.len() > 0 {
        let n = old(output)@.len() as int;
        assert(final(output)@[n + 0]@ == given[0]);
        assert(final(output)@[n + (given.len() - 1)]@ == given.last());
    }
}

/// A pushed hat repeats its direction as a held arrow key does, whoever repeats the keys of the
/// device: at 400 ms if nothing else happens, and not before.
pub proof fn law_pushed_hat_repeats(
    device: DeviceView,
    keyboard: KeyboardView,
    event: InputEvent,
    now: nat,
    later: nat,
)
    requires
        is_hat_event(event),
        hat_key(event.code, event.value) is Some,
        hat_key(event.code, event.value) != hat_axis(device, event.code),
    ensures
        ({
            let key = hat_key(event.code, event.value)->0;
            let after = event_handled(device, keyboard, event, now).1;
            crate::keyboard::repeated(after, later).1 == if later < now + 400_000_000 {
                None
            } else {
                Some(key_down_spec(keyboard.modifiers, key, true))
            }
        }),
{
}

/// An event of another type, or of an axis that is none of the hat's, changes nothing and gives
/// nothing.
pub proof fn law_other_events_do_nothing(
    device: &mut EvdevDevice,
    event_type: u16,
    code: u16,
    value: i32,
    now: Nanos,
    keyboard: &mut KeyboardState,
    output: &mut Vec<PlatformInput>,
)
    requires
        event_type != 0x01,
        event_type != 0x03 || (code != 0x10 && code != 0x11),
        call_ensures(
            EvdevDevice::handle_event,
            (device, event_type, code, value, now, keyboard, output),
            (),
        ),
    ensures
        same_inputs(old(output)@, final(output)@),
        final(keyboard).modifiers == old(keyboard).modifiers,
        same_repeat(final(keyboard).repeat, old(keyboard).repeat),
        final(device).name@ == old(device).name@,
        final(device).kernel_repeat == old(device).kernel_repeat,
        same_direction(final(device).hat@[0], old(device).hat@[0]),
        same_direction(final(device).hat@[1], old(device).hat@[1]),
{
    assert(inputs(old(output)@) + Seq::<InputView>::empty() =~= inputs(old(output)@));
    lemma_same_inputs(old(output)@, final(output)@);
}

/// The number that these bytes hold, the lowest byte first.
pub open spec fn number_of(bytes: Seq<u8>) -> int
    decreases bytes.len(),
{
    if bytes.len() == 0 {
        0
    } else {
        bytes[0] + 0x100 * number_of(bytes.drop_first())
    }
}

/// The bytes from `at` up to `to`, the lowest byte of the number that they hold first.
pub open spec fn lowest_first(bytes: Seq<u8>, at: int, to: int, order: ByteOrder) -> Seq<u8> {
    match order {
        ByteOrder::Little => bytes.subrange(at, to),
        ByteOrder::Big => bytes.subrange(at, to).reverse(),
    }
}

/// The last eight bytes of a record hold the event: two for its type, two for its code and four for
/// its value, in two's complement, all in the byte order and all of them in full.
pub proof fn law_events_stand_last_in_a_record(record: &[u8], order: ByteOrder, event: InputEvent)
    requires
        record@.len() >= 8,
        call_ensures(decode_event, (record, order), event),
    ensures
        ({
            let n = record@.len() as int;
            let value = number_of(lowest_first(record@, n - 4, n, order));
            &&& event.event_type == number_of(lowest_first(record@, n - 8, n - 6, order))
            &&& event.code == number_of(lowest_first(record@, n - 6, n - 4, order))
            &&& event.value == value || event.value == value - 0x1_0000_0000
        }),
{
    reveal_with_fuel(number_of, 5);
    let n = record@.len() as int;
    let fields = record@.skip(n - 8);
    assert(fields.skip(4).skip(2) =~= fields.skip(6));
    let event_type = lowest_first(record@, n - 8, n - 6, order);
    let code = lowest_first(record@, n - 6, n - 4, order);
    let value = lowest_first(record@, n - 4, n, order);
    assert(number_of(event_type) == event_type[0] + 0x100 * event_type[1]);
    assert(number_of(code) == code[0] + 0x100 * code[1]);
    assert(number_of(value) == value[0] + 0x100 * value[1] + 0x1_0000 * value[2] + 0x100_0000
        * value[3]);
}

/// What is read from one record is exactly the event that was written into it.
pub proof fn law_one_record_holds_one_event(time: Seq<u8>, event: InputEvent, format: RecordFormat)
    requires
        format.wf(),
        time.len() == format.size - 8,
    ensures
        events_in(time + event_bytes(event, format.order), format) == seq![event],
{
    let record = time + event_bytes(event, format.order);
    let size = format.size as int;
    assert(size / size == 1 && 0 * size == 0 && (0 + 1) * size == size) by (nonlinear_arith)
        requires
            size > 0,
    ;
    assert(record.len() == size);
    assert(record.subrange(0, size) =~= record);
    law_events_are_read_as_written(time, event, format.order);
    assert(events_in(record, format)[0] == event);
    assert(events_in(record, format) =~= seq![event]);
}

/// The records of these events, one after the other, each after its time.
pub open spec fn records(
    times: Seq<Seq<u8>>,
    events: Seq<InputEvent>,
    order: ByteOrder,
) -> Seq<u8>
    decreases events.len(),
{
    if events.len() == 0 {
        seq![]
    } else {
        records(times.drop_last(), events.drop_last(), order) + (times.last() + event_bytes(
            events.last(),
            order,
        ))
    }
}

/// However many records are read at once, their events are read in order as they were written; what
/// is left of a record that is cut off gives none.
pub proof fn law_records_are_read_as_written(
    times: Seq<Seq<u8>>,
    events: Seq<InputEvent>,
    rest: Seq<u8>,
    format: RecordFormat,
)
    requires
        format.wf(),
        times.len() == events.len(),
        forall|i: int| 0 <= i < times.len() ==> (#[trigger] times[i]).len() == format.size - 8,
        rest.len() < format.size,
    ensures
        events_in(records(times, events, format.order) + rest, format) == events,
{
    lemma_records_are_read_as_written(times, events, format);
    let whole = records(times, events, format.order);
    law_reads_can_be_cut_between_records(whole, rest, format);
    assert(rest.len() / format.size as nat == 0) by (nonlinear_arith)
        requires
            rest.len() < format.size,
    ;
    assert(events_in(rest, format) =~= seq![]);
    assert(events + Seq::<InputEvent>::empty() =~= events);
}

proof fn lemma_records_are_read_as_written(
    times: Seq<Seq<u8>>,
    events: Seq<InputEvent>,
    format: RecordFormat,
)
    requires
        format.wf(),
        times.len() == events.len(),
        forall|i: int| 0 <= i < times.len() ==> (#[trigger] times[i]).len() == format.size - 8,
    ensures
        records(times, events, format.order).len() % format.size as nat == 0,
        events_in(records(times, events, format.order), format) == events,
    decreases events.len(),
{
    let size = format.size as nat;
    if events.len() == 0 {
        assert(0nat % size == 0 && 0nat / size == 0) by (nonlinear_arith)
            requires
                size > 0,
        ;
        assert(events_in(seq![], format) =~= events);
    } else {
        let before = records(times.drop_last(), events.drop_last(), format.order);
        let last = times.last() + event_bytes(events.last(), format.order);
        lemma_records_are_read_as_written(times.drop_last(), events.drop_last(), format);
        law_one_record_holds_one_event(times.last(), events.last(), format);
        law_reads_can_be_cut_between_records(before, last, format);
        assert((before.len() + size) % size == 0) by (nonlinear_arith)
            requires
                size > 0,
                before.len() % size == 0,
        ;
        assert(events.drop_last() + seq![events.last()] =~= events);
    }
}

/// One event that is handled by itself, at its time, comes to what that event comes to; no event
/// comes to nothing.
pub proof fn law_events_are_handled_one_by_one(
    device: DeviceView,
    keyboard: KeyboardView,
    event: InputEvent,
    time: Nanos,
)
    ensures
        events_handled(device, keyboard, seq![event], seq![time]) == event_handled(
            device,
            keyboard,
            event,
            time as nat,
        ),
        events_handled(device, keyboard, seq![], seq![]) == (
            device,
            keyboard,
            Seq::<InputView>::empty(),
        ),
{
    reveal_with_fuel(events_handled, 2);
    assert(seq![event].drop_last() =~= seq![]);
    assert(seq![time].drop_last() =~= seq![]);
    let given = event_handled(device, keyboard, event, time as nat).2;
    assert(Seq::<InputView>::empty() + given =~= given);
}

/// Reading one record comes to handling the event that was written into it, at a time that the
/// clock shows.
pub proof fn law_one_record_is_handled_as_its_event(
    clock: Clock,
    device: DeviceView,
    keyboard: KeyboardView,
    time: Seq<u8>,
    event: InputEvent,
    format: RecordFormat,
    after: (DeviceView, KeyboardView, Seq<InputView>),
)
    requires
        format.wf(),
        time.len() == format.size - 8,
        bytes_handled(
            clock,
            device,
            keyboard,
            time + event_bytes(event, format.order),
            format,
            after,
        ),
    ensures
        exists|now: Nanos|
            call_ensures(Clock::elapsed, (&clock,), now) && after == #[trigger] event_handled(
                device,
                keyboard,
                event,
                now as nat,
            ),
{
    let bytes = time + event_bytes(event, format.order);
    law_one_record_holds_one_event(time, event, format);
    let times = choose|times: Seq<Nanos>|
        times.len() == events_in(bytes, format).len() && clock_times(clock, times)
            && #[trigger] events_handled(device, keyboard, events_in(bytes, format), times)
            == after;
    let now = times[0];
    assert(times =~= seq![now]);
    law_events_are_handled_one_by_one(device, keyboard, event, now);
    assert(after == event_handled(device, keyboard, event, now as nat));
}

/// Whatever is read at once can be taken apart between any two records: first one part is handled
/// and then the other.
pub proof fn law_reads_can_be_taken_apart(
    clock: Clock,
    device: DeviceView,
    keyboard: KeyboardView,
    first: Seq<u8>,
    second: Seq<u8>,
    after: (DeviceView, KeyboardView, Seq<InputView>),
    format: RecordFormat,
)
    requires
        format.wf(),
        first.len() % format.size as nat == 0,
        bytes_handled(clock, device, keyboard, first + second, format, after),
    ensures
        exists|between: (DeviceView, KeyboardView, Seq<InputView>), more: Seq<InputView>|
            #![trigger bytes_handled(clock, device, keyboard, first, format, between), between.2 + more]
            {
                &&& bytes_handled(clock, device, keyboard, first, format, between)
                &&& bytes_handled(
                    clock,
                    between.0,
                    between.1,
                    second,
                    format,
                    (after.0, after.1, more),
                )
                &&& after.2 == between.2 + more
            },
{
    let events = events_in(first, format);
    let more = events_in(second, format);
    law_reads_can_be_cut_between_records(first, second, format);
    let times = choose|times: Seq<Nanos>|
        times.len() == events_in(first + second, format).len() && clock_times(clock, times)
            && #[trigger] events_handled(
            device,
            keyboard,
            events_in(first + second, format),
            times,
        ) == after;
    let early = times.take(events.len() as int);
    let late = times.skip(events.len() as int);
    assert(early + late =~= times);
    law_events_can_come_in_parts(device, keyboard, events, early, more, late);
    let between = events_handled(device, keyboard, events, early);
    let then = events_handled(between.0, between.1, more, late);
    assert(clock_times(clock, early));
    assert(clock_times(clock, late));
    assert(bytes_handled(clock, device, keyboard, first, format, between));
    assert(bytes_handled(
        clock,
        between.0,
        between.1,
        second,
        format,
        (after.0, after.1, then.2),
    ));
    assert(after.2 == between.2 + then.2);
}

/// Less than a record comes to nothing.
pub proof fn law_cut_off_records_do_nothing(
    clock: Clock,
    device: DeviceView,
    keyboard: KeyboardView,
    bytes: Seq<u8>,
    format: RecordFormat,
    after: (DeviceView, KeyboardView, Seq<InputView>),
)
    requires
        bytes.len() < format.size,
        bytes_handled(clock, device, keyboard, bytes, format, after),
    ensures
        after == (device, keyboard, Seq::<InputView>::empty()),
{
    assert(bytes.len() / format.size as nat == 0) by (nonlinear_arith)
        requires
            bytes.len() < format.size,
    ;
}

/// All that is read is handled, and its input goes after what is there. Where nothing was read,
/// nothing changes. Reading goes on until nothing is pending or the file ends, and it fails where
/// reading failed.
pub proof fn law_all_that_is_read_is_handled(
    device: &mut EvdevDevice,
    outcome: ReadOutcome,
    format: RecordFormat,
    clock: Clock,
    keyboard: &mut KeyboardState,
    output: &mut Vec<PlatformInput>,
    step: ReadStep,
)
    requires
        format.wf(),
        call_ensures(
            EvdevDevice::read_events,
            (device, outcome, format, &clock, keyboard, output),
            step,
        ),
    ensures
        final(output)@.len() >= old(output)@.len(),
        same_inputs(old(output)@, final(output)@.take(old(output)@.len() as int)),
        match outcome {
            ReadOutcome::Read(bytes) => {
                &&& step == if bytes@.len() == 0 {
                    ReadStep::Done
                } else {
                    ReadStep::Again
                }
                &&& bytes_handled(
                    clock,
                    old(device)@,
                    old(keyboard)@,
                    bytes@,
                    format,
                    (
                        final(device)@,
                        final(keyboard)@,
                        inputs(final(output)@.skip(old(output)@.len() as int)),
                    ),
                )
            },
            _ => {
                &&& step == if outcome is Failed {
                    ReadStep::Failed
                } else {
                    ReadStep::Done
                }
                &&& final(output)@.len() == old(output)@.len()
                &&& final(device)@ == old(device)@
                &&& final(keyboard)@ == old(keyboard)@
            },
        },
{
    let n = old(output)@.len() as int;
    let given = inputs(final(output)@).skip(n);
    assert(inputs(old(output)@).len() == n && inputs(final(output)@).len() == final(output)@.len());
    assert(inputs(final(output)@) =~= inputs(old(output)@) + given);
    lemma_more_inputs(old(output)@, final(output)@, given);
    assert(inputs(final(output)@.skip(n)) =~= given);
    if !(outcome is Read) {
        law_cut_off_records_do_nothing(
            clock,
            old(device)@,
            old(keyboard)@,
            seq![],
            format,
            (final(device)@, final(keyboard)@, given),
        );
    }
}

/// A machine that reads the bytes 1 and 0 as 1 has the lowest byte first, and one that reads them as
/// 0x100 the highest; its records are as large as it says. A buffer takes 64 of them.
pub proof fn law_formats_are_those_of_the_machine(
    size: usize,
    little: RecordFormat,
    big: RecordFormat,
    native: RecordFormat,
    buffer: usize,
)
    requires
        call_ensures(RecordFormat::of_machine, (1u16, size), little),
        call_ensures(RecordFormat::of_machine, (0x100u16, size), big),
        call_ensures(RecordFormat::native, (), native),
        call_ensures(RecordFormat::buffer_size, (&native,), buffer),
    ensures
        little == (RecordFormat { size, order: ByteOrder::Little }),
        big == (RecordFormat { size, order: ByteOrder::Big }),
        native.order == ByteOrder::Little <==> vstd::endian::endianness()
            == vstd::endian::Endian::Little,
        native.size as nat == vstd::layout::size_of::<libc::input_event>(),
        buffer == 64 * native.size,
{
}

} // verus!
