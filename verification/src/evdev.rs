//! Finding the input devices: evdev's read ioctls, the bit sets that they return, the names of
//! devices, and the choice among the nodes under `/dev/input`.

use crate::device::{DeviceView, EvdevDevice};
use crate::text::{
    law_bytes_are_ordered_by_their_first_difference, lemma_lex_total, lemma_lex_transitive, lex_le,
    not_after, starts_or_is_smaller,
};
use vstd::arithmetic::power2::{lemma2_to64, pow2};
use vstd::prelude::*;
use vstd::string::*;
use vstd::utf8::{decode_utf8, encode_utf8, encode_utf8_decode_utf8, valid_utf8};

verus! {

/// The event type of keys and buttons.
pub const EV_KEY: u16 = 0x01;

/// The event type of absolute axes.
pub const EV_ABS: u16 = 0x03;

/// The event type that a driver reports when it repeats held keys itself.
pub const EV_REP: usize = 0x14;

pub const KEY_ENTER: usize = 28;

pub const KEY_POWER: usize = 116;

pub const BTN_SOUTH: usize = 0x130;

pub const KEY_COUNT: usize = 0x300;

/// The bytes that hold one bit for each event type up to `EV_REP`.
pub const EVENT_TYPE_BYTES: usize = EV_REP / 8 + 1;

/// The bytes that hold one bit for each key.
pub const KEY_BYTES: usize = KEY_COUNT / 8;

/// The bytes that are asked for of a device's name.
pub const NAME_BYTES: usize = 256;

/// The direction field of an ioctl that reads.
pub const IOC_READ: u64 = 2;

/// The type field of evdev's ioctls, the letter E.
pub const EVDEV_IOC_TYPE: u64 = 0x45;

/// `_IOC(_IOC_READ, 'E', number, len)`, the encoding of evdev's read ioctls.
pub open spec fn read_request(number: u64, len: u64) -> u64 {
    (IOC_READ << 30u64) | (len << 16u64) | (EVDEV_IOC_TYPE << 8u64) | number
}

/// `_IOC(_IOC_READ, 'E', number, len)`, the encoding of evdev's read ioctls. Where the number fits
/// in one byte and the length in fourteen bits, the fields stand side by side.
pub fn evdev_read_request(number: u64, len: usize) -> (request: u64)
    ensures
        request == read_request(number, len as u64),
        number < 0x100 && len < 0x4000 ==> request == IOC_READ * 0x4000_0000 + len * 0x1_0000
            + EVDEV_IOC_TYPE * 0x100 + number,
{
    let size: u64 = len as u64;
    assert(number < 0x100 && size < 0x4000 ==> (2u64 << 30u64) | (size << 16u64) | (0x45u64
        << 8u64) | number == 2 * 0x4000_0000 + size * 0x1_0000 + 0x45 * 0x100 + number)
        by (bit_vector);
    (IOC_READ << 30) | (size << 16) | (EVDEV_IOC_TYPE << 8) | number
}

/// A read request tells its number and its length: while the number fits in one byte and the
/// length in fourteen bits, two requests are equal only if both are.
pub proof fn law_requests_are_distinct(
    number: u64,
    len: u64,
    other_number: u64,
    other_len: u64,
)
    requires
        number < 0x100,
        len < 0x4000,
        other_number < 0x100,
        other_len < 0x4000,
        read_request(number, len) == read_request(other_number, other_len),
    ensures
        number == other_number,
        len == other_len,
{
    assert(number == other_number && len == other_len) by (bit_vector)
        requires
            number < 0x100,
            len < 0x4000,
            other_number < 0x100,
            other_len < 0x4000,
            (2u64 << 30u64) | (len << 16u64) | (0x45u64 << 8u64) | number == (2u64 << 30u64) | (
            other_len << 16u64) | (0x45u64 << 8u64) | other_number,
    ;
}

/// The request of `EVIOCGBIT`: which codes of `event_type` (or which event types, for 0) the
/// device reports, in `len` bytes.
pub fn query_bits(event_type: u64, len: usize) -> (request: u64)
    requires
        event_type + 0x20 <= u64::MAX,
    ensures
        request == read_request((0x20 + event_type) as u64, len as u64),
        event_type < 0xe0 && len < 0x4000 ==> request == IOC_READ * 0x4000_0000 + len * 0x1_0000
            + EVDEV_IOC_TYPE * 0x100 + 0x20 + event_type,
{
    evdev_read_request(0x20 + event_type, len)
}

/// Whether bit `bit` is set, counting from the lowest bit of the first byte.
pub open spec fn bit_set(bits: Seq<u8>, bit: nat) -> bool {
    bit / 8 < bits.len() && (bits[(bit / 8) as int] >> (bit % 8) as u8) & 1 == 1
}

/// Whether bit `bit` is set; bits beyond the end are not.
pub fn has_bit(bits: &[u8], bit: usize) -> (set: bool)
    ensures
        set == bit_set(bits@, bit as nat),
{
    if bit / 8 >= bits.len() {
        return false;
    }
    let byte: u8 = bits[bit / 8];
    let shift: u8 = (bit % 8) as u8;
    proof {
        assert(shift < 8 ==> ((byte & (1u8 << shift)) != 0 <==> (byte >> shift) & 1 == 1))
            by (bit_vector);
    }
    byte & (1 << shift) != 0
}

/// The text before the first NUL byte.
pub open spec fn until_nul(bytes: Seq<u8>) -> Seq<u8> {
    match bytes.index_of_first(0u8) {
        Some(end) => bytes.take(end),
        None => bytes,
    }
}

/// The bytes of the name that the driver left in `buffer` when its ioctl returned `status`, if it
/// gave one: as many as it says, but no more than the buffer holds, up to the first NUL.
pub open spec fn reported_name(status: i32, buffer: Seq<u8>) -> Option<Seq<u8>> {
    if status <= 0 {
        None
    } else if status < buffer.len() {
        Some(until_nul(buffer.take(status as int)))
    } else {
        Some(until_nul(buffer))
    }
}

/// The bytes of the name that the driver left in `buffer` when its ioctl returned `status`.
pub fn name_bytes(status: i32, buffer: &[u8]) -> (name: Option<Vec<u8>>)
    ensures
        match name {
            Some(name) => reported_name(status, buffer@) == Some(name@),
            None => reported_name(status, buffer@) is None,
        },
{
    if status <= 0 {
        return None;
    }
    let reported: usize = status as usize;
    let len: usize = if reported < buffer.len() {
        reported
    } else {
        buffer.len()
    };
    let ghost whole = buffer@.take(len as int);
    let mut name: Vec<u8> = Vec::new();
    let mut i: usize = 0;
    while i < len
        invariant
            i <= len <= buffer.len(),
            whole == buffer@.take(len as int),
            name@ == whole.take(i as int),
            !name@.contains(0u8),
        ensures
            i <= len <= buffer.len(),
            whole == buffer@.take(len as int),
            name@ == whole.take(i as int),
            !name@.contains(0u8),
            i < len ==> whole[i as int] == 0,
        decreases len - i,
    {
        if buffer[i] == 0 {
            break;
        }
        let ghost before = name@;
        name.push(buffer[i]);
        proof {
            assert(whole.take(i + 1) =~= whole.take(i as int).push(whole[i as int]));
            assert forall|j: int| 0 <= j < name@.len() implies name@[j] != 0 by {
                if j < before.len() {
                    assert(before.contains(before[j]));
                }
            }
        }
        i = i + 1;
    }
    proof {
        lemma_until_nul(whole, i as int);
        if len == buffer.len() {
            assert(whole =~= buffer@);
        }
    }
    Some(name)
}

proof fn lemma_until_nul(whole: Seq<u8>, end: int)
    requires
        0 <= end <= whole.len(),
        !whole.take(end).contains(0u8),
        end < whole.len() ==> whole[end] == 0,
    ensures
        until_nul(whole) == whole.take(end),
{
    if end < whole.len() {
        whole.index_of_first_ensures(0u8);
        assert(whole.contains(whole[end]));
        let first = whole.index_of_first(0u8)->0;
        if first < end {
            assert(whole.take(end)[first] == 0);
        }
    } else {
        assert(whole.take(end) =~= whole);
        whole.index_of_first_ensures(0u8);
    }
}

/// What `String::from_utf8_lossy` makes of the bytes.
pub uninterp spec fn lossy_utf8(bytes: Seq<u8>) -> Seq<char>;

/// `String::from_utf8_lossy` decodes UTF-8, putting U+FFFD in place of what is not valid. What is
/// valid is decoded as it stands.
#[verifier::external_body]
fn from_utf8_lossy(bytes: &[u8]) -> (text: String)
    ensures
        text@ == lossy_utf8(bytes@),
        valid_utf8(bytes@) ==> text@ == decode_utf8(bytes@),
{
    String::from_utf8_lossy(bytes).into_owned()
}

/// The name of a device, from what its driver left in `buffer` when the ioctl returned `status`.
pub open spec fn device_name_spec(status: i32, buffer: Seq<u8>) -> Seq<char> {
    match reported_name(status, buffer) {
        Some(bytes) => lossy_utf8(bytes),
        None => "unknown"@,
    }
}

/// The name of a device, from what its driver left in `buffer` when the ioctl returned `status`.
pub fn device_name(status: i32, buffer: &[u8]) -> (name: String)
    ensures
        name@ == device_name_spec(status, buffer@),
        reported_name(status, buffer@) matches Some(bytes) && valid_utf8(bytes) ==> name@
            == decode_utf8(reported_name(status, buffer@)->0),
{
    match name_bytes(status, buffer) {
        Some(bytes) => from_utf8_lossy(bytes.as_slice()),
        None => "unknown".to_owned(),
    }
}

/// Whether a device is a keyboard, a gamepad or a power button. Other key sources are not used:
/// extra key drivers on handhelds can report the same physical press a second time.
pub open spec fn is_wanted(keys: Seq<u8>) -> bool {
    bit_set(keys, KEY_ENTER as nat) || bit_set(keys, BTN_SOUTH as nat) || bit_set(
        keys,
        KEY_POWER as nat,
    )
}

/// A device that is asked what it is, after its node was opened.
#[derive(Debug)]
pub enum Probe {
    /// It is asked for its event types.
    EventTypes,
    /// It is asked for its keys.
    Keys { event_types: Vec<u8> },
    /// It is asked for its name.
    Name { event_types: Vec<u8>, keys: Vec<u8> },
}

/// What comes of an answer of a device that is asked what it is.
#[derive(Debug)]
pub enum ProbeStep {
    /// Ask on.
    Ask(Probe),
    /// The device does not answer.
    Unusable,
    /// The device has this name, and is none that is wanted.
    Ignored(String),
    /// Use the device.
    Use(EvdevDevice),
}

impl Probe {
    /// The ioctl to ask next, and the size of its buffer.
    pub fn request(&self) -> (asked: (u64, usize))
        ensures
            match self {
                Probe::EventTypes => asked.1 == 3 && asked.0 == read_request(0x20, 3),
                Probe::Keys { .. } => asked.1 == 96 && asked.0 == read_request(0x21, 96),
                Probe::Name { .. } => asked.1 == 256 && asked.0 == read_request(0x06, 256),
            },
    {
        match self {
            Probe::EventTypes => (query_bits(0, EVENT_TYPE_BYTES), EVENT_TYPE_BYTES),
            Probe::Keys { .. } => (query_bits(EV_KEY as u64, KEY_BYTES), KEY_BYTES),
            Probe::Name { .. } => (evdev_read_request(0x06, NAME_BYTES), NAME_BYTES),
        }
    }
}

/// Takes the answer of a device: the status that the ioctl returned, and the buffer. A device
/// that does not tell its event types, or its keys, is of no use; one without a name is called
/// unknown.
pub fn open_device(probe: Probe, status: i32, buffer: Vec<u8>) -> (step: ProbeStep)
    ensures
        match probe {
            Probe::EventTypes => if status < 0 {
                step is Unusable
            } else {
                step == ProbeStep::Ask(Probe::Keys { event_types: buffer })
            },
            Probe::Keys { event_types } => if status < 0 {
                step is Unusable
            } else {
                step == ProbeStep::Ask(Probe::Name { event_types, keys: buffer })
            },
            Probe::Name { event_types, keys } => if is_wanted(keys@) {
                step matches ProbeStep::Use(device) && device@ == (DeviceView {
                    name: device_name_spec(status, buffer@),
                    kernel_repeat: bit_set(event_types@, EV_REP as nat),
                    hat_x: None,
                    hat_y: None,
                })
            } else {
                step matches ProbeStep::Ignored(name) && name@ == device_name_spec(
                    status,
                    buffer@,
                )
            },
        },
{
    match probe {
        Probe::EventTypes => {
            if status < 0 {
                return ProbeStep::Unusable;
            }
            ProbeStep::Ask(Probe::Keys { event_types: buffer })
        },
        Probe::Keys { event_types } => {
            if status < 0 {
                return ProbeStep::Unusable;
            }
            ProbeStep::Ask(Probe::Name { event_types, keys: buffer })
        },
        Probe::Name { event_types, keys } => {
            let name = device_name(status, buffer.as_slice());
            let wanted = has_bit(keys.as_slice(), KEY_ENTER) || has_bit(keys.as_slice(), BTN_SOUTH)
                || has_bit(keys.as_slice(), KEY_POWER);
            if !wanted {
                return ProbeStep::Ignored(name);
            }
            ProbeStep::Use(
                EvdevDevice {
                    name,
                    kernel_repeat: has_bit(event_types.as_slice(), EV_REP),
                    hat: [None, None],
                },
            )
        },
    }
}

/// The names of the directory entries that are event nodes, in the order of the entries. An entry
/// whose name could not be read, or is no text, has none.
pub open spec fn event_names(entries: Seq<Option<String>>) -> Seq<Seq<char>>
    decreases entries.len(),
{
    if entries.len() == 0 {
        seq![]
    } else {
        match entries.last() {
            Some(name) if "event"@.is_prefix_of(name@) => event_names(entries.drop_last()).push(
                name@,
            ),
            _ => event_names(entries.drop_last()),
        }
    }
}

/// The characters of each name.
pub open spec fn texts(names: Seq<String>) -> Seq<Seq<char>> {
    names.map_values(|name: String| name@)
}

/// Whether names are sorted by their bytes.
pub open spec fn sorted(names: Seq<Seq<char>>) -> bool {
    forall|i: int, j: int|
        0 <= i < j < names.len() ==> lex_le(
            #[trigger] encode_utf8(names[i]),
            #[trigger] encode_utf8(names[j]),
        )
}

/// Whether `name` starts with "event".
fn is_event_name(name: &str) -> (is_event: bool)
    ensures
        is_event == "event"@.is_prefix_of(name@),
{
    proof {
        reveal_strlit("event");
    }
    let is_event = name.unicode_len() >= 5 && name.get_char(0) == 'e' && name.get_char(1) == 'v'
        && name.get_char(2) == 'e' && name.get_char(3) == 'n' && name.get_char(4) == 't';
    proof {
        if is_event {
            assert("event"@ =~= name@.subrange(0, 5));
        } else if "event"@.is_prefix_of(name@) {
            let start = name@.subrange(0, 5);
            assert(start[0] == 'e' && start[1] == 'v' && start[2] == 'e' && start[3] == 'n'
                && start[4] == 't');
        }
    }
    is_event
}

/// Chooses the nodes to open among the entries of the input device directory, in the order in
/// which to open them.
pub fn open_devices(entries: &[Option<String>]) -> (nodes: Vec<String>)
    ensures
        texts(nodes@).to_multiset() == event_names(entries@).to_multiset(),
        sorted(texts(nodes@)),
{
    let mut nodes: Vec<String> = Vec::new();
    let mut i: usize = 0;
    proof {
        assert(texts(nodes@) =~= seq![]);
        assert(entries@.take(0) =~= seq![]);
    }
    while i < entries.len()
        invariant
            i <= entries.len(),
            texts(nodes@).to_multiset() == event_names(entries@.take(i as int)).to_multiset(),
            sorted(texts(nodes@)),
        decreases entries.len() - i,
    {
        assert(entries@.take(i + 1).drop_last() =~= entries@.take(i as int));
        if let Some(name) = &entries[i] {
            if is_event_name(name.as_str()) {
                let ghost before = event_names(entries@.take(i as int));
                insert_sorted(&mut nodes, name.clone());
                proof {
                    vstd::seq_lib::to_multiset_build(before, name@);
                }
            }
        }
        i = i + 1;
    }
    assert(entries@.take(i as int) =~= entries@);
    nodes
}

/// Puts `name` at its place among sorted names.
fn insert_sorted(names: &mut Vec<String>, name: String)
    requires
        sorted(texts(old(names)@)),
    ensures
        texts(final(names)@).to_multiset() == texts(old(names)@).to_multiset().insert(name@),
        sorted(texts(final(names)@)),
{
    let ghost before = texts(names@);
    let ghost text = name@;
    let mut at: usize = names.len();
    while at > 0 && !not_after(names[at - 1].as_str().as_bytes(), name.as_str().as_bytes())
        invariant
            at <= names.len(),
            before == texts(names@),
            text == name@,
            sorted(before),
            forall|j: int|
                at <= j < before.len() ==> !lex_le(
                    #[trigger] encode_utf8(before[j]),
                    encode_utf8(text),
                ),
        decreases at,
    {
        at = at - 1;
    }
    proof {
        vstd::seq_lib::to_multiset_insert(before, at as int, text);
    }
    names.insert(at, name);
    proof {
        assert(texts(names@) =~= before.insert(at as int, text));
        let encoded = encode_utf8(text);
        assert forall|j: int| 0 <= j < at implies lex_le(
            encode_utf8(before[j]),
            encoded,
        ) by {
            if j < at - 1 {
                lemma_lex_transitive(
                    encode_utf8(before[j]),
                    encode_utf8(before[at - 1]),
                    encoded,
                );
            }
        }
        assert forall|j: int| at <= j < before.len() implies lex_le(
            encoded,
            encode_utf8(before[j]),
        ) by {
            lemma_lex_total(encoded, encode_utf8(before[j]));
        }
        let after = before.insert(at as int, text);
        assert forall|i: int, j: int| 0 <= i < j < after.len() implies lex_le(
            #[trigger] encode_utf8(after[i]),
            #[trigger] encode_utf8(after[j]),
        ) by {
            let p = if i < at {
                i
            } else {
                i - 1
            };
            let q = if j < at {
                j
            } else {
                j - 1
            };
            if i != at && j != at {
                assert(after[i] == before[p] && after[j] == before[q]);
            }
        }
    }
}

/// The order in which devices are opened is fixed by their names, in whatever order the directory
/// lists them.
pub proof fn law_opening_order_is_fixed(nodes: Seq<Seq<char>>, others: Seq<Seq<char>>)
    requires
        sorted(nodes),
        sorted(others),
        nodes.to_multiset() == others.to_multiset(),
    ensures
        nodes == others,
    decreases nodes.len(),
{
    nodes.to_multiset_ensures();
    others.to_multiset_ensures();
    assert(nodes.to_multiset().len() == others.to_multiset().len());
    if nodes.len() == 0 {
        assert(nodes =~= others);
    } else {
        let last = nodes.last();
        let other = others.last();
        assert(nodes.contains(last) && nodes.to_multiset().count(last) > 0);
        assert(others.contains(last));
        assert(others.contains(other) && others.to_multiset().count(other) > 0);
        assert(nodes.contains(other));
        let i = choose|i: int| 0 <= i < others.len() && others[i] == last;
        let j = choose|j: int| 0 <= j < nodes.len() && nodes[j] == other;
        lemma_lex_total(encode_utf8(last), encode_utf8(other));
        assert(lex_le(encode_utf8(others[i]), encode_utf8(other)));
        assert(lex_le(encode_utf8(nodes[j]), encode_utf8(last)));
        encode_utf8_decode_utf8(last);
        encode_utf8_decode_utf8(other);
        assert(last == other);
        assert(nodes.drop_last() =~= nodes.remove(nodes.len() - 1));
        assert(others.drop_last() =~= others.remove(others.len() - 1));
        assert(nodes.drop_last().to_multiset() =~= nodes.to_multiset().remove(last));
        assert(others.drop_last().to_multiset() =~= others.to_multiset().remove(last));
        law_opening_order_is_fixed(nodes.drop_last(), others.drop_last());
        assert(nodes =~= nodes.drop_last().push(last));
        assert(others =~= others.drop_last().push(last));
    }
}

/// A read request holds the fields of the ioctl's encoding: reading, the length from bit 16 on, the
/// letter E in the second byte, and the number from bit 0 on.
pub proof fn law_requests_hold_their_fields(number: u64, len: usize, request: u64)
    requires
        call_ensures(evdev_read_request, (number, len), request),
    ensures
        request == 0x8000_4500u64 | ((len as u64) << 16u64) | number,
        number < 0x100 && len < 0x4000 ==> request == 0x8000_4500 + len * 0x1_0000 + number,
{
    let size = len as u64;
    assert((2u64 << 30u64) | (size << 16u64) | (0x45u64 << 8u64) | number == 0x8000_4500u64 | (size
        << 16u64) | number) by (bit_vector);
}

/// Asking for the codes of an event type is the read request whose number counts the event types
/// from 0x20 on.
pub proof fn law_bits_are_asked_for_by_event_type(
    event_type: u64,
    len: usize,
    request: u64,
    number: u64,
    same_request: u64,
)
    requires
        number == event_type + 0x20,
        call_ensures(query_bits, (event_type, len), request),
        call_ensures(evdev_read_request, (number, len), same_request),
    ensures
        request == same_request,
{
}

/// A device is asked for its event types in 3 bytes, for its keys in 96 bytes, and for its name in
/// 256 bytes.
pub proof fn law_probes_ask_for_whole_answers(probe: Probe, asked: (u64, usize))
    requires
        call_ensures(Probe::request, (&probe,), asked),
    ensures
        probe is EventTypes ==> asked == (0x8003_4520u64, 3usize),
        probe is Keys ==> asked == (0x8060_4521u64, 96usize),
        probe is Name ==> asked == (0x8100_4506u64, 256usize),
{
    assert((2u64 << 30u64) | (3u64 << 16u64) | (0x45u64 << 8u64) | 0x20u64 == 0x8003_4520u64)
        by (bit_vector);
    assert((2u64 << 30u64) | (96u64 << 16u64) | (0x45u64 << 8u64) | 0x21u64 == 0x8060_4521u64)
        by (bit_vector);
    assert((2u64 << 30u64) | (256u64 << 16u64) | (0x45u64 << 8u64) | 0x06u64 == 0x8100_4506u64)
        by (bit_vector);
}

/// A bit is set when its power of two is part of its byte: eight bits to a byte, the lowest first.
/// Bits beyond the last byte are not set.
pub proof fn law_bits_are_powers_of_two(bits: &[u8], bit: usize, set: bool)
    requires
        call_ensures(has_bit, (bits, bit), set),
    ensures
        set <==> bit < 8 * bits@.len() && (bits@[bit as int / 8] as nat / pow2((bit % 8) as nat))
            % 2 == 1,
{
    lemma2_to64();
    if bit / 8 < bits@.len() {
        let byte = bits@[bit as int / 8];
        assert(byte >> 0u8 & 1 == (byte / 1) % 2) by (bit_vector);
        assert(byte >> 1u8 & 1 == (byte / 2) % 2) by (bit_vector);
        assert(byte >> 2u8 & 1 == (byte / 4) % 2) by (bit_vector);
        assert(byte >> 3u8 & 1 == (byte / 8) % 2) by (bit_vector);
        assert(byte >> 4u8 & 1 == (byte / 16) % 2) by (bit_vector);
        assert(byte >> 5u8 & 1 == (byte / 32) % 2) by (bit_vector);
        assert(byte >> 6u8 & 1 == (byte / 64) % 2) by (bit_vector);
        assert(byte >> 7u8 & 1 == (byte / 128) % 2) by (bit_vector);
        let shift = bit as int % 8;
        assert(shift == 0 || shift == 1 || shift == 2 || shift == 3 || shift == 4 || shift == 5
            || shift == 6 || shift == 7);
    }
}

/// A name is what the driver wrote from the start of the buffer on: it holds no NUL, and ends at
/// the first NUL, or where the driver says, or with the buffer. There is none when the driver wrote
/// nothing.
pub proof fn law_names_end_at_the_first_nul(status: i32, buffer: &[u8], name: Option<Vec<u8>>)
    requires
        call_ensures(name_bytes, (status, buffer), name),
    ensures
        name is None <==> status <= 0,
        name matches Some(name) ==> {
            &&& name@.len() <= status
            &&& name@.len() <= buffer@.len()
            &&& name@ == buffer@.take(name@.len() as int)
            &&& forall|i: int| 0 <= i < name@.len() ==> #[trigger] name@[i] != 0
            &&& name@.len() == status || name@.len() == buffer@.len() || buffer@[name@.len() as int]
                == 0
        },
{
    if status > 0 {
        let whole = if status < buffer@.len() {
            buffer@.take(status as int)
        } else {
            buffer@
        };
        whole.index_of_first_ensures(0u8);
        let name = name->0@;
        match whole.index_of_first(0u8) {
            Some(end) => {
                assert(name == whole.take(end));
                assert(name =~= buffer@.take(end));
            },
            None => {
                assert(name =~= buffer@.take(name.len() as int));
                assert forall|i: int| 0 <= i < name.len() implies #[trigger] name[i] != 0 by {
                    assert(whole.contains(whole[i]));
                }
            },
        }
    }
}

/// A device is called by the text of its name, and unknown where it has none.
pub proof fn law_devices_are_called_by_their_names(
    status: i32,
    buffer: &[u8],
    bytes: Option<Vec<u8>>,
    name: String,
)
    requires
        call_ensures(name_bytes, (status, buffer), bytes),
        call_ensures(device_name, (status, buffer), name),
    ensures
        match bytes {
            Some(bytes) => name@ == lossy_utf8(bytes@) && (valid_utf8(bytes@) ==> name@
                == decode_utf8(bytes@)),
            None => name@ == "unknown"@,
        },
{
}

/// A device is asked for its event types, then its keys and then its name, as long as it answers,
/// and each answer is kept as it was given.
pub proof fn law_devices_are_asked_in_turn(
    first_status: i32,
    event_types: Vec<u8>,
    first: ProbeStep,
    second_status: i32,
    keys: Vec<u8>,
    second: ProbeStep,
)
    requires
        call_ensures(open_device, (Probe::EventTypes, first_status, event_types), first),
        call_ensures(open_device, (Probe::Keys { event_types }, second_status, keys), second),
    ensures
        first_status < 0 ==> first is Unusable,
        first_status >= 0 ==> first == ProbeStep::Ask(Probe::Keys { event_types }),
        second_status < 0 ==> second is Unusable,
        second_status >= 0 ==> second == ProbeStep::Ask(Probe::Name { event_types, keys }),
{
}

/// A device that has an enter key, a south button or a power key is used, under its name and with
/// its hat centered; the driver repeats its keys if it reports event type 20. Any other device is
/// ignored. Neither depends on the name.
pub proof fn law_keyboards_gamepads_and_power_buttons_are_used(
    event_types: Vec<u8>,
    keys: Vec<u8>,
    status: i32,
    buffer: Vec<u8>,
    bytes: &[u8],
    name: String,
    step: ProbeStep,
)
    requires
        call_ensures(open_device, (Probe::Name { event_types, keys }, status, buffer), step),
        bytes@ == buffer@,
        call_ensures(device_name, (status, bytes), name),
    ensures
        ({
            let wanted = bit_set(keys@, 28) || bit_set(keys@, 0x130) || bit_set(keys@, 116);
            match step {
                ProbeStep::Use(device) => {
                    &&& wanted
                    &&& device.name@ == name@
                    &&& device.kernel_repeat == bit_set(event_types@, 20)
                    &&& device.hat@[0] is None && device.hat@[1] is None
                },
                ProbeStep::Ignored(ignored) => !wanted && ignored@ == name@,
                _ => false,
            }
        }),
{
}

/// Whether a name starts with "event".
pub open spec fn starts_with_event(name: Seq<char>) -> bool {
    &&& name.len() >= 5
    &&& name[0] == 'e' && name[1] == 'v' && name[2] == 'e' && name[3] == 'n' && name[4] == 't'
}

/// Of the entries of a directory, each is taken or left by its own name, in order: it is taken when
/// the name can be read and starts with "event".
pub proof fn law_entries_are_taken_by_their_names(
    first: Seq<Option<String>>,
    entry: Option<String>,
    second: Seq<Option<String>>,
)
    ensures
        event_names(first + second) == event_names(first) + event_names(second),
        event_names(seq![entry]) == match entry {
            Some(name) if starts_with_event(name@) => seq![name@],
            _ => seq![],
        },
    decreases second.len(),
{
    reveal_strlit("event");
    reveal_with_fuel(event_names, 2);
    assert(seq![entry].drop_last() =~= seq![]);
    if let Some(name) = entry {
        if "event"@.is_prefix_of(name@) {
            let start = name@.subrange(0, 5);
            assert(start[0] == 'e' && start[1] == 'v' && start[2] == 'e' && start[3] == 'n'
                && start[4] == 't');
        } else if starts_with_event(name@) {
            assert("event"@ =~= name@.subrange(0, 5));
        }
    }
    if second.len() == 0 {
        assert(first + second =~= first);
        assert(event_names(first) + Seq::<Seq<char>>::empty() =~= event_names(first));
    } else {
        law_entries_are_taken_by_their_names(first, entry, second.drop_last());
        assert((first + second).drop_last() =~= first + second.drop_last());
        let (a, b) = (event_names(first), event_names(second.drop_last()));
        if let Some(name) = second.last() {
            assert(a + b.push(name@) =~= (a + b).push(name@));
        }
    }
}

/// The nodes that are opened are those whose names start with "event", each as often as it is
/// listed, ordered by the first byte in which their names differ.
pub proof fn law_event_nodes_are_opened_in_order(
    entries: &[Option<String>],
    nodes: Vec<String>,
    i: int,
    j: int,
)
    requires
        call_ensures(open_devices, (entries,), nodes),
        0 <= i < j < nodes@.len(),
    ensures
        nodes@.map_values(|node: String| node@).to_multiset() == event_names(
            entries@,
        ).to_multiset(),
        starts_or_is_smaller(encode_utf8(nodes@[i]@), encode_utf8(nodes@[j]@)),
{
    assert(texts(nodes@) =~= nodes@.map_values(|node: String| node@));
    assert(texts(nodes@)[i] == nodes@[i]@ && texts(nodes@)[j] == nodes@[j]@);
    assert(lex_le(encode_utf8(texts(nodes@)[i]), encode_utf8(texts(nodes@)[j])));
    law_bytes_are_ordered_by_their_first_difference(
        encode_utf8(nodes@[i]@),
        encode_utf8(nodes@[j]@),
    );
}

/// As many nodes are opened as there are entries whose names start with "event".
pub proof fn law_every_event_node_is_opened(entries: &[Option<String>], nodes: Vec<String>)
    requires
        call_ensures(open_devices, (entries,), nodes),
    ensures
        nodes@.len() == event_names(entries@).len(),
        forall|i: int|
            0 <= i < entries@.len() && (#[trigger] entries@[i] matches Some(name)
                && starts_with_event(name@)) ==> nodes@.map_values(|node: String| node@).contains(
                (entries@[i]->0)@,
            ),
        forall|i: int| 0 <= i < nodes@.len() ==> starts_with_event((#[trigger] nodes@[i])@),
{
    let listed = event_names(entries@);
    let opened = texts(nodes@);
    listed.to_multiset_ensures();
    opened.to_multiset_ensures();
    assert(opened =~= nodes@.map_values(|node: String| node@));
    assert forall|i: int|
        0 <= i < entries@.len() && (#[trigger] entries@[i] matches Some(name) && starts_with_event(
            name@,
        )) implies opened.contains((entries@[i]->0)@) by {
        lemma_listed(entries@, i);
        assert(listed.to_multiset().count((entries@[i]->0)@) > 0);
    }
    assert forall|i: int| 0 <= i < nodes@.len() implies starts_with_event((#[trigger] nodes@[i])@)
        by {
        assert(opened[i] == nodes@[i]@);
        assert(opened.contains(opened[i]));
        assert(opened.to_multiset().count(opened[i]) > 0);
        let k = choose|k: int| 0 <= k < listed.len() && listed[k] == opened[i];
        lemma_listed_names_start_with_event(entries@, k);
    }
}

proof fn lemma_listed(entries: Seq<Option<String>>, i: int)
    requires
        0 <= i < entries.len(),
        entries[i] matches Some(name) && starts_with_event(name@),
    ensures
        event_names(entries).contains((entries[i]->0)@),
{
    let name = (entries[i]->0)@;
    assert(entries =~= entries.take(i) + (seq![entries[i]] + entries.skip(i + 1)));
    law_entries_are_taken_by_their_names(
        entries.take(i),
        entries[i],
        seq![entries[i]] + entries.skip(i + 1),
    );
    law_entries_are_taken_by_their_names(seq![entries[i]], entries[i], entries.skip(i + 1));
    let before = event_names(entries.take(i));
    assert(event_names(entries)[before.len() as int] == name);
}

proof fn lemma_listed_names_start_with_event(entries: Seq<Option<String>>, k: int)
    requires
        0 <= k < event_names(entries).len(),
    ensures
        starts_with_event(event_names(entries)[k]),
    decreases entries.len(),
{
    if entries.len() > 0 {
        let last = entries.last();
        law_entries_are_taken_by_their_names(entries.drop_last(), last, seq![last]);
        assert(entries =~= entries.drop_last() + seq![last]);
        if k < event_names(entries.drop_last()).len() {
            lemma_listed_names_start_with_event(entries.drop_last(), k);
        }
    }
}

} // verus!
