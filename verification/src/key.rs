//! The keys of keyboards and gamepads, by their Linux key codes.

use crate::text::same_text;
use vstd::prelude::*;

verus! {

/// A key that a device can report.
#[derive(Clone, Copy, Debug, PartialEq)]
pub struct Key {
    pub name: &'static str,
    /// Characters typed without and with shift, for keys that produce text.
    pub characters: Option<(char, char)>,
}

/// What a `Key` stands for.
pub struct KeyView {
    pub name: Seq<char>,
    pub characters: Option<(char, char)>,
}

impl View for Key {
    type V = KeyView;

    open spec fn view(&self) -> KeyView {
        KeyView { name: self.name@, characters: self.characters }
    }
}

/// The key called `name` that types no text.
pub open spec fn named_key(name: Seq<char>) -> KeyView {
    KeyView { name, characters: None }
}

impl Key {
    /// A key that types no text.
    pub fn named(name: &'static str) -> (key: Self)
        ensures
            key.name == name,
            key.characters is None,
            key@ == named_key(name@),
    {
        Self { name, characters: None }
    }

    /// A key that types `plain`, or `shifted` while shift is held.
    pub fn printable(name: &'static str, plain: char, shifted: char) -> (key: Self)
        ensures
            key.name == name,
            key.characters == Some((plain, shifted)),
            key@ == (KeyView { name: name@, characters: Some((plain, shifted)) }),
    {
        Self { name, characters: Some((plain, shifted)) }
    }

    /// Whether two keys are the same key.
    pub fn same(&self, other: &Key) -> (same: bool)
        ensures
            same == (self@ == other@),
    {
        let same_characters = match (self.characters, other.characters) {
            (Some((plain, shifted)), Some((other_plain, other_shifted))) => plain == other_plain
                && shifted == other_shifted,
            (None, None) => true,
            _ => false,
        };
        same_characters && same_text(self.name, other.name)
    }
}

/// The characters that the key with code `code` types without and with shift, on a US layout:
/// the four rows of the main block, and the space bar.
pub open spec fn characters_for_code(code: u16) -> Option<(char, char)> {
    if 2 <= code <= 13 {
        Some(("1234567890-="@[code - 2], "!@#$%^&*()_+"@[code - 2]))
    } else if 16 <= code <= 27 {
        Some(("qwertyuiop[]"@[code - 16], "QWERTYUIOP{}"@[code - 16]))
    } else if 30 <= code <= 41 {
        Some(("asdfghjkl;'`"@[code - 30], "ASDFGHJKL:\"~"@[code - 30]))
    } else if 43 <= code <= 53 {
        Some(("\\zxcvbnm,./"@[code - 43], "|ZXCVBNM<>?"@[code - 43]))
    } else if code == 57 {
        Some((' ', ' '))
    } else {
        None
    }
}

/// The names of the keys that type no text, gamepad buttons among them.
pub open spec fn name_for_code(code: u16) -> Option<Seq<char>> {
    match code {
        1 => Some("escape"@),
        14 => Some("backspace"@),
        15 => Some("tab"@),
        28 => Some("enter"@),
        59 => Some("f1"@),
        60 => Some("f2"@),
        61 => Some("f3"@),
        62 => Some("f4"@),
        63 => Some("f5"@),
        64 => Some("f6"@),
        65 => Some("f7"@),
        66 => Some("f8"@),
        67 => Some("f9"@),
        68 => Some("f10"@),
        87 => Some("f11"@),
        88 => Some("f12"@),
        102 => Some("home"@),
        103 => Some("up"@),
        104 => Some("pageup"@),
        105 => Some("left"@),
        106 => Some("right"@),
        107 => Some("end"@),
        108 => Some("down"@),
        109 => Some("pagedown"@),
        110 => Some("insert"@),
        111 => Some("delete"@),
        113 => Some("mute"@),
        114 => Some("volumedown"@),
        115 => Some("volumeup"@),
        116 => Some("power"@),
        158 => Some("back"@),
        0x130 => Some("btn_south"@),
        0x131 => Some("btn_east"@),
        0x132 => Some("btn_c"@),
        0x133 => Some("btn_north"@),
        0x134 => Some("btn_west"@),
        0x135 => Some("btn_z"@),
        0x136 => Some("btn_tl"@),
        0x137 => Some("btn_tr"@),
        0x138 => Some("btn_tl2"@),
        0x139 => Some("btn_tr2"@),
        0x13a => Some("btn_select"@),
        0x13b => Some("btn_start"@),
        0x13c => Some("btn_mode"@),
        0x13d => Some("btn_thumbl"@),
        0x13e => Some("btn_thumbr"@),
        0x220 => Some("up"@),
        0x221 => Some("down"@),
        0x222 => Some("left"@),
        0x223 => Some("right"@),
        _ => None,
    }
}

/// The key with code `code`. A key that types a visible character is named by that character.
pub open spec fn key_spec(code: u16) -> Option<KeyView> {
    match characters_for_code(code) {
        Some((plain, shifted)) => Some(
            KeyView {
                name: if code == 57 {
                    "space"@
                } else {
                    seq![plain]
                },
                characters: Some((plain, shifted)),
            },
        ),
        None => match name_for_code(code) {
            Some(name) => Some(named_key(name)),
            None => None,
        },
    }
}

proof fn lemma_character_names()
    ensures
        "1"@ == seq!['1'],
        "2"@ == seq!['2'],
        "3"@ == seq!['3'],
        "4"@ == seq!['4'],
        "5"@ == seq!['5'],
        "6"@ == seq!['6'],
        "7"@ == seq!['7'],
        "8"@ == seq!['8'],
        "9"@ == seq!['9'],
        "0"@ == seq!['0'],
        "-"@ == seq!['-'],
        "="@ == seq!['='],
        "q"@ == seq!['q'],
        "w"@ == seq!['w'],
        "e"@ == seq!['e'],
        "r"@ == seq!['r'],
        "t"@ == seq!['t'],
        "y"@ == seq!['y'],
        "u"@ == seq!['u'],
        "i"@ == seq!['i'],
        "o"@ == seq!['o'],
        "p"@ == seq!['p'],
        "["@ == seq!['['],
        "]"@ == seq![']'],
        "a"@ == seq!['a'],
        "s"@ == seq!['s'],
        "d"@ == seq!['d'],
        "f"@ == seq!['f'],
        "g"@ == seq!['g'],
        "h"@ == seq!['h'],
        "j"@ == seq!['j'],
        "k"@ == seq!['k'],
        "l"@ == seq!['l'],
        ";"@ == seq![';'],
        "'"@ == seq!['\''],
        "`"@ == seq!['`'],
        "\\"@ == seq!['\\'],
        "z"@ == seq!['z'],
        "x"@ == seq!['x'],
        "c"@ == seq!['c'],
        "v"@ == seq!['v'],
        "b"@ == seq!['b'],
        "n"@ == seq!['n'],
        "m"@ == seq!['m'],
        ","@ == seq![','],
        "."@ == seq!['.'],
        "/"@ == seq!['/'],
{
    reveal_strlit("1");
    reveal_strlit("2");
    reveal_strlit("3");
    reveal_strlit("4");
    reveal_strlit("5");
    reveal_strlit("6");
    reveal_strlit("7");
    reveal_strlit("8");
    reveal_strlit("9");
    reveal_strlit("0");
    reveal_strlit("-");
    reveal_strlit("=");
    reveal_strlit("q");
    reveal_strlit("w");
    reveal_strlit("e");
    reveal_strlit("r");
    reveal_strlit("t");
    reveal_strlit("y");
    reveal_strlit("u");
    reveal_strlit("i");
    reveal_strlit("o");
    reveal_strlit("p");
    reveal_strlit("[");
    reveal_strlit("]");
    reveal_strlit("a");
    reveal_strlit("s");
    reveal_strlit("d");
    reveal_strlit("f");
    reveal_strlit("g");
    reveal_strlit("h");
    reveal_strlit("j");
    reveal_strlit("k");
    reveal_strlit("l");
    reveal_strlit(";");
    reveal_strlit("'");
    reveal_strlit("`");
    reveal_strlit("\\");
    reveal_strlit("z");
    reveal_strlit("x");
    reveal_strlit("c");
    reveal_strlit("v");
    reveal_strlit("b");
    reveal_strlit("n");
    reveal_strlit("m");
    reveal_strlit(",");
    reveal_strlit(".");
    reveal_strlit("/");
}

/// Maps Linux key codes (US layout) to key names. Gamepad buttons keep their Linux names, since
/// drivers disagree on which physical button each code stands for.
pub fn key_for_code(code: u16) -> (key: Option<Key>)
    ensures
        match key {
            Some(key) => key_spec(code) == Some(key@),
            None => key_spec(code) is None,
        },
{
    proof {
        lemma_character_names();
        reveal_strlit("1234567890-=");
        reveal_strlit("!@#$%^&*()_+");
        reveal_strlit("qwertyuiop[]");
        reveal_strlit("QWERTYUIOP{}");
        reveal_strlit("asdfghjkl;'`");
        reveal_strlit("ASDFGHJKL:\"~");
        reveal_strlit("\\zxcvbnm,./");
        reveal_strlit("|ZXCVBNM<>?");
    }
    let key = match code {
        1 => Key::named("escape"),
        2 => Key::printable("1", '1', '!'),
        3 => Key::printable("2", '2', '@'),
        4 => Key::printable("3", '3', '#'),
        5 => Key::printable("4", '4', '$'),
        6 => Key::printable("5", '5', '%'),
        7 => Key::printable("6", '6', '^'),
        8 => Key::printable("7", '7', '&'),
        9 => Key::printable("8", '8', '*'),
        10 => Key::printable("9", '9', '('),
        11 => Key::printable("0", '0', ')'),
        12 => Key::printable("-", '-', '_'),
        13 => Key::printable("=", '=', '+'),
        14 => Key::named("backspace"),
        15 => Key::named("tab"),
        16 => Key::printable("q", 'q', 'Q'),
        17 => Key::printable("w", 'w', 'W'),
        18 => Key::printable("e", 'e', 'E'),
        19 => Key::printable("r", 'r', 'R'),
        20 => Key::printable("t", 't', 'T'),
        21 => Key::printable("y", 'y', 'Y'),
        22 => Key::printable("u", 'u', 'U'),
        23 => Key::printable("i", 'i', 'I'),
        24 => Key::printable("o", 'o', 'O'),
        25 => Key::printable("p", 'p', 'P'),
        26 => Key::printable("[", '[', '{'),
        27 => Key::printable("]", ']', '}'),
        28 => Key::named("enter"),
        30 => Key::printable("a", 'a', 'A'),
        31 => Key::printable("s", 's', 'S'),
        32 => Key::printable("d", 'd', 'D'),
        33 => Key::printable("f", 'f', 'F'),
        34 => Key::printable("g", 'g', 'G'),
        35 => Key::printable("h", 'h', 'H'),
        36 => Key::printable("j", 'j', 'J'),
        37 => Key::printable("k", 'k', 'K'),
        38 => Key::printable("l", 'l', 'L'),
        39 => Key::printable(";", ';', ':'),
        40 => Key::printable("'", '\'', '"'),
        41 => Key::printable("`", '`', '~'),
        43 => Key::printable("\\", '\\', '|'),
        44 => Key::printable("z", 'z', 'Z'),
        45 => Key::printable("x", 'x', 'X'),
        46 => Key::printable("c", 'c', 'C'),
        47 => Key::printable("v", 'v', 'V'),
        48 => Key::printable("b", 'b', 'B'),
        49 => Key::printable("n", 'n', 'N'),
        50 => Key::printable("m", 'm', 'M'),
        51 => Key::printable(",", ',', '<'),
        52 => Key::printable(".", '.', '>'),
        53 => Key::printable("/", '/', '?'),
        57 => Key::printable("space", ' ', ' '),
        59 => Key::named("f1"),
        60 => Key::named("f2"),
        61 => Key::named("f3"),
        62 => Key::named("f4"),
        63 => Key::named("f5"),
        64 => Key::named("f6"),
        65 => Key::named("f7"),
        66 => Key::named("f8"),
        67 => Key::named("f9"),
        68 => Key::named("f10"),
        87 => Key::named("f11"),
        88 => Key::named("f12"),
        102 => Key::named("home"),
        103 => Key::named("up"),
        104 => Key::named("pageup"),
        105 => Key::named("left"),
        106 => Key::named("right"),
        107 => Key::named("end"),
        108 => Key::named("down"),
        109 => Key::named("pagedown"),
        110 => Key::named("insert"),
        111 => Key::named("delete"),
        113 => Key::named("mute"),
        114 => Key::named("volumedown"),
        115 => Key::named("volumeup"),
        116 => Key::named("power"),
        158 => Key::named("back"),
        0x130 => Key::named("btn_south"),
        0x131 => Key::named("btn_east"),
        0x132 => Key::named("btn_c"),
        0x133 => Key::named("btn_north"),
        0x134 => Key::named("btn_west"),
        0x135 => Key::named("btn_z"),
        0x136 => Key::named("btn_tl"),
        0x137 => Key::named("btn_tr"),
        0x138 => Key::named("btn_tl2"),
        0x139 => Key::named("btn_tr2"),
        0x13a => Key::named("btn_select"),
        0x13b => Key::named("btn_start"),
        0x13c => Key::named("btn_mode"),
        0x13d => Key::named("btn_thumbl"),
        0x13e => Key::named("btn_thumbr"),
        0x220 => Key::named("up"),
        0x221 => Key::named("down"),
        0x222 => Key::named("left"),
        0x223 => Key::named("right"),
        _ => return None,
    };
    Some(key)
}

/// The code of the keyboard's key where a D-pad button stands for the same key.
pub open spec fn keyboard_code(code: u16) -> u16 {
    match code {
        0x220 => 103,
        0x221 => 108,
        0x222 => 105,
        0x223 => 106,
        _ => code,
    }
}

/// The code of the key that types `plain` without shift.
spec fn code_of_character(plain: char) -> u16 {
    match plain {
        '1' => 2,
        '2' => 3,
        '3' => 4,
        '4' => 5,
        '5' => 6,
        '6' => 7,
        '7' => 8,
        '8' => 9,
        '9' => 10,
        '0' => 11,
        '-' => 12,
        '=' => 13,
        'q' => 16,
        'w' => 17,
        'e' => 18,
        'r' => 19,
        't' => 20,
        'y' => 21,
        'u' => 22,
        'i' => 23,
        'o' => 24,
        'p' => 25,
        '[' => 26,
        ']' => 27,
        'a' => 30,
        's' => 31,
        'd' => 32,
        'f' => 33,
        'g' => 34,
        'h' => 35,
        'j' => 36,
        'k' => 37,
        'l' => 38,
        ';' => 39,
        '\'' => 40,
        '`' => 41,
        '\\' => 43,
        'z' => 44,
        'x' => 45,
        'c' => 46,
        'v' => 47,
        'b' => 48,
        'n' => 49,
        'm' => 50,
        ',' => 51,
        '.' => 52,
        '/' => 53,
        ' ' => 57,
        _ => 0,
    }
}

/// The code of the key called `name`, which three of the name's characters tell.
spec fn code_of_name(name: Seq<char>) -> u16 {
    let n = name.len() as int;
    match (name[n / 2], name[n - 2], name[n - 1]) {
        ('a', 'p', 'e') => 1,
        ('s', 'c', 'e') => 14,
        ('a', 'a', 'b') => 15,
        ('t', 'e', 'r') => 28,
        ('1', 'f', '1') => 59,
        ('2', 'f', '2') => 60,
        ('3', 'f', '3') => 61,
        ('4', 'f', '4') => 62,
        ('5', 'f', '5') => 63,
        ('6', 'f', '6') => 64,
        ('7', 'f', '7') => 65,
        ('8', 'f', '8') => 66,
        ('9', 'f', '9') => 67,
        ('1', '1', '0') => 68,
        ('1', '1', '1') => 87,
        ('1', '1', '2') => 88,
        ('m', 'm', 'e') => 102,
        ('p', 'u', 'p') => 103,
        ('e', 'u', 'p') => 104,
        ('f', 'f', 't') => 105,
        ('g', 'h', 't') => 106,
        ('n', 'n', 'd') => 107,
        ('w', 'w', 'n') => 108,
        ('d', 'w', 'n') => 109,
        ('e', 'r', 't') => 110,
        ('e', 't', 'e') => 111,
        ('t', 't', 'e') => 113,
        ('e', 'w', 'n') => 114,
        ('m', 'u', 'p') => 115,
        ('w', 'e', 'r') => 116,
        ('c', 'c', 'k') => 158,
        ('s', 't', 'h') => 0x130,
        ('e', 's', 't') => 0x131,
        ('n', '_', 'c') => 0x132,
        ('n', 't', 'h') => 0x133,
        ('w', 's', 't') => 0x134,
        ('n', '_', 'z') => 0x135,
        ('_', 't', 'l') => 0x136,
        ('_', 't', 'r') => 0x137,
        ('_', 'l', '2') => 0x138,
        ('_', 'r', '2') => 0x139,
        ('e', 'c', 't') => 0x13a,
        ('s', 'r', 't') => 0x13b,
        ('m', 'd', 'e') => 0x13c,
        ('h', 'b', 'l') => 0x13d,
        ('h', 'b', 'r') => 0x13e,
        _ => 0,
    }
}

proof fn lemma_code_of_character(code: u16)
    requires
        characters_for_code(code) is Some,
    ensures
        code_of_character((characters_for_code(code)->0).0) == code,
{
    reveal_strlit("1234567890-=");
    reveal_strlit("qwertyuiop[]");
    reveal_strlit("asdfghjkl;'`");
    reveal_strlit("\\zxcvbnm,./");
}

proof fn lemma_code_of_name(code: u16)
    requires
        name_for_code(code) is Some,
    ensures
        code_of_name(name_for_code(code)->0) == keyboard_code(code),
{
    match code {
        1 => reveal_strlit("escape"),
        14 => reveal_strlit("backspace"),
        15 => reveal_strlit("tab"),
        28 => reveal_strlit("enter"),
        59 => reveal_strlit("f1"),
        60 => reveal_strlit("f2"),
        61 => reveal_strlit("f3"),
        62 => reveal_strlit("f4"),
        63 => reveal_strlit("f5"),
        64 => reveal_strlit("f6"),
        65 => reveal_strlit("f7"),
        66 => reveal_strlit("f8"),
        67 => reveal_strlit("f9"),
        68 => reveal_strlit("f10"),
        87 => reveal_strlit("f11"),
        88 => reveal_strlit("f12"),
        102 => reveal_strlit("home"),
        103 => reveal_strlit("up"),
        104 => reveal_strlit("pageup"),
        105 => reveal_strlit("left"),
        106 => reveal_strlit("right"),
        107 => reveal_strlit("end"),
        108 => reveal_strlit("down"),
        109 => reveal_strlit("pagedown"),
        110 => reveal_strlit("insert"),
        111 => reveal_strlit("delete"),
        113 => reveal_strlit("mute"),
        114 => reveal_strlit("volumedown"),
        115 => reveal_strlit("volumeup"),
        116 => reveal_strlit("power"),
        158 => reveal_strlit("back"),
        0x130 => reveal_strlit("btn_south"),
        0x131 => reveal_strlit("btn_east"),
        0x132 => reveal_strlit("btn_c"),
        0x133 => reveal_strlit("btn_north"),
        0x134 => reveal_strlit("btn_west"),
        0x135 => reveal_strlit("btn_z"),
        0x136 => reveal_strlit("btn_tl"),
        0x137 => reveal_strlit("btn_tr"),
        0x138 => reveal_strlit("btn_tl2"),
        0x139 => reveal_strlit("btn_tr2"),
        0x13a => reveal_strlit("btn_select"),
        0x13b => reveal_strlit("btn_start"),
        0x13c => reveal_strlit("btn_mode"),
        0x13d => reveal_strlit("btn_thumbl"),
        0x13e => reveal_strlit("btn_thumbr"),
        0x220 => reveal_strlit("up"),
        0x221 => reveal_strlit("down"),
        0x222 => reveal_strlit("left"),
        0x223 => reveal_strlit("right"),
        _ => {},
    }
}

/// Different codes stand for different keys, but that the D-pad buttons of a gamepad are the arrow
/// keys of a keyboard.
pub proof fn law_keys_are_distinct(code: u16, other: u16)
    requires
        key_spec(code) is Some,
        key_spec(code) == key_spec(other),
    ensures
        keyboard_code(code) == keyboard_code(other),
{
    if characters_for_code(code) is Some {
        lemma_code_of_character(code);
        lemma_code_of_character(other);
    } else {
        lemma_code_of_name(code);
        lemma_code_of_name(other);
    }
}

/// Whether two keys have the same name and type the same characters.
pub open spec fn same_key(a: Key, b: Key) -> bool {
    a.name@ == b.name@ && a.characters == b.characters
}

/// Keys are the same exactly when they have the same name and type the same characters.
pub proof fn law_keys_are_known_by_name_and_characters(a: Key, b: Key, same: bool)
    requires
        call_ensures(Key::same, (&a, &b), same),
    ensures
        same <==> same_key(a, b),
{
}

/// Whether this is a key that types `plain`, or `shifted` with shift, and is named by what it types.
pub open spec fn is_sign(key: Option<Key>, plain: char, shifted: char) -> bool {
    &&& key matches Some(key)
    &&& key.name@ == seq![plain]
    &&& key.characters == Some((plain, shifted))
}

/// Whether this is a key called `name` that types no text.
pub open spec fn is_named(key: Option<Key>, name: Seq<char>) -> bool {
    &&& key matches Some(key)
    &&& key.name@ == name
    &&& key.characters is None
}

/// The main block of a keyboard has the US layout, row by row: each of its keys is named by the
/// character that it types, and the space bar by its name.
pub proof fn law_main_block_has_the_us_layout(code: u16, key: Option<Key>)
    requires
        call_ensures(key_for_code, (code,), key),
    ensures
        2 <= code <= 13 ==> is_sign(key, "1234567890-="@[code - 2], "!@#$%^&*()_+"@[code - 2]),
        16 <= code <= 27 ==> is_sign(key, "qwertyuiop[]"@[code - 16], "QWERTYUIOP{}"@[code - 16]),
        30 <= code <= 41 ==> is_sign(key, "asdfghjkl;'`"@[code - 30], "ASDFGHJKL:\"~"@[code - 30]),
        43 <= code <= 53 ==> is_sign(key, "\\zxcvbnm,./"@[code - 43], "|ZXCVBNM<>?"@[code - 43]),
        code == 57 ==> (key matches Some(key) && key.name@ == "space"@ && key.characters == Some(
            (' ', ' '),
        )),
{
}

/// A key that types a letter types the same letter in upper case with shift, and a key that types a
/// digit stands at its place in the row of digits.
pub proof fn law_shift_makes_letters_upper_case(code: u16, key: Key)
    requires
        call_ensures(key_for_code, (code,), Some(key)),
        key.characters is Some,
    ensures
        ({
            let (plain, shifted) = key.characters->0;
            &&& 'a' <= plain <= 'z' ==> shifted as int == plain as int - 0x20
            &&& 'A' <= shifted <= 'Z' ==> plain as int == shifted as int + 0x20
            &&& !('A' <= plain <= 'Z')
            &&& '1' <= plain <= '9' ==> code == plain as int - 0x30 + 1
            &&& plain == '0' ==> code == 11
            &&& plain == shifted <==> code == 57
        }),
{
    reveal_strlit("1234567890-=");
    reveal_strlit("!@#$%^&*()_+");
    reveal_strlit("qwertyuiop[]");
    reveal_strlit("QWERTYUIOP{}");
    reveal_strlit("asdfghjkl;'`");
    reveal_strlit("ASDFGHJKL:\"~");
    reveal_strlit("\\zxcvbnm,./");
    reveal_strlit("|ZXCVBNM<>?");
}

/// The keys that type no text, and the buttons of gamepads, have these names.
pub proof fn law_other_keys_have_their_names(code: u16, key: Option<Key>)
    requires
        call_ensures(key_for_code, (code,), key),
    ensures
        code == 1 ==> is_named(key, "escape"@),
        code == 14 ==> is_named(key, "backspace"@),
        code == 15 ==> is_named(key, "tab"@),
        code == 28 ==> is_named(key, "enter"@),
        code == 59 ==> is_named(key, "f1"@),
        code == 60 ==> is_named(key, "f2"@),
        code == 61 ==> is_named(key, "f3"@),
        code == 62 ==> is_named(key, "f4"@),
        code == 63 ==> is_named(key, "f5"@),
        code == 64 ==> is_named(key, "f6"@),
        code == 65 ==> is_named(key, "f7"@),
        code == 66 ==> is_named(key, "f8"@),
        code == 67 ==> is_named(key, "f9"@),
        code == 68 ==> is_named(key, "f10"@),
        code == 87 ==> is_named(key, "f11"@),
        code == 88 ==> is_named(key, "f12"@),
        code == 102 ==> is_named(key, "home"@),
        code == 103 ==> is_named(key, "up"@),
        code == 104 ==> is_named(key, "pageup"@),
        code == 105 ==> is_named(key, "left"@),
        code == 106 ==> is_named(key, "right"@),
        code == 107 ==> is_named(key, "end"@),
        code == 108 ==> is_named(key, "down"@),
        code == 109 ==> is_named(key, "pagedown"@),
        code == 110 ==> is_named(key, "insert"@),
        code == 111 ==> is_named(key, "delete"@),
        code == 113 ==> is_named(key, "mute"@),
        code == 114 ==> is_named(key, "volumedown"@),
        code == 115 ==> is_named(key, "volumeup"@),
        code == 116 ==> is_named(key, "power"@),
        code == 158 ==> is_named(key, "back"@),
        code == 0x130 ==> is_named(key, "btn_south"@),
        code == 0x131 ==> is_named(key, "btn_east"@),
        code == 0x132 ==> is_named(key, "btn_c"@),
        code == 0x133 ==> is_named(key, "btn_north"@),
        code == 0x134 ==> is_named(key, "btn_west"@),
        code == 0x135 ==> is_named(key, "btn_z"@),
        code == 0x136 ==> is_named(key, "btn_tl"@),
        code == 0x137 ==> is_named(key, "btn_tr"@),
        code == 0x138 ==> is_named(key, "btn_tl2"@),
        code == 0x139 ==> is_named(key, "btn_tr2"@),
        code == 0x13a ==> is_named(key, "btn_select"@),
        code == 0x13b ==> is_named(key, "btn_start"@),
        code == 0x13c ==> is_named(key, "btn_mode"@),
        code == 0x13d ==> is_named(key, "btn_thumbl"@),
        code == 0x13e ==> is_named(key, "btn_thumbr"@),
        code == 0x220 ==> is_named(key, "up"@),
        code == 0x221 ==> is_named(key, "down"@),
        code == 0x222 ==> is_named(key, "left"@),
        code == 0x223 ==> is_named(key, "right"@),
{
}

/// There are no other keys: the modifiers, the locks, the keypad and all codes beyond are none.
pub proof fn law_no_other_code_is_a_key(code: u16, key: Option<Key>)
    requires
        call_ensures(key_for_code, (code,), key),
    ensures
        key is Some <==> {
            ||| 1 <= code <= 28
            ||| 30 <= code <= 41
            ||| 43 <= code <= 53
            ||| code == 57
            ||| 59 <= code <= 68
            ||| code == 87 || code == 88
            ||| 102 <= code <= 111
            ||| 113 <= code <= 116
            ||| code == 158
            ||| 0x130 <= code <= 0x13e
            ||| 0x220 <= code <= 0x223
        },
{
}

/// A key made by name types nothing; one made to be printable types what it was made with.
pub proof fn law_keys_are_made_as_asked(
    name: &'static str,
    plain: char,
    shifted: char,
    named: Key,
    printable: Key,
)
    requires
        call_ensures(Key::named, (name,), named),
        call_ensures(Key::printable, (name, plain, shifted), printable),
    ensures
        named.name@ == name@,
        named.characters is None,
        printable.name@ == name@,
        printable.characters == Some((plain, shifted)),
{
}

} // verus!
