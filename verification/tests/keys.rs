use gpui_fbdev::key::{key_for_code, Key};

fn key(code: u16) -> Key {
    key_for_code(code).unwrap()
}

#[test]
fn letters_digits_and_signs_type_text() {
    assert_eq!(key(2), Key::printable("1", '1', '!'));
    assert_eq!(key(11), Key::printable("0", '0', ')'));
    assert_eq!(key(13), Key::printable("=", '=', '+'));
    assert_eq!(key(16), Key::printable("q", 'q', 'Q'));
    assert_eq!(key(27), Key::printable("]", ']', '}'));
    assert_eq!(key(30), Key::printable("a", 'a', 'A'));
    assert_eq!(key(40), Key::printable("'", '\'', '"'));
    assert_eq!(key(41), Key::printable("`", '`', '~'));
    assert_eq!(key(43), Key::printable("\\", '\\', '|'));
    assert_eq!(key(50), Key::printable("m", 'm', 'M'));
    assert_eq!(key(53), Key::printable("/", '/', '?'));
    assert_eq!(key(57), Key::printable("space", ' ', ' '));
}

#[test]
fn named_keys_type_nothing() {
    assert_eq!(key(1), Key::named("escape"));
    assert_eq!(key(14), Key::named("backspace"));
    assert_eq!(key(28), Key::named("enter"));
    assert_eq!(key(59), Key::named("f1"));
    assert_eq!(key(68), Key::named("f10"));
    assert_eq!(key(87), Key::named("f11"));
    assert_eq!(key(111), Key::named("delete"));
    assert_eq!(key(116), Key::named("power"));
    assert_eq!(key(158), Key::named("back"));
}

#[test]
fn gamepad_buttons_keep_their_linux_names() {
    assert_eq!(key(0x130), Key::named("btn_south"));
    assert_eq!(key(0x135), Key::named("btn_z"));
    assert_eq!(key(0x139), Key::named("btn_tr2"));
    assert_eq!(key(0x13e), Key::named("btn_thumbr"));
}

#[test]
fn dpad_buttons_are_arrow_keys() {
    assert!(key(0x220).same(&key(103)));
    assert!(key(0x221).same(&key(108)));
    assert!(key(0x222).same(&key(105)));
    assert!(key(0x223).same(&key(106)));
}

#[test]
fn other_codes_are_no_keys() {
    for code in [0, 29, 42, 54, 55, 56, 58, 69, 86, 89, 97, 100, 101, 112, 117, 125, 126, 157] {
        assert_eq!(key_for_code(code), None);
    }
    assert_eq!(key_for_code(0x12f), None);
    assert_eq!(key_for_code(0x13f), None);
    assert_eq!(key_for_code(0x224), None);
    assert_eq!(key_for_code(u16::MAX), None);
}

#[test]
fn keys_are_distinct() {
    let mut seen: Vec<Key> = Vec::new();
    for code in 0..0x220 {
        if let Some(key) = key_for_code(code) {
            assert!(!seen.contains(&key), "{key:?}");
            seen.push(key);
        }
    }
    assert_eq!(seen.len(), 94);
}

#[test]
fn same_tells_names_and_characters_apart() {
    assert!(Key::named("up").same(&Key::named("up")));
    assert!(!Key::named("up").same(&Key::named("down")));
    assert!(!Key::named("a").same(&Key::printable("a", 'a', 'A')));
    assert!(!Key::printable("a", 'a', 'A').same(&Key::printable("a", 'a', 'a')));
    assert!(!Key::named("f1").same(&Key::named("f10")));
}
