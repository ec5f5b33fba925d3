use uefi_input2::input::key_stroke_result;
use uefi_input2::config::Config;
use uefi_input2::key_data::{Key, KeyData, KeyDataError};
use uefi_input2::simple_text_input_ex::{
    InputKey, KeyData as RawKeyData, KeyState, CAPS_LOCK_ACTIVE, KEY_STATE_EXPOSED, LEFT_ALT_PRESSED,
    LEFT_CONTROL_PRESSED, LEFT_LOGO_PRESSED, LEFT_SHIFT_PRESSED, MENU_KEY_PRESSED, NUM_LOCK_ACTIVE,
    RIGHT_ALT_PRESSED, RIGHT_CONTROL_PRESSED, RIGHT_LOGO_PRESSED, RIGHT_SHIFT_PRESSED,
    SCROLL_LOCK_ACTIVE, SHIFT_STATE_VALID, SYS_REQ_PRESSED, TOGGLE_STATE_VALID,
};

fn with_state(shift: u32, toggle: u8) -> KeyData {
    KeyData {
        key: Key::Printable(0x61),
        key_state: KeyState { key_shift_state: shift, key_toggle_state: toggle },
    }
}

#[test]
fn new_from_bmp_character() {
    let d = KeyData::new('a').unwrap();
    assert_eq!(d.key, Key::Printable(0x61));
    assert_eq!(d.key_state, KeyState { key_shift_state: 0, key_toggle_state: 0 });
    assert_eq!(KeyData::new('\u{20AC}').unwrap().key, Key::Printable(0x20AC));
    assert_eq!(KeyData::new('\u{FFFF}').unwrap().key, Key::Printable(0xFFFF));
}

#[test]
fn new_rejects_characters_outside_ucs2() {
    assert_eq!(KeyData::new('\u{1F600}'), Err(KeyDataError::InvalidParameter));
    assert_eq!(KeyData::new('\u{10000}'), Err(KeyDataError::InvalidParameter));
}

#[test]
fn from_raw_decodes_character_and_scan_code() {
    let state = KeyState { key_shift_state: SHIFT_STATE_VALID | LEFT_SHIFT_PRESSED, key_toggle_state: 0 };
    let printable = RawKeyData { key: InputKey { scan_code: 0, unicode_char: 0x41 }, key_state: state };
    let d = KeyData::from_raw(printable);
    assert_eq!(d.key, Key::Printable(0x41));
    assert_eq!(d.key_state, state);
    // escape: a scan code wins over the character field
    let special = RawKeyData { key: InputKey { scan_code: 0x17, unicode_char: 0x1b }, key_state: state };
    assert_eq!(KeyData::from_raw(special).key, Key::Special(0x17));
}

#[test]
fn raw_record_of_key_data() {
    let state = KeyState { key_shift_state: 3, key_toggle_state: 4 };
    let raw: RawKeyData = KeyData { key: Key::Printable(0x7a), key_state: state }.into();
    assert_eq!(raw, RawKeyData { key: InputKey { scan_code: 0, unicode_char: 0x7a }, key_state: state });
    let raw: RawKeyData = KeyData { key: Key::Special(0x01), key_state: state }.into();
    assert_eq!(raw, RawKeyData { key: InputKey { scan_code: 0x01, unicode_char: 0 }, key_state: state });
}

#[test]
fn decode_encode_round_trip() {
    let state = KeyState::default();
    for key in [Key::Printable(0x30), Key::Special(0x0b), Key::Printable(0)] {
        let raw: RawKeyData = KeyData { key, key_state: state }.into();
        assert_eq!(KeyData::from_raw(raw).key, key);
    }
    // the special key with scan code 0 comes back as the NUL character
    let raw: RawKeyData = KeyData { key: Key::Special(0), key_state: state }.into();
    assert_eq!(KeyData::from_raw(raw).key, Key::Printable(0));
    // a record with both a scan code and a character loses the character
    let both = RawKeyData { key: InputKey { scan_code: 2, unicode_char: 0x41 }, key_state: state };
    let back: RawKeyData = KeyData::from_raw(both).into();
    assert_eq!(back.key, InputKey { scan_code: 2, unicode_char: 0 });
}

#[test]
fn surrogates_are_not_decodable() {
    assert!(!InputKey { scan_code: 0, unicode_char: 0xD800 }.is_decodable());
    assert!(!InputKey { scan_code: 0, unicode_char: 0xDFFF }.is_decodable());
    assert!(InputKey { scan_code: 0, unicode_char: 0xD7FF }.is_decodable());
    assert!(InputKey { scan_code: 0, unicode_char: 0xE000 }.is_decodable());
    assert!(InputKey { scan_code: 5, unicode_char: 0xD800 }.is_decodable());
}

#[test]
fn single_modifier_queries() {
    let d = with_state(SHIFT_STATE_VALID | RIGHT_SHIFT_PRESSED | LEFT_CONTROL_PRESSED | RIGHT_ALT_PRESSED | LEFT_LOGO_PRESSED | MENU_KEY_PRESSED, 0);
    assert!(d.supports_modifiers());
    assert!(d.r_shift() && !d.l_shift() && d.shift());
    assert!(!d.r_ctrl() && d.l_ctrl() && d.ctrl());
    assert!(d.r_alt() && !d.l_alt() && d.alt());
    assert!(!d.r_logo() && d.l_logo() && d.logo());
    assert!(d.menu() && !d.sys_req());
    let e = with_state(LEFT_SHIFT_PRESSED | RIGHT_CONTROL_PRESSED | LEFT_ALT_PRESSED | RIGHT_LOGO_PRESSED | SYS_REQ_PRESSED, 0);
    assert!(!e.supports_modifiers());
    assert!(e.l_shift() && e.shift() && e.r_ctrl() && e.ctrl() && e.l_alt() && e.alt());
    assert!(e.r_logo() && e.logo() && e.sys_req() && !e.menu());
}

#[test]
fn either_side_modifier_concrete() {
    for bits in [0u32, 1, 2, 3, 4, 8, 12, 0x10, 0x20, 0x30, 0x40, 0x80, 0xc0, 0x8000_03ff] {
        let d = with_state(bits, 0);
        assert_eq!(d.shift(), d.l_shift() || d.r_shift());
        assert_eq!(d.ctrl(), d.l_ctrl() || d.r_ctrl());
        assert_eq!(d.alt(), d.l_alt() || d.r_alt());
        assert_eq!(d.logo(), d.l_logo() || d.r_logo());
    }
    let none = with_state(MENU_KEY_PRESSED | SYS_REQ_PRESSED | SHIFT_STATE_VALID, 0);
    assert!(!none.shift() && !none.ctrl() && !none.alt() && !none.logo());
}

#[test]
fn toggle_queries() {
    let d = with_state(0, TOGGLE_STATE_VALID | CAPS_LOCK_ACTIVE | SCROLL_LOCK_ACTIVE);
    assert!(d.supports_toggles() && d.caps_lock() && d.scroll_lock());
    assert!(!d.num_lock() && !d.is_realtime_mode());
    let e = with_state(0, KEY_STATE_EXPOSED | NUM_LOCK_ACTIVE);
    assert!(!e.supports_toggles() && e.is_realtime_mode() && e.num_lock() && !e.caps_lock());
}

#[test]
fn realtime_init_state_bits() {
    assert_eq!(KeyData::realtime_init_state(true), 0xC0);
    assert_eq!(KeyData::realtime_init_state(false), 0x80);
    let on = with_state(0, KeyData::realtime_init_state(true));
    assert!(on.supports_toggles() && on.is_realtime_mode());
    assert!(!on.caps_lock() && !on.num_lock() && !on.scroll_lock());
    let off = with_state(0, KeyData::realtime_init_state(false));
    assert!(off.supports_toggles() && !off.is_realtime_mode());
}

#[test]
fn defaults() {
    let c = Config::default();
    assert_eq!(c.refresh_positive_input_device_time, 100_000_000);
    assert_eq!(c.release_timeout, 150);
    assert_eq!(c.long_press_delay, 500);
    assert_eq!(c.click_window, 300);
    let raw = RawKeyData::default();
    assert_eq!(raw.key, InputKey { scan_code: 0, unicode_char: 0 });
    assert_eq!(raw.key_state, KeyState { key_shift_state: 0, key_toggle_state: 0 });
}

#[test]
fn key_stroke_only_on_success() {
    let data = RawKeyData { key: InputKey { scan_code: 0, unicode_char: 0x61 }, key_state: KeyState::default() };
    assert_eq!(key_stroke_result(0, data), Some(data));
    // NOT_READY: no key pending
    assert_eq!(key_stroke_result((1usize << (usize::BITS - 1)) | 6, data), None);
    // a warning code is no success either
    assert_eq!(key_stroke_result(1, data), None);
}
