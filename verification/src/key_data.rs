//! High-level key data: the decoded key together with its shift and toggle
//! state, and the queries on those states.
use vstd::prelude::*;
use crate::simple_text_input_ex::{
    InputKey, KeyState, KeyData as RawKeyData, SHIFT_STATE_VALID, RIGHT_SHIFT_PRESSED,
    LEFT_SHIFT_PRESSED, RIGHT_CONTROL_PRESSED, LEFT_CONTROL_PRESSED, RIGHT_ALT_PRESSED,
    LEFT_ALT_PRESSED, RIGHT_LOGO_PRESSED, LEFT_LOGO_PRESSED, MENU_KEY_PRESSED, SYS_REQ_PRESSED,
    TOGGLE_STATE_VALID, KEY_STATE_EXPOSED, SCROLL_LOCK_ACTIVE, NUM_LOCK_ACTIVE, CAPS_LOCK_ACTIVE,
};

verus! {

/// A decoded key: a printable UCS-2 character, or a special key given by its
/// scan code.
#[derive(Clone, Copy, Debug, PartialEq, Eq, Structural)]
pub enum Key {
    /// A printable character, as its UCS-2 code unit.
    Printable(u16),
    /// A special key (arrow, function key, ...), as its scan code.
    Special(u16),
}

/// High-level key data: the decoded key and the keyboard state.
#[derive(Clone, Copy, Debug, PartialEq, Eq, Structural)]
pub struct KeyData {
    pub key: Key,
    pub key_state: KeyState,
}

/// Why a `KeyData` could not be built.
#[derive(Clone, Copy, Debug, PartialEq, Eq, Structural)]
pub enum KeyDataError {
    /// The character has no UCS-2 form (it lies outside the Basic Multilingual Plane).
    InvalidParameter,
}

/// Whether any of the bits of `mask` is set in `bits`.
pub open spec fn has_flag(bits: u32, mask: u32) -> bool {
    bits & mask != 0
}

/// Whether any of the bits of `mask` is set in the toggle byte `bits`.
pub open spec fn has_toggle(bits: u8, mask: u8) -> bool {
    bits & mask != 0
}

/// A UTF-16 surrogate code unit, which is no UCS-2 character.
pub open spec fn is_surrogate(u: u16) -> bool {
    0xD800 <= u <= 0xDFFF
}

/// A raw key can be decoded unless it claims to be a character (scan code 0)
/// and that character is a surrogate code unit.
pub open spec fn decodable(k: InputKey) -> bool {
    k.scan_code != 0 || !is_surrogate(k.unicode_char)
}

/// The key a raw key record denotes: scan code 0 means "use the character".
pub open spec fn key_of_input(k: InputKey) -> Key {
    if k.scan_code == 0 {
        Key::Printable(k.unicode_char)
    } else {
        Key::Special(k.scan_code)
    }
}

/// The raw key record that stands for a decoded key.
pub open spec fn input_of_key(k: Key) -> InputKey {
    match k {
        Key::Printable(c) => InputKey { scan_code: 0, unicode_char: c },
        Key::Special(code) => InputKey { scan_code: code, unicode_char: 0 },
    }
}

/// The UCS-2 form of a character, where it has one.
pub open spec fn ucs2_of_char(c: char) -> Option<u16> {
    if (c as u32) <= 0xFFFF {
        Some(c as u16)
    } else {
        None
    }
}

/// Decodes a raw key with `uefi`'s `From<InputKey> for Key`.
/// Claimed of it (uefi 0.36.1, `proto/console/text/input.rs`): with scan code
/// 0 the result is the printable character, otherwise the special key with
/// that scan code; it panics on a character that is a surrogate code unit,
/// which `requires` leaves out.
#[verifier::external_body]
fn key_from_input(k: InputKey) -> (key: Key)
    requires
        decodable(k),
    ensures
        key == key_of_input(k),
{
    let raw = uefi_raw::protocol::console::InputKey { scan_code: k.scan_code, unicode_char: k.unicode_char };
    match uefi::proto::console::text::Key::from(raw) {
        uefi::proto::console::text::Key::Printable(c) => Key::Printable(u16::from(c)),
        uefi::proto::console::text::Key::Special(code) => Key::Special(code.0),
    }
}

/// Converts a character with `uefi`'s `TryFrom<char> for Char16`.
/// Claimed of it (uefi 0.36.1, `data_types/chars.rs`): it succeeds exactly
/// when the code point fits in 16 bits, and then holds that code point.
#[verifier::external_body]
fn char16_from_char(c: char) -> (r: Option<u16>)
    ensures
        r == ucs2_of_char(c),
{
    match uefi::Char16::try_from(c) {
        Ok(ch) => Some(u16::from(ch)),
        Err(_) => None,
    }
}


/// The toggle byte that switches realtime mode to `enable`.
pub open spec fn realtime_toggle_bits(enable: bool) -> u8 {
    TOGGLE_STATE_VALID | (if enable { KEY_STATE_EXPOSED } else { 0u8 })
}

/// "Any shift" (control, alt, logo) is pressed exactly when the left or the
/// right one is.
pub proof fn either_side_modifier(d: KeyData)
    ensures
        has_flag(d.key_state.key_shift_state, LEFT_SHIFT_PRESSED | RIGHT_SHIFT_PRESSED)
            == (has_flag(d.key_state.key_shift_state, LEFT_SHIFT_PRESSED)
            || has_flag(d.key_state.key_shift_state, RIGHT_SHIFT_PRESSED)),
        has_flag(d.key_state.key_shift_state, LEFT_CONTROL_PRESSED | RIGHT_CONTROL_PRESSED)
            == (has_flag(d.key_state.key_shift_state, LEFT_CONTROL_PRESSED)
            || has_flag(d.key_state.key_shift_state, RIGHT_CONTROL_PRESSED)),
        has_flag(d.key_state.key_shift_state, LEFT_ALT_PRESSED | RIGHT_ALT_PRESSED)
            == (has_flag(d.key_state.key_shift_state, LEFT_ALT_PRESSED)
            || has_flag(d.key_state.key_shift_state, RIGHT_ALT_PRESSED)),
        has_flag(d.key_state.key_shift_state, LEFT_LOGO_PRESSED | RIGHT_LOGO_PRESSED)
            == (has_flag(d.key_state.key_shift_state, LEFT_LOGO_PRESSED)
            || has_flag(d.key_state.key_shift_state, RIGHT_LOGO_PRESSED)),
{
    let b = d.key_state.key_shift_state;
    assert(((b & (2u32 | 1u32)) != 0) == ((b & 2u32) != 0 || (b & 1u32) != 0)) by (bit_vector);
    assert(((b & (8u32 | 4u32)) != 0) == ((b & 8u32) != 0 || (b & 4u32) != 0)) by (bit_vector);
    assert(((b & (0x20u32 | 0x10u32)) != 0) == ((b & 0x20u32) != 0 || (b & 0x10u32) != 0)) by (bit_vector);
    assert(((b & (0x80u32 | 0x40u32)) != 0) == ((b & 0x80u32) != 0 || (b & 0x40u32) != 0)) by (bit_vector);
}

/// After realtime setup the toggle byte reports the toggle state as valid,
/// realtime mode as requested, and no lock as active.
pub proof fn realtime_state_reads_back(enable: bool)
    ensures
        has_toggle(realtime_toggle_bits(enable), TOGGLE_STATE_VALID),
        has_toggle(realtime_toggle_bits(enable), KEY_STATE_EXPOSED) == enable,
        !has_toggle(realtime_toggle_bits(enable), SCROLL_LOCK_ACTIVE),
        !has_toggle(realtime_toggle_bits(enable), NUM_LOCK_ACTIVE),
        !has_toggle(realtime_toggle_bits(enable), CAPS_LOCK_ACTIVE),
{
    let b = realtime_toggle_bits(enable);
    if enable {
        assert(b == 0xC0u8) by (bit_vector)
            requires b == (0x80u8 | 0x40u8);
        assert((0xC0u8 & 0x80u8) != 0 && (0xC0u8 & 0x40u8) != 0 && (0xC0u8 & 1u8) == 0
            && (0xC0u8 & 2u8) == 0 && (0xC0u8 & 4u8) == 0) by (bit_vector);
    } else {
        assert(b == 0x80u8) by (bit_vector)
            requires b == (0x80u8 | 0u8);
        assert((0x80u8 & 0x80u8) != 0 && (0x80u8 & 0x40u8) == 0 && (0x80u8 & 1u8) == 0
            && (0x80u8 & 2u8) == 0 && (0x80u8 & 4u8) == 0) by (bit_vector);
    }
}

/// Decoding the record that a key encodes to gives the key back, for every
/// key that decoding can produce: not the special key with scan code 0
/// (which encodes as the NUL character) and not a surrogate character.
pub proof fn decode_of_encode(k: Key)
    requires
        k != Key::Special(0),
        k matches Key::Printable(c) ==> !is_surrogate(c),
    ensures
        decodable(input_of_key(k)),
        key_of_input(input_of_key(k)) == k,
{
}

/// Encoding a decoded record gives the record back exactly when it carries a
/// scan code or a character, not both.
pub proof fn encode_of_decode(raw: InputKey)
    requires
        decodable(raw),
    ensures
        (input_of_key(key_of_input(raw)) == raw) == (raw.scan_code == 0 || raw.unicode_char == 0),
{
}

/// Decoding reads the record as the protocol defines it: a record without a
/// scan code is the printable character it carries, a record with one is the
/// special key of that scan code (its character field is ignored).
pub proof fn decoding_reads_the_record(raw: InputKey)
    ensures
        raw.scan_code == 0 ==> key_of_input(raw) == Key::Printable(raw.unicode_char),
        raw.scan_code != 0 ==> key_of_input(raw) == Key::Special(raw.scan_code),
{
}

/// Encoding writes the record as the protocol defines it: a printable
/// character goes with scan code 0, a special key with character 0.
pub proof fn encoding_writes_the_record(k: Key)
    ensures
        k matches Key::Printable(c) ==> input_of_key(k) == (InputKey { scan_code: 0, unicode_char: c }),
        k matches Key::Special(code) ==> input_of_key(k) == (InputKey { scan_code: code, unicode_char: 0 }),
{
}

/// A character has a UCS-2 form exactly when its code point fits in 16 bits,
/// and then that form is the code point.
pub proof fn ucs2_form_is_the_code_point(c: char)
    ensures
        (c as u32) <= 0xFFFF ==> ucs2_of_char(c) == Some((c as u32) as u16),
        (c as u32) > 0xFFFF ==> ucs2_of_char(c) is None,
{
}

impl InputKey {
    /// Whether the record can be decoded into a `Key`.
    pub fn is_decodable(&self) -> (r: bool)
        ensures
            r == decodable(*self),
    {
        self.scan_code != 0 || !(0xD800 <= self.unicode_char && self.unicode_char <= 0xDFFF)
    }
}

/// Reverse conversion to the firmware's record.
impl From<KeyData> for RawKeyData {
    fn from(value: KeyData) -> (raw: Self) {
        let input_key = match value.key {
            Key::Printable(c) => InputKey { scan_code: 0, unicode_char: c },
            Key::Special(code) => InputKey { scan_code: code, unicode_char: 0 },
        };
        RawKeyData { key: input_key, key_state: value.key_state }
    }
}

impl vstd::std_specs::convert::FromSpecImpl<KeyData> for RawKeyData {
    open spec fn obeys_from_spec() -> bool {
        true
    }

    open spec fn from_spec(v: KeyData) -> Self {
        RawKeyData { key: input_of_key(v.key), key_state: v.key_state }
    }
}

impl KeyData {

    /// Check if the modifier key state is reported.
    pub fn supports_modifiers(&self) -> (r: bool)
        ensures
            r == has_flag(self.key_state.key_shift_state, SHIFT_STATE_VALID),
    {
        (self.key_state.key_shift_state & SHIFT_STATE_VALID) != 0
    }

    /// Check if the right shift is pressed.
    pub fn r_shift(&self) -> (r: bool)
        ensures
            r == has_flag(self.key_state.key_shift_state, RIGHT_SHIFT_PRESSED),
    {
        (self.key_state.key_shift_state & RIGHT_SHIFT_PRESSED) != 0
    }

    /// Check if the left shift is pressed.
    pub fn l_shift(&self) -> (r: bool)
        ensures
            r == has_flag(self.key_state.key_shift_state, LEFT_SHIFT_PRESSED),
    {
        (self.key_state.key_shift_state & LEFT_SHIFT_PRESSED) != 0
    }

    /// Check if the right control is pressed.
    pub fn r_ctrl(&self) -> (r: bool)
        ensures
            r == has_flag(self.key_state.key_shift_state, RIGHT_CONTROL_PRESSED),
    {
        (self.key_state.key_shift_state & RIGHT_CONTROL_PRESSED) != 0
    }

    /// Check if the left control is pressed.
    pub fn l_ctrl(&self) -> (r: bool)
        ensures
            r == has_flag(self.key_state.key_shift_state, LEFT_CONTROL_PRESSED),
    {
        (self.key_state.key_shift_state & LEFT_CONTROL_PRESSED) != 0
    }

    /// Check if the right alt is pressed.
    pub fn r_alt(&self) -> (r: bool)
        ensures
            r == has_flag(self.key_state.key_shift_state, RIGHT_ALT_PRESSED),
    {
        (self.key_state.key_shift_state & RIGHT_ALT_PRESSED) != 0
    }

    /// Check if the left alt is pressed.
    pub fn l_alt(&self) -> (r: bool)
        ensures
            r == has_flag(self.key_state.key_shift_state, LEFT_ALT_PRESSED),
    {
        (self.key_state.key_shift_state & LEFT_ALT_PRESSED) != 0
    }

    /// Check if the right logo is pressed.
    pub fn r_logo(&self) -> (r: bool)
        ensures
            r == has_flag(self.key_state.key_shift_state, RIGHT_LOGO_PRESSED),
    {
        (self.key_state.key_shift_state & RIGHT_LOGO_PRESSED) != 0
    }

    /// Check if the left logo is pressed.
    pub fn l_logo(&self) -> (r: bool)
        ensures
            r == has_flag(self.key_state.key_shift_state, LEFT_LOGO_PRESSED),
    {
        (self.key_state.key_shift_state & LEFT_LOGO_PRESSED) != 0
    }

    /// Check if the menu key is pressed.
    pub fn menu(&self) -> (r: bool)
        ensures
            r == has_flag(self.key_state.key_shift_state, MENU_KEY_PRESSED),
    {
        (self.key_state.key_shift_state & MENU_KEY_PRESSED) != 0
    }

    /// Check if the sys req key is pressed.
    pub fn sys_req(&self) -> (r: bool)
        ensures
            r == has_flag(self.key_state.key_shift_state, SYS_REQ_PRESSED),
    {
        (self.key_state.key_shift_state & SYS_REQ_PRESSED) != 0
    }

    /// Check if either shift is pressed.
    pub fn shift(&self) -> (r: bool)
        ensures
            r == has_flag(self.key_state.key_shift_state, LEFT_SHIFT_PRESSED | RIGHT_SHIFT_PRESSED),
    {
        let mask: u32 = LEFT_SHIFT_PRESSED | RIGHT_SHIFT_PRESSED;
        (self.key_state.key_shift_state & mask) != 0
    }

    /// Check if either control is pressed.
    pub fn ctrl(&self) -> (r: bool)
        ensures
            r == has_flag(self.key_state.key_shift_state, LEFT_CONTROL_PRESSED | RIGHT_CONTROL_PRESSED),
    {
        let mask: u32 = LEFT_CONTROL_PRESSED | RIGHT_CONTROL_PRESSED;
        (self.key_state.key_shift_state & mask) != 0
    }

    /// Check if either alt is pressed.
    pub fn alt(&self) -> (r: bool)
        ensures
            r == has_flag(self.key_state.key_shift_state, LEFT_ALT_PRESSED | RIGHT_ALT_PRESSED),
    {
        let mask: u32 = LEFT_ALT_PRESSED | RIGHT_ALT_PRESSED;
        (self.key_state.key_shift_state & mask) != 0
    }

    /// Check if either logo is pressed.
    pub fn logo(&self) -> (r: bool)
        ensures
            r == has_flag(self.key_state.key_shift_state, LEFT_LOGO_PRESSED | RIGHT_LOGO_PRESSED),
    {
        let mask: u32 = LEFT_LOGO_PRESSED | RIGHT_LOGO_PRESSED;
        (self.key_state.key_shift_state & mask) != 0
    }

    /// Check if the toggle state is reported.
    pub fn supports_toggles(&self) -> (r: bool)
        ensures
            r == has_toggle(self.key_state.key_toggle_state, TOGGLE_STATE_VALID),
    {
        (self.key_state.key_toggle_state & TOGGLE_STATE_VALID) != 0
    }

    /// Check if realtime mode (key state exposure) is active.
    pub fn is_realtime_mode(&self) -> (r: bool)
        ensures
            r == has_toggle(self.key_state.key_toggle_state, KEY_STATE_EXPOSED),
    {
        (self.key_state.key_toggle_state & KEY_STATE_EXPOSED) != 0
    }

    /// Check if scroll lock is active.
    pub fn scroll_lock(&self) -> (r: bool)
        ensures
            r == has_toggle(self.key_state.key_toggle_state, SCROLL_LOCK_ACTIVE),
    {
        (self.key_state.key_toggle_state & SCROLL_LOCK_ACTIVE) != 0
    }

    /// Check if num lock is active.
    pub fn num_lock(&self) -> (r: bool)
        ensures
            r == has_toggle(self.key_state.key_toggle_state, NUM_LOCK_ACTIVE),
    {
        (self.key_state.key_toggle_state & NUM_LOCK_ACTIVE) != 0
    }

    /// Check if caps lock is active.
    pub fn caps_lock(&self) -> (r: bool)
        ensures
            r == has_toggle(self.key_state.key_toggle_state, CAPS_LOCK_ACTIVE),
    {
        (self.key_state.key_toggle_state & CAPS_LOCK_ACTIVE) != 0
    }

    /// The toggle byte that switches realtime mode on or off: the toggle state
    /// is marked valid, the key-state-exposed bit follows `enable`, and every
    /// lock bit is cleared (which is why setting it may overwrite the current
    /// lock state).
    pub fn realtime_init_state(enable: bool) -> (bits: u8)
        ensures
            bits == realtime_toggle_bits(enable),
    {
        let flag: u8 = if enable { 1 } else { 0 };
        let bits: u8 = TOGGLE_STATE_VALID | (flag << 6u8);
        assert(bits == (0x80u8 | (if flag == 1 { 0x40u8 } else { 0u8 }))) by (bit_vector)
            requires
                bits == (0x80u8 | (flag << 6u8)),
                flag == 0 || flag == 1,
        ;
        bits
    }
    /// Forward conversion of the firmware's record.
    pub fn from_raw(raw: RawKeyData) -> (d: KeyData)
        requires
            decodable(raw.key),
        ensures
            d.key == key_of_input(raw.key),
            d.key_state == raw.key_state,
    {
        KeyData { key: key_from_input(raw.key), key_state: raw.key_state }
    }

    /// Key data for a printable character with an empty keyboard state.
    pub fn new(c: char) -> (r: Result<KeyData, KeyDataError>)
        ensures
            match ucs2_of_char(c) {
                Some(u) => r == Ok::<KeyData, KeyDataError>(KeyData {
                    key: Key::Printable(u),
                    key_state: KeyState { key_shift_state: 0, key_toggle_state: 0 },
                }),
                None => r == Err::<KeyData, KeyDataError>(KeyDataError::InvalidParameter),
            },
    {
        match char16_from_char(c) {
            Some(u) => Ok(KeyData { key: Key::Printable(u), key_state: KeyState::default() }),
            None => Err(KeyDataError::InvalidParameter),
        }
    }
}

} // verus!
