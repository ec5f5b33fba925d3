//! Plain-data form of the `EFI_SIMPLE_TEXT_INPUT_EX_PROTOCOL` key records and
//! the bit masks of its shift and toggle states.
use vstd::prelude::*;

verus! {

/// Toggle-state byte of a key record (Caps Lock, Num Lock, ...).
pub type KeyToggleState = u8;

/// Keyboard states: the Shift/Alt/Ctrl state and the lock flags.
#[derive(Clone, Copy, Debug, PartialEq, Eq, Structural)]
pub struct KeyState {
    /// Bit set of the `*_PRESSED` masks below, valid when `SHIFT_STATE_VALID` is set.
    pub key_shift_state: u32,
    /// Bit set of the toggle masks below, valid when `TOGGLE_STATE_VALID` is set.
    pub key_toggle_state: KeyToggleState,
}

impl Default for KeyState {
    fn default() -> (s: Self)
        ensures
            s.key_shift_state == 0,
            s.key_toggle_state == 0,
    {
        KeyState { key_shift_state: 0, key_toggle_state: 0 }
    }
}

/// The firmware's `EFI_INPUT_KEY`: a scan code, or 0 and a UCS-2 character.
#[derive(Clone, Copy, Debug, PartialEq, Eq, Structural)]
pub struct InputKey {
    pub scan_code: u16,
    pub unicode_char: u16,
}

impl Default for InputKey {
    fn default() -> (k: Self)
        ensures
            k.scan_code == 0,
            k.unicode_char == 0,
    {
        InputKey { scan_code: 0, unicode_char: 0 }
    }
}

/// Complete key record (`EFI_KEY_DATA`) as the firmware reports it.
#[derive(Clone, Copy, Debug, PartialEq, Eq, Structural)]
pub struct KeyData {
    pub key: InputKey,
    pub key_state: KeyState,
}

impl Default for KeyData {
    fn default() -> (d: Self)
        ensures
            d.key.scan_code == 0,
            d.key.unicode_char == 0,
            d.key_state.key_shift_state == 0,
            d.key_state.key_toggle_state == 0,
    {
        KeyData { key: InputKey::default(), key_state: KeyState::default() }
    }
}

// Shift-state masks.
pub const SHIFT_STATE_VALID: u32 = 0x8000_0000;
pub const RIGHT_SHIFT_PRESSED: u32 = 0x0000_0001;
pub const LEFT_SHIFT_PRESSED: u32 = 0x0000_0002;
pub const RIGHT_CONTROL_PRESSED: u32 = 0x0000_0004;
pub const LEFT_CONTROL_PRESSED: u32 = 0x0000_0008;
pub const RIGHT_ALT_PRESSED: u32 = 0x0000_0010;
pub const LEFT_ALT_PRESSED: u32 = 0x0000_0020;
pub const RIGHT_LOGO_PRESSED: u32 = 0x0000_0040;
pub const LEFT_LOGO_PRESSED: u32 = 0x0000_0080;
pub const MENU_KEY_PRESSED: u32 = 0x0000_0100;
pub const SYS_REQ_PRESSED: u32 = 0x0000_0200;

// Toggle-state masks.
pub const TOGGLE_STATE_VALID: u8 = 0x80;
pub const KEY_STATE_EXPOSED: u8 = 0x40;
pub const SCROLL_LOCK_ACTIVE: u8 = 0x01;
pub const NUM_LOCK_ACTIVE: u8 = 0x02;
pub const CAPS_LOCK_ACTIVE: u8 = 0x04;

} // verus!
