//! Key-event handling for the UEFI extended simple text input protocol.
//!
//! The library decodes the raw key data that the firmware reports
//! (`EFI_KEY_DATA`: a scan code, a UCS-2 character, the shift state and the
//! toggle state), and turns the stream of raw key reports into semantic input
//! events (press, release, long press, repeat and multi-click) with a verified
//! state machine.
pub mod simple_text_input_ex;
pub mod key_data;
pub mod state_machine;
pub mod config;
pub mod state_machine_fallback;
pub mod hotplug;
pub mod input;
pub mod state_machine_laws;
