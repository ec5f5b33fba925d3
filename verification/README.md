# uefi_input2

Key handling for the UEFI extended simple text input protocol
(`EFI_SIMPLE_TEXT_INPUT_EX_PROTOCOL`), verified with Verus.

- `src/` is the verified library:
  - `simple_text_input_ex`: the key record (`EFI_KEY_DATA`) as plain data and
    the shift/toggle bit masks;
  - `key_data`: decoding of key records into `Key`/`KeyData` (through the
    `uefi` crate), the modifier and lock queries, the realtime-mode toggle byte;
  - `input`: the result of a key-stroke read, by status code;
  - `state_machine`, `state_machine_fallback`: the input-event state machine
    (press, release, long press, repeat, multi-click), with its transition
    specification and the laws it keeps; `config` holds its timing settings;
  - `hotplug`: what each pass of the keyboard hot-plug loops does.
- `app/` is the firmware-facing side: protocol layout and opening, clocks,
  the hot-plug loops, run-time settings.
- `tests/` runs the library on concrete inputs.
