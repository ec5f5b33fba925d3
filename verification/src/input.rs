//! What a key read through the extended input protocol yields.
use vstd::prelude::*;
use crate::simple_text_input_ex::KeyData as RawKeyData;

verus! {

/// Tests a status code with `uefi_raw`'s `Status::is_success`.
/// Claimed of it (uefi-raw 0.13.0, `status.rs`): it is true exactly for the
/// code `SUCCESS`, which is 0.
#[verifier::external_body]
fn status_is_success(code: usize) -> (r: bool)
    ensures
        r == (code == 0),
{
    uefi_raw::Status(code).is_success()
}

/// The result of a `ReadKeyStrokeEx` call that returned the status code
/// `status` and filled in `key_data`: the key record when the firmware reported
/// success, nothing otherwise (no key pending, or a device error).
pub fn key_stroke_result(status: usize, key_data: RawKeyData) -> (r: Option<RawKeyData>)
    ensures
        r == (if status == 0 { Some(key_data) } else { None::<RawKeyData> }),
{
    if status_is_success(status) {
        Some(key_data)
    } else {
        None
    }
}

} // verus!
