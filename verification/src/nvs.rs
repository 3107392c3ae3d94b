//! The NVS flash initialization policy.
//!
//! The vendor init call may report that the storage has no free pages or
//! was written by a newer format version; in exactly those two cases the
//! sequence erases the flash and initializes once more. A failing erase is
//! reported as the erase's own error and the retry is not attempted. Any
//! other first status is translated and surfaced directly.
//!
//! The vendor calls are foreign; the embedding application performs them
//! and drives this policy with their returned statuses.

use vstd::prelude::*;

use crate::error::{esp_result, Error, ESP_ERR_NVS_NEW_VERSION_FOUND, ESP_ERR_NVS_NO_FREE_PAGES};
use crate::esp_int_into_result;

verus! {

/// Whether a status from the first vendor init call demands the
/// erase-then-reinitialize recovery.
pub open spec fn spec_needs_erase(status: i32) -> bool {
    status == ESP_ERR_NVS_NO_FREE_PAGES || status == ESP_ERR_NVS_NEW_VERSION_FOUND
}

/// Executable form of [`spec_needs_erase`]: decides, from the first vendor
/// init status, whether to erase and initialize again.
pub fn needs_erase(status: i32) -> (r: bool)
    ensures
        r == spec_needs_erase(status),
{
    status == ESP_ERR_NVS_NO_FREE_PAGES || status == ESP_ERR_NVS_NEW_VERSION_FOUND
}

/// The outcome of the whole init sequence, given the statuses the vendor
/// calls return: `first` from the initial init call, `erase` from the erase
/// (consulted only when `first` demands recovery), and `second` from the
/// retried init call (consulted only when the erase succeeded).
pub fn init_outcome(first: i32, erase: i32, second: i32) -> (r: Result<(), Error>)
    ensures
        !spec_needs_erase(first) ==> r == esp_result(first),
        spec_needs_erase(first) && erase != 0 ==> r == esp_result(erase) && r is Err,
        spec_needs_erase(first) && erase == 0 ==> r == esp_result(second),
{
    if needs_erase(first) {
        match esp_int_into_result(erase) {
            Err(e) => Err(e),
            Ok(()) => esp_int_into_result(second),
        }
    } else {
        esp_int_into_result(first)
    }
}

} // verus!
