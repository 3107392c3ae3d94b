//! A safe, verified model of a thin binding layer over an embedded vendor
//! SDK (ESP-IDF): WiFi station setup, event decoding and registration,
//! an MQTT client, NVS flash initialization, and RTOS queue shims.
//!
//! Every operation here is the decision-and-marshalling half of a binding:
//! translating vendor status codes into typed results, mapping events to and
//! from vendor `(base, id)` pairs, building vendor-shaped configuration
//! values with bounded NUL-terminated buffer copies, and choosing the next
//! vendor call from a previous vendor return. The vendor calls themselves
//! are foreign, unsafe C functions and live with the embedding application,
//! which feeds their integer returns back into this library.

use vstd::prelude::*;

pub mod driver;
pub mod error;
pub mod event;
pub mod freertos;
pub mod mqtt;
pub mod nvs;
pub mod wifi;

use error::{Error, EspError};

verus! {

/// Translates a vendor status code into a typed result: `Ok` exactly on the
/// success sentinel; a recognized nonzero code is wrapped, and any other
/// value is surfaced raw. Total over all integers.
pub fn esp_int_into_result(value: i32) -> (r: Result<(), Error>)
    ensures
        r == error::esp_result(value),
{
    if value == 0 {
        Ok(())
    } else {
        match EspError::from_code(value) {
            Some(error) => Err(Error::EspIdf { error }),
            None => Err(Error::EnumFromIntError { value }),
        }
    }
}

} // verus!
