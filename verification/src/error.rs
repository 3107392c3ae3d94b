//! Typed errors for the binding layer, and the mapping from vendor status
//! codes to them.
//!
//! The vendor SDK reports every outcome as an integer status: `0` is success,
//! a known nonzero code names one of its error conditions, and anything else
//! is an unrecognized code that is still surfaced, carrying the raw value.

use vstd::prelude::*;

verus! {

/// Vendor status code for success.
pub const ESP_OK: i32 = 0;
/// Generic vendor failure.
pub const ESP_FAIL: i32 = -1;
/// Out of memory.
pub const ESP_ERR_NO_MEM: i32 = 0x101;
/// Invalid argument.
pub const ESP_ERR_INVALID_ARG: i32 = 0x102;
/// Invalid state.
pub const ESP_ERR_INVALID_STATE: i32 = 0x103;
/// Invalid size.
pub const ESP_ERR_INVALID_SIZE: i32 = 0x104;
/// Requested resource not found.
pub const ESP_ERR_NOT_FOUND: i32 = 0x105;
/// Operation or feature not supported.
pub const ESP_ERR_NOT_SUPPORTED: i32 = 0x106;
/// Operation timed out.
pub const ESP_ERR_TIMEOUT: i32 = 0x107;
/// Received response was invalid.
pub const ESP_ERR_INVALID_RESPONSE: i32 = 0x108;
/// CRC or checksum was invalid.
pub const ESP_ERR_INVALID_CRC: i32 = 0x109;
/// Version was invalid.
pub const ESP_ERR_INVALID_VERSION: i32 = 0x10A;
/// MAC address was invalid.
pub const ESP_ERR_INVALID_MAC: i32 = 0x10B;
/// NVS storage has no free pages.
pub const ESP_ERR_NVS_NO_FREE_PAGES: i32 = 0x110D;
/// NVS storage was written by a newer format version.
pub const ESP_ERR_NVS_NEW_VERSION_FOUND: i32 = 0x1110;

/// The vendor error conditions this layer recognizes by their numeric code.
#[derive(Clone, Copy, Debug, PartialEq, Eq, Structural)]
pub enum EspError {
    Fail,
    NoMem,
    InvalidArg,
    InvalidState,
    InvalidSize,
    NotFound,
    NotSupported,
    Timeout,
    InvalidResponse,
    InvalidCrc,
    InvalidVersion,
    InvalidMac,
    NvsNoFreePages,
    NvsNewVersionFound,
}

impl EspError {
    /// The vendor status code of this error condition.
    pub open spec fn spec_code(self) -> i32 {
        match self {
            EspError::Fail => ESP_FAIL,
            EspError::NoMem => ESP_ERR_NO_MEM,
            EspError::InvalidArg => ESP_ERR_INVALID_ARG,
            EspError::InvalidState => ESP_ERR_INVALID_STATE,
            EspError::InvalidSize => ESP_ERR_INVALID_SIZE,
            EspError::NotFound => ESP_ERR_NOT_FOUND,
            EspError::NotSupported => ESP_ERR_NOT_SUPPORTED,
            EspError::Timeout => ESP_ERR_TIMEOUT,
            EspError::InvalidResponse => ESP_ERR_INVALID_RESPONSE,
            EspError::InvalidCrc => ESP_ERR_INVALID_CRC,
            EspError::InvalidVersion => ESP_ERR_INVALID_VERSION,
            EspError::InvalidMac => ESP_ERR_INVALID_MAC,
            EspError::NvsNoFreePages => ESP_ERR_NVS_NO_FREE_PAGES,
            EspError::NvsNewVersionFound => ESP_ERR_NVS_NEW_VERSION_FOUND,
        }
    }

    /// Which error condition, if any, a vendor status code names.
    pub open spec fn spec_from_code(value: i32) -> Option<EspError> {
        if value == ESP_FAIL {
            Some(EspError::Fail)
        } else if value == ESP_ERR_NO_MEM {
            Some(EspError::NoMem)
        } else if value == ESP_ERR_INVALID_ARG {
            Some(EspError::InvalidArg)
        } else if value == ESP_ERR_INVALID_STATE {
            Some(EspError::InvalidState)
        } else if value == ESP_ERR_INVALID_SIZE {
            Some(EspError::InvalidSize)
        } else if value == ESP_ERR_NOT_FOUND {
            Some(EspError::NotFound)
        } else if value == ESP_ERR_NOT_SUPPORTED {
            Some(EspError::NotSupported)
        } else if value == ESP_ERR_TIMEOUT {
            Some(EspError::Timeout)
        } else if value == ESP_ERR_INVALID_RESPONSE {
            Some(EspError::InvalidResponse)
        } else if value == ESP_ERR_INVALID_CRC {
            Some(EspError::InvalidCrc)
        } else if value == ESP_ERR_INVALID_VERSION {
            Some(EspError::InvalidVersion)
        } else if value == ESP_ERR_INVALID_MAC {
            Some(EspError::InvalidMac)
        } else if value == ESP_ERR_NVS_NO_FREE_PAGES {
            Some(EspError::NvsNoFreePages)
        } else if value == ESP_ERR_NVS_NEW_VERSION_FOUND {
            Some(EspError::NvsNewVersionFound)
        } else {
            None
        }
    }

    /// Executable form of [`EspError::spec_code`].
    pub fn code(self) -> (r: i32)
        ensures
            r == self.spec_code(),
    {
        match self {
            EspError::Fail => ESP_FAIL,
            EspError::NoMem => ESP_ERR_NO_MEM,
            EspError::InvalidArg => ESP_ERR_INVALID_ARG,
            EspError::InvalidState => ESP_ERR_INVALID_STATE,
            EspError::InvalidSize => ESP_ERR_INVALID_SIZE,
            EspError::NotFound => ESP_ERR_NOT_FOUND,
            EspError::NotSupported => ESP_ERR_NOT_SUPPORTED,
            EspError::Timeout => ESP_ERR_TIMEOUT,
            EspError::InvalidResponse => ESP_ERR_INVALID_RESPONSE,
            EspError::InvalidCrc => ESP_ERR_INVALID_CRC,
            EspError::InvalidVersion => ESP_ERR_INVALID_VERSION,
            EspError::InvalidMac => ESP_ERR_INVALID_MAC,
            EspError::NvsNoFreePages => ESP_ERR_NVS_NO_FREE_PAGES,
            EspError::NvsNewVersionFound => ESP_ERR_NVS_NEW_VERSION_FOUND,
        }
    }

    /// Executable form of [`EspError::spec_from_code`].
    pub fn from_code(value: i32) -> (r: Option<EspError>)
        ensures
            r == EspError::spec_from_code(value),
    {
        if value == ESP_FAIL {
            Some(EspError::Fail)
        } else if value == ESP_ERR_NO_MEM {
            Some(EspError::NoMem)
        } else if value == ESP_ERR_INVALID_ARG {
            Some(EspError::InvalidArg)
        } else if value == ESP_ERR_INVALID_STATE {
            Some(EspError::InvalidState)
        } else if value == ESP_ERR_INVALID_SIZE {
            Some(EspError::InvalidSize)
        } else if value == ESP_ERR_NOT_FOUND {
            Some(EspError::NotFound)
        } else if value == ESP_ERR_NOT_SUPPORTED {
            Some(EspError::NotSupported)
        } else if value == ESP_ERR_TIMEOUT {
            Some(EspError::Timeout)
        } else if value == ESP_ERR_INVALID_RESPONSE {
            Some(EspError::InvalidResponse)
        } else if value == ESP_ERR_INVALID_CRC {
            Some(EspError::InvalidCrc)
        } else if value == ESP_ERR_INVALID_VERSION {
            Some(EspError::InvalidVersion)
        } else if value == ESP_ERR_INVALID_MAC {
            Some(EspError::InvalidMac)
        } else if value == ESP_ERR_NVS_NO_FREE_PAGES {
            Some(EspError::NvsNoFreePages)
        } else if value == ESP_ERR_NVS_NEW_VERSION_FOUND {
            Some(EspError::NvsNewVersionFound)
        } else {
            None
        }
    }
}

/// The errors this layer reports to its callers.
#[derive(Clone, Copy, Debug, PartialEq, Eq, Structural)]
pub enum Error {
    /// A recognized vendor error condition.
    EspIdf { error: EspError },
    /// A nonzero vendor status code that matches no recognized condition;
    /// carries the raw value.
    EnumFromIntError { value: i32 },
    /// An incoming event named a vendor event namespace, or an event id
    /// within one, that this layer does not know.
    UnknownEventBase,
    /// A caller-supplied value violated a bound, such as a string that
    /// cannot fit its fixed-size destination buffer.
    InvalidArgument,
}

/// What translating a vendor status code yields: success exactly on the
/// success sentinel, a wrapped vendor error on a recognized code, and a
/// fallback carrying the raw value otherwise.
pub open spec fn esp_result(value: i32) -> Result<(), Error> {
    if value == ESP_OK {
        Ok(())
    } else {
        match EspError::spec_from_code(value) {
            Some(error) => Err(Error::EspIdf { error }),
            None => Err(Error::EnumFromIntError { value }),
        }
    }
}

/// The round trip from an error condition to its code and back recovers the
/// condition: the code table is injective.
pub proof fn lemma_code_round_trip(e: EspError)
    ensures
        EspError::spec_from_code(e.spec_code()) == Some(e),
{
}

} // verus!
