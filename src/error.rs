use crate::device_info::{units_view, DeviceInfo};
use crate::wide::{decode_wide_opt, text_of, wchar_to_string, WcharString};
use libc::wchar_t;
use vstd::prelude::*;

verus! {

/// The errors of this library.
#[derive(Debug)]
pub enum HidError {
    /// The platform library reported an error, with its message.
    HidApiError { message: String },
    /// The platform library failed and had no readable message to give.
    HidApiErrorEmpty,
    /// The platform library could not be initialised.
    InitializationError,
    /// An enumeration record came without a device path.
    EnumerationError,
    /// A report of zero bytes was handed in: the report id byte is mandatory.
    InvalidZeroSizeData,
    /// A feature report went out only in part.
    IncompleteSendError { sent: usize, all: usize },
    /// The platform library refused to switch the read mode.
    SetBlockingModeError { mode: &'static str },
    /// A device was to be opened from a descriptor that has neither a path
    /// nor a readable serial number.
    OpenHidDeviceWithDeviceInfoError { device_info: Box<DeviceInfo> },
}

pub type HidResult<T> = Result<T, HidError>;

/// The error is one that a failed call of the platform library is reported as.
pub open spec fn is_native_error(e: HidError) -> bool {
    e is HidApiError || e is HidApiErrorEmpty
}

/// `e` is the error that a failed library call is reported as, where the
/// library's last error message was `message`.
pub open spec fn is_failure_for(e: HidError, message: Option<Seq<wchar_t>>) -> bool {
    match text_of(decode_wide_opt(message)) {
        Some(t) => e matches HidError::HidApiError { message: m } && m@ == t,
        None => e is HidApiErrorEmpty,
    }
}

/// The error that a failed library call is reported as: the library's last
/// error message where it decoded, else `HidApiErrorEmpty`.
pub fn native_failure(message: Option<Vec<wchar_t>>) -> (r: HidError)
    ensures
        is_failure_for(r, units_view(message)),
{
    match error_from_native(message) {
        Ok(e) => e,
        Err(e) => e,
    }
}

/// The error that a failed library call is reported as, given the library's
/// last error message: `Ok` with the message where it decoded, else
/// `Err(HidApiErrorEmpty)`.
pub fn error_from_native(message: Option<Vec<wchar_t>>) -> (r: HidResult<HidError>)
    ensures
        match text_of(decode_wide_opt(units_view(message))) {
            Some(t) => r matches Ok(HidError::HidApiError { message: m }) && m@ == t,
            None => r matches Err(e) && e is HidApiErrorEmpty,
        },
{
    let decoded = match &message {
        Some(units) => wchar_to_string(Some(units.as_slice())),
        None => WcharString::Absent,
    };
    match decoded {
        WcharString::Text(s) => Ok(HidError::HidApiError { message: s }),
        _ => Err(HidError::HidApiErrorEmpty),
    }
}

} // verus!
