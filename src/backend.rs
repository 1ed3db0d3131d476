use crate::device_info::NativeDeviceInfo;
use libc::wchar_t;
use vstd::prelude::*;

verus! {

/// One open device of a platform HID library.
///
/// Each call returns what the library returned: a count or status, or -1 on
/// failure, after which `error` gives the library's message for the device.
/// A string fetch writes a zero-terminated wide string into `buf`.
/// Dropping the value closes the device.
pub trait NativeDevice {
    fn write(&self, data: &[u8]) -> i32;

    fn read(&self, buf: &mut [u8]) -> i32;

    /// `timeout` in milliseconds: negative waits without bound, zero returns at once.
    fn read_timeout(&self, buf: &mut [u8], timeout: i32) -> i32;

    fn send_feature_report(&self, data: &[u8]) -> i32;

    fn get_feature_report(&self, buf: &mut [u8]) -> i32;

    /// `nonblock` is 1 for non-blocking reads, 0 for blocking ones.
    fn set_nonblocking(&self, nonblock: i32) -> i32;

    fn get_manufacturer_string(&self, buf: &mut [wchar_t]) -> i32;

    fn get_product_string(&self, buf: &mut [wchar_t]) -> i32;

    fn get_serial_number_string(&self, buf: &mut [wchar_t]) -> i32;

    fn get_indexed_string(&self, index: i32, buf: &mut [wchar_t]) -> i32;

    /// The device's own record, or `None` on failure.
    fn get_device_info(&self) -> Option<NativeDeviceInfo>;

    /// The last error message for this device, or `None` where there is none.
    fn error(&self) -> Option<Vec<wchar_t>>;
}

/// A platform HID library: initialisation, enumeration and opening.
pub trait NativeHidApi {
    type Device: NativeDevice;

    /// One-time initialisation; `enumerate` false asks the library not to
    /// scan the bus while it starts. -1 on failure.
    fn init(&self, enumerate: bool) -> i32;

    /// A fresh scan of the connected devices.
    fn enumerate(&self) -> Vec<NativeDeviceInfo>;

    /// Opens the first device with these ids (and this zero-terminated serial
    /// number, where one is given); `None` on failure.
    fn open(&self, vendor_id: u16, product_id: u16, serial_number: Option<&[wchar_t]>) -> Option<
        Self::Device,
    >;

    /// Opens the device at a platform path; `None` on failure.
    fn open_path(&self, path: &[u8]) -> Option<Self::Device>;

    /// The last error message that concerns no single device, or `None`.
    fn error(&self) -> Option<Vec<wchar_t>>;
}

} // verus!
