//! Human-interface-device access: enumeration, the device descriptor model,
//! wide-string marshalling and report I/O over a platform HID library.

pub mod api;
pub mod backend;
pub mod device;
pub mod device_info;
pub mod error;
pub mod init;
pub mod wide;

pub use api::{device_info_vector, wide_of_str, HidApi, HidApiBackend};
pub use backend::{NativeDevice, NativeHidApi};
pub use device::{
    blocking_mode_outcome, feature_report_outcome, nonblock_flag, string_from_buffer, HidDevice,
    STRING_BUF_LEN,
};
pub use device_info::{conv_hid_device_info, BusType, DeviceInfo, NativeDeviceInfo, OpenTarget};
pub use error::{error_from_native, native_failure, HidError, HidResult};
pub use init::{lazy_init, InitState};
pub use wide::{wchar_to_string, WcharString, WideText};
