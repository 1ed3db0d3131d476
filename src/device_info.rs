use crate::error::{HidError, HidResult};
use crate::wide::{decode_wide_opt, text_of, wchar_to_string, WcharString, WideText};
use libc::wchar_t;
use vstd::prelude::*;

verus! {

/// The bus a HID device is attached through.
#[derive(Copy, Clone, Debug, PartialEq, Eq, Structural)]
pub enum BusType {
    Unknown,
    Usb,
    Bluetooth,
    I2c,
    Spi,
}

/// One device as a platform library's enumeration hands it over, already
/// copied out of native memory. An absent string is `None`; a present one
/// holds its wide code units (a zero unit, if any, ends it).
#[derive(Clone, Debug)]
pub struct NativeDeviceInfo {
    pub path: Option<Vec<u8>>,
    pub vendor_id: u16,
    pub product_id: u16,
    pub serial_number: Option<Vec<wchar_t>>,
    pub release_number: u16,
    pub manufacturer_string: Option<Vec<wchar_t>>,
    pub product_string: Option<Vec<wchar_t>>,
    pub usage_page: u16,
    pub usage: u16,
    pub interface_number: i32,
    pub bus_type: BusType,
}

/// The contents of a `DeviceInfo`.
pub struct DeviceInfoView {
    pub path: Seq<u8>,
    pub vendor_id: u16,
    pub product_id: u16,
    pub serial_number: WideText,
    pub release_number: u16,
    pub manufacturer_string: WideText,
    pub product_string: WideText,
    pub usage_page: u16,
    pub usage: u16,
    pub interface_number: i32,
    pub bus_type: BusType,
}

/// Information on one HID device: a snapshot of plain values that refers to no
/// native memory.
#[derive(Clone, Debug)]
pub struct DeviceInfo {
    path: Vec<u8>,
    vendor_id: u16,
    product_id: u16,
    serial_number: WcharString,
    release_number: u16,
    manufacturer_string: WcharString,
    product_string: WcharString,
    usage_page: u16,
    usage: u16,
    interface_number: i32,
    bus_type: BusType,
}

impl View for DeviceInfo {
    type V = DeviceInfoView;

    closed spec fn view(&self) -> DeviceInfoView {
        DeviceInfoView {
            path: self.path@,
            vendor_id: self.vendor_id,
            product_id: self.product_id,
            serial_number: self.serial_number@,
            release_number: self.release_number,
            manufacturer_string: self.manufacturer_string@,
            product_string: self.product_string@,
            usage_page: self.usage_page,
            usage: self.usage,
            interface_number: self.interface_number,
            bus_type: self.bus_type,
        }
    }
}

/// The units of a possibly absent native string.
pub open spec fn units_view(s: Option<Vec<wchar_t>>) -> Option<Seq<wchar_t>> {
    match s {
        Some(v) => Some(v@),
        None => None,
    }
}

/// The descriptor that a native record with a path converts to.
pub open spec fn info_of_native(src: NativeDeviceInfo) -> DeviceInfoView {
    DeviceInfoView {
        path: src.path->Some_0@,
        vendor_id: src.vendor_id,
        product_id: src.product_id,
        serial_number: decode_wide_opt(units_view(src.serial_number)),
        release_number: src.release_number,
        manufacturer_string: decode_wide_opt(units_view(src.manufacturer_string)),
        product_string: decode_wide_opt(units_view(src.product_string)),
        usage_page: src.usage_page,
        usage: src.usage,
        interface_number: src.interface_number,
        bus_type: src.bus_type,
    }
}

/// The code units of a marshalled string that did not decode.
pub open spec fn raw_of(t: WideText) -> Option<Seq<wchar_t>> {
    match t {
        WideText::Raw(s) => Some(s),
        _ => None,
    }
}

/// Where a device is opened from, as a descriptor decides it.
#[derive(Debug)]
pub enum OpenTarget {
    /// By its platform path.
    Path(Vec<u8>),
    /// By vendor id, product id and serial number.
    Serial { vendor_id: u16, product_id: u16, serial_number: String },
}

fn slice_of(s: &Option<Vec<wchar_t>>) -> (r: Option<&[wchar_t]>)
    ensures
        match r {
            Some(u) => units_view(*s) == Some(u@),
            None => units_view(*s) is None,
        },
{
    match s {
        Some(v) => Some(v.as_slice()),
        None => None,
    }
}

fn copy_bytes(v: &Vec<u8>) -> (r: Vec<u8>)
    ensures
        r@ == v@,
{
    let r = v.clone();
    assert(r@ =~= v@);
    r
}

/// Turns one native enumeration record into a descriptor. Fails only when the
/// record has no path; a string field degrades to an absent or raw string.
pub fn conv_hid_device_info(src: &NativeDeviceInfo) -> (r: HidResult<DeviceInfo>)
    ensures
        src.path is None <==> r is Err,
        r matches Err(e) ==> e is EnumerationError,
        r matches Ok(info) ==> info@ == info_of_native(*src),
{
    let path = match &src.path {
        Some(p) => copy_bytes(p),
        None => return Err(HidError::EnumerationError),
    };
    Ok(DeviceInfo {
        path,
        vendor_id: src.vendor_id,
        product_id: src.product_id,
        serial_number: wchar_to_string(slice_of(&src.serial_number)),
        release_number: src.release_number,
        manufacturer_string: wchar_to_string(slice_of(&src.manufacturer_string)),
        product_string: wchar_to_string(slice_of(&src.product_string)),
        usage_page: src.usage_page,
        usage: src.usage,
        interface_number: src.interface_number,
        bus_type: src.bus_type,
    })
}

impl DeviceInfo {
    /// A copy with the same contents.
    pub fn copied(&self) -> (r: DeviceInfo)
        ensures
            r@ == self@,
    {
        DeviceInfo {
            path: copy_bytes(&self.path),
            vendor_id: self.vendor_id,
            product_id: self.product_id,
            serial_number: self.serial_number.copied(),
            release_number: self.release_number,
            manufacturer_string: self.manufacturer_string.copied(),
            product_string: self.product_string.copied(),
            usage_page: self.usage_page,
            usage: self.usage,
            interface_number: self.interface_number,
            bus_type: self.bus_type,
        }
    }

    /// The platform path; empty where the platform gives none.
    pub fn path(&self) -> (r: &[u8])
        ensures
            r@ == self@.path,
    {
        self.path.as_slice()
    }

    pub fn vendor_id(&self) -> (r: u16)
        ensures
            r == self@.vendor_id,
    {
        self.vendor_id
    }

    pub fn product_id(&self) -> (r: u16)
        ensures
            r == self@.product_id,
    {
        self.product_id
    }

    /// The serial number where it decoded; see `serial_number_raw` otherwise.
    pub fn serial_number(&self) -> (r: Option<&str>)
        ensures
            r matches Some(s) ==> text_of(self@.serial_number) == Some(s@),
            r is None ==> text_of(self@.serial_number) is None,
    {
        text_ref(&self.serial_number)
    }

    /// The code units of a serial number that did not decode.
    pub fn serial_number_raw(&self) -> (r: Option<&[wchar_t]>)
        ensures
            r matches Some(s) ==> raw_of(self@.serial_number) == Some(s@),
            r is None ==> raw_of(self@.serial_number) is None,
    {
        raw_ref(&self.serial_number)
    }

    pub fn release_number(&self) -> (r: u16)
        ensures
            r == self@.release_number,
    {
        self.release_number
    }

    /// The manufacturer string where it decoded.
    pub fn manufacturer_string(&self) -> (r: Option<&str>)
        ensures
            r matches Some(s) ==> text_of(self@.manufacturer_string) == Some(s@),
            r is None ==> text_of(self@.manufacturer_string) is None,
    {
        text_ref(&self.manufacturer_string)
    }

    /// The code units of a manufacturer string that did not decode.
    pub fn manufacturer_string_raw(&self) -> (r: Option<&[wchar_t]>)
        ensures
            r matches Some(s) ==> raw_of(self@.manufacturer_string) == Some(s@),
            r is None ==> raw_of(self@.manufacturer_string) is None,
    {
        raw_ref(&self.manufacturer_string)
    }

    /// The product string where it decoded.
    pub fn product_string(&self) -> (r: Option<&str>)
        ensures
            r matches Some(s) ==> text_of(self@.product_string) == Some(s@),
            r is None ==> text_of(self@.product_string) is None,
    {
        text_ref(&self.product_string)
    }

    /// The code units of a product string that did not decode.
    pub fn product_string_raw(&self) -> (r: Option<&[wchar_t]>)
        ensures
            r matches Some(s) ==> raw_of(self@.product_string) == Some(s@),
            r is None ==> raw_of(self@.product_string) is None,
    {
        raw_ref(&self.product_string)
    }

    /// The usage page; the Linux libusb backends leave it at zero.
    pub fn usage_page(&self) -> (r: u16)
        ensures
            r == self@.usage_page,
    {
        self.usage_page
    }

    /// The usage; the Linux libusb backends leave it at zero.
    pub fn usage(&self) -> (r: u16)
        ensures
            r == self@.usage,
    {
        self.usage
    }

    /// The interface number, or -1 where none applies.
    pub fn interface_number(&self) -> (r: i32)
        ensures
            r == self@.interface_number,
    {
        self.interface_number
    }

    pub fn bus_type(&self) -> (r: BusType)
        ensures
            r == self@.bus_type,
    {
        self.bus_type
    }

    /// Decides how the device is opened: by its path where it has one, else by
    /// its ids and serial number where the serial number decoded; with neither,
    /// it cannot be opened from this descriptor.
    pub fn open_target(&self) -> (r: HidResult<OpenTarget>)
        ensures
            self@.path.len() > 0 ==> (r matches Ok(OpenTarget::Path(p)) && p@ == self@.path),
            self@.path.len() == 0 && text_of(self@.serial_number) is Some ==> (r matches Ok(
                OpenTarget::Serial { vendor_id, product_id, serial_number },
            ) && vendor_id == self@.vendor_id && product_id == self@.product_id
                && text_of(self@.serial_number) == Some(serial_number@)),
            self@.path.len() == 0 && text_of(self@.serial_number) is None ==> (r matches Err(
                HidError::OpenHidDeviceWithDeviceInfoError { device_info },
            ) && device_info@ == self@),
    {
        if self.path.len() > 0 {
            Ok(OpenTarget::Path(copy_bytes(&self.path)))
        } else {
            match &self.serial_number {
                WcharString::Text(s) => Ok(
                    OpenTarget::Serial {
                        vendor_id: self.vendor_id,
                        product_id: self.product_id,
                        serial_number: s.clone(),
                    },
                ),
                _ => Err(
                    HidError::OpenHidDeviceWithDeviceInfoError {
                        device_info: Box::new(self.copied()),
                    },
                ),
            }
        }
    }
}

fn text_ref(s: &WcharString) -> (r: Option<&str>)
    ensures
        r matches Some(t) ==> text_of(s@) == Some(t@),
        r is None ==> text_of(s@) is None,
{
    match s {
        WcharString::Text(t) => Some(t.as_str()),
        _ => None,
    }
}

fn raw_ref(s: &WcharString) -> (r: Option<&[wchar_t]>)
    ensures
        r matches Some(u) ==> raw_of(s@) == Some(u@),
        r is None ==> raw_of(s@) is None,
{
    match s {
        WcharString::Raw(u) => Some(u.as_slice()),
        _ => None,
    }
}

} // verus!
