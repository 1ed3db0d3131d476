use crate::backend::NativeDevice;
use crate::device_info::{conv_hid_device_info, info_of_native, DeviceInfo, NativeDeviceInfo};
use crate::error::{
    error_from_native, is_native_error, native_failure, HidError, HidResult,
};
use crate::wide::{decode_wide, lemma_decode_len, text_of, wchar_to_string};
use libc::wchar_t;
use vstd::prelude::*;

verus! {

/// The capacity, in wide code units, of the buffer that a device string is fetched into.
pub const STRING_BUF_LEN: usize = 128;

/// The number of units of a buffer of `len` units that a string is read from.
pub open spec fn capped_len(len: nat) -> int {
    if len < STRING_BUF_LEN {
        len as int
    } else {
        STRING_BUF_LEN as int
    }
}

/// The name of a read mode, as a failure to switch to it reports it.
pub open spec fn mode_name(blocking: bool) -> Seq<char> {
    if blocking {
        "blocking"@
    } else {
        "not blocking"@
    }
}

/// The outcome of a feature report of `all` bytes of which the library sent
/// `sent`: all or nothing.
pub fn feature_report_outcome(sent: usize, all: usize) -> (r: HidResult<()>)
    ensures
        sent == all ==> r is Ok,
        sent != all ==> (r matches Err(HidError::IncompleteSendError { sent: s, all: a }) && s
            == sent && a == all),
{
    if sent != all {
        Err(HidError::IncompleteSendError { sent, all })
    } else {
        Ok(())
    }
}

/// The outcome of a switch to blocking (or non-blocking) reads for which the
/// library returned `status`, -1 on failure.
pub fn blocking_mode_outcome(blocking: bool, status: i32) -> (r: HidResult<()>)
    ensures
        status != -1 ==> r is Ok,
        status == -1 ==> (r matches Err(HidError::SetBlockingModeError { mode }) && mode@
            == mode_name(blocking)),
{
    if status == -1 {
        Err(
            HidError::SetBlockingModeError {
                mode: if blocking {
                    "blocking"
                } else {
                    "not blocking"
                },
            },
        )
    } else {
        Ok(())
    }
}

/// The flag that asks the library for non-blocking reads: 0 for blocking
/// reads, 1 for non-blocking ones.
pub fn nonblock_flag(blocking: bool) -> (r: i32)
    ensures
        r == (if blocking {
            0i32
        } else {
            1i32
        }),
{
    if blocking {
        0
    } else {
        1
    }
}

/// The text of a string fetched into `buf`, where it decoded: the units up to
/// the first zero unit, reading at most `STRING_BUF_LEN` of them.
pub fn string_from_buffer(buf: &[wchar_t]) -> (r: Option<String>)
    ensures
        opt_text(r) == text_of(decode_wide(buf@.take(capped_len(buf@.len())))),
        r matches Some(s) ==> s@.len() <= STRING_BUF_LEN,
{
    let n = if buf.len() < STRING_BUF_LEN {
        buf.len()
    } else {
        STRING_BUF_LEN
    };
    let units = &buf[0..n];
    proof {
        assert(units@ =~= buf@.take(n as int));
        lemma_decode_len(units@);
    }
    wchar_to_string(Some(units)).into_string()
}

/// The characters of an optional string.
pub open spec fn opt_text(s: Option<String>) -> Option<Seq<char>> {
    match s {
        Some(t) => Some(t@),
        None => None,
    }
}

/// The result of a string fetch: the text of some buffer of at most
/// `STRING_BUF_LEN` units that the library filled, where it decoded.
pub open spec fn is_fetched_string(r: Option<String>) -> bool {
    exists|units: Seq<wchar_t>|
        units.len() <= STRING_BUF_LEN && #[trigger] text_of(decode_wide(units)) == opt_text(r)
}

/// An open HID device. It owns its native handle, which is closed exactly
/// once, when the `HidDevice` is dropped.
pub struct HidDevice<D> {
    hid_device: D,
}

impl<D: NativeDevice> HidDevice<D> {
    /// Takes ownership of an opened native device.
    pub fn from_native(hid_device: D) -> (r: HidDevice<D>) {
        HidDevice { hid_device }
    }

    /// Reads a count that the library returned: -1 reports failure, which
    /// becomes the device's last error as `native_failure` maps it; any other
    /// value is the count, taken as `usize` the way Rust's `as` does.
    pub fn check_size(&self, res: i32) -> (r: HidResult<usize>)
        ensures
            res != -1 ==> r == Ok::<usize, HidError>(res as usize),
            res == -1 ==> (r matches Err(e) && is_native_error(e)),
            r matches Err(e) ==> is_native_error(e),
    {
        if res == -1 {
            Err(native_failure(self.hid_device.error()))
        } else {
            Ok(#[verifier::truncate] (res as usize))
        }
    }

    /// The last error on this device, as `error_from_native` maps the
    /// library's message.
    pub fn check_error(&self) -> (r: HidResult<HidError>)
        ensures
            r matches Ok(e) ==> e is HidApiError,
            r matches Err(e) ==> e is HidApiErrorEmpty,
    {
        error_from_native(self.hid_device.error())
    }

    /// Writes an output report: `data[0]` is the report id (0 for a device
    /// with a single report). Returns the number of bytes written, which may
    /// be fewer than `data.len()`. Empty data is refused before the device is
    /// reached.
    pub fn write(&self, data: &[u8]) -> (r: HidResult<usize>)
        ensures
            data@.len() == 0 <==> (r matches Err(e) && e is InvalidZeroSizeData),
            r matches Err(e) ==> (e is InvalidZeroSizeData || (is_native_error(e)
                && is_native_error(e))),
    {
        if data.len() == 0 {
            return Err(HidError::InvalidZeroSizeData);
        }
        let res = self.hid_device.write(data);
        self.check_size(res)
    }

    /// Reads an input report into `buf`, blocking or not as the device's mode
    /// says; returns the number of bytes read.
    pub fn read(&self, buf: &mut [u8]) -> (r: HidResult<usize>)
        ensures
            r matches Err(e) ==> is_native_error(e),
    {
        let res = self.hid_device.read(buf);
        self.check_size(res)
    }

    /// Reads an input report, waiting at most `timeout` milliseconds: a
    /// negative timeout waits without bound, zero returns at once.
    pub fn read_timeout(&self, buf: &mut [u8], timeout: i32) -> (r: HidResult<usize>)
        ensures
            r matches Err(e) ==> is_native_error(e),
    {
        let res = self.hid_device.read_timeout(buf, timeout);
        self.check_size(res)
    }

    /// Sends a feature report, report id first. It succeeds only when all of
    /// `data` went out; a shorter send fails with the two counts.
    pub fn send_feature_report(&self, data: &[u8]) -> (r: HidResult<()>)
        ensures
            data@.len() == 0 <==> (r matches Err(e) && e is InvalidZeroSizeData),
            r matches Err(HidError::IncompleteSendError { sent, all }) ==> all == data@.len()
                && sent != all,
            r matches Err(e) ==> (e is InvalidZeroSizeData || e is IncompleteSendError
                || is_native_error(e)),
    {
        if data.len() == 0 {
            return Err(HidError::InvalidZeroSizeData);
        }
        let res = self.hid_device.send_feature_report(data);
        let sent = self.check_size(res)?;
        feature_report_outcome(sent, data.len())
    }

    /// Reads a feature report: `buf[0]` holds the report id asked for.
    /// Returns the number of bytes filled in, report id included.
    pub fn get_feature_report(&self, buf: &mut [u8]) -> (r: HidResult<usize>)
        ensures
            r matches Err(e) ==> is_native_error(e),
    {
        let res = self.hid_device.get_feature_report(buf);
        self.check_size(res)
    }

    /// Switches reads to blocking or to non-blocking mode.
    pub fn set_blocking_mode(&self, blocking: bool) -> (r: HidResult<()>)
        ensures
            r matches Err(e) ==> (e matches HidError::SetBlockingModeError { mode } && mode@
                == mode_name(blocking)),
    {
        let res = self.hid_device.set_nonblocking(nonblock_flag(blocking));
        blocking_mode_outcome(blocking, res)
    }

    /// Turns a string fetch's status and buffer into the string, where it decoded.
    fn string_result(&self, res: i32, buf: &[wchar_t]) -> (r: HidResult<Option<String>>)
        ensures
            res != -1 ==> (r matches Ok(t) && opt_text(t) == text_of(
                decode_wide(buf@.take(capped_len(buf@.len()))),
            )),
            r matches Ok(t) ==> is_fetched_string(t),
            r matches Ok(Some(s)) ==> s@.len() <= STRING_BUF_LEN,
            res == -1 ==> (r matches Err(e) && is_native_error(e)),
    {
        self.check_size(res)?;
        let t = string_from_buffer(buf);
        proof {
            let units = buf@.take(capped_len(buf@.len()));
            assert(text_of(decode_wide(units)) == opt_text(t));
        }
        Ok(t)
    }

    /// The manufacturer string, fetched into a buffer of `STRING_BUF_LEN`
    /// units: a longer string is cut there.
    pub fn get_manufacturer_string(&self) -> (r: HidResult<Option<String>>)
        ensures
            r matches Ok(t) ==> is_fetched_string(t),
            r matches Ok(Some(s)) ==> s@.len() <= STRING_BUF_LEN,
            r matches Err(e) ==> is_native_error(e),
    {
        let mut buf: Vec<wchar_t> = vec![0; STRING_BUF_LEN];
        let res = self.hid_device.get_manufacturer_string(buf.as_mut_slice());
        self.string_result(res, buf.as_slice())
    }

    /// The product string, fetched into a buffer of `STRING_BUF_LEN` units.
    pub fn get_product_string(&self) -> (r: HidResult<Option<String>>)
        ensures
            r matches Ok(t) ==> is_fetched_string(t),
            r matches Ok(Some(s)) ==> s@.len() <= STRING_BUF_LEN,
            r matches Err(e) ==> is_native_error(e),
    {
        let mut buf: Vec<wchar_t> = vec![0; STRING_BUF_LEN];
        let res = self.hid_device.get_product_string(buf.as_mut_slice());
        self.string_result(res, buf.as_slice())
    }

    /// The serial number string, fetched into a buffer of `STRING_BUF_LEN` units.
    pub fn get_serial_number_string(&self) -> (r: HidResult<Option<String>>)
        ensures
            r matches Ok(t) ==> is_fetched_string(t),
            r matches Ok(Some(s)) ==> s@.len() <= STRING_BUF_LEN,
            r matches Err(e) ==> is_native_error(e),
    {
        let mut buf: Vec<wchar_t> = vec![0; STRING_BUF_LEN];
        let res = self.hid_device.get_serial_number_string(buf.as_mut_slice());
        self.string_result(res, buf.as_slice())
    }

    /// The string at a string-descriptor index, fetched into a buffer of
    /// `STRING_BUF_LEN` units.
    pub fn get_indexed_string(&self, index: i32) -> (r: HidResult<Option<String>>)
        ensures
            r matches Ok(t) ==> is_fetched_string(t),
            r matches Ok(Some(s)) ==> s@.len() <= STRING_BUF_LEN,
            r matches Err(e) ==> is_native_error(e),
    {
        let mut buf: Vec<wchar_t> = vec![0; STRING_BUF_LEN];
        let res = self.hid_device.get_indexed_string(index, buf.as_mut_slice());
        self.string_result(res, buf.as_slice())
    }

    /// The descriptor of this device, as the library reports it now.
    pub fn get_device_info(&self) -> (r: HidResult<DeviceInfo>)
        ensures
            r matches Err(e) ==> (e is EnumerationError || (is_native_error(e)
                && is_native_error(e))),
            r matches Ok(info) ==> exists|n: NativeDeviceInfo| #[trigger] info_of_native(n)
                == info@,
    {
        match self.hid_device.get_device_info() {
            Some(raw_device) => conv_hid_device_info(&raw_device),
            None => Err(native_failure(self.hid_device.error())),
        }
    }
}

} // verus!
