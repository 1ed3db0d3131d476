use hidapi::{
    native_failure, nonblock_flag, string_from_buffer,
    blocking_mode_outcome, feature_report_outcome,
    conv_hid_device_info, device_info_vector, error_from_native, lazy_init, wchar_to_string,
    wide_of_str, BusType, HidApi, HidDevice, HidError, InitState, NativeDevice, NativeDeviceInfo,
    NativeHidApi, OpenTarget, WcharString, STRING_BUF_LEN,
};
use libc::wchar_t;
use std::cell::RefCell;
use std::rc::Rc;

#[derive(Default)]
struct Script {
    calls: Vec<String>,
    closed: usize,
    init_status: i32,
    devices: Vec<NativeDeviceInfo>,
    open_fails: bool,
    result: i32,
    error: Option<Vec<wchar_t>>,
    string: Vec<wchar_t>,
    info: Option<NativeDeviceInfo>,
}

type Shared = Rc<RefCell<Script>>;

struct FakeDevice {
    script: Shared,
}

impl Drop for FakeDevice {
    fn drop(&mut self) {
        self.script.borrow_mut().closed += 1;
    }
}

impl FakeDevice {
    fn call(&self, name: &str) -> i32 {
        let mut s = self.script.borrow_mut();
        s.calls.push(name.to_string());
        s.result
    }

    fn fill(&self, name: &str, buf: &mut [wchar_t]) -> i32 {
        let r = self.call(name);
        let s = self.script.borrow();
        for (i, u) in s.string.iter().enumerate() {
            if i < buf.len() {
                buf[i] = *u;
            }
        }
        r
    }
}

impl NativeDevice for FakeDevice {
    fn write(&self, _data: &[u8]) -> i32 {
        self.call("write")
    }
    fn read(&self, _buf: &mut [u8]) -> i32 {
        self.call("read")
    }
    fn read_timeout(&self, _buf: &mut [u8], timeout: i32) -> i32 {
        self.call(&format!("read_timeout {}", timeout))
    }
    fn send_feature_report(&self, _data: &[u8]) -> i32 {
        self.call("send_feature_report")
    }
    fn get_feature_report(&self, _buf: &mut [u8]) -> i32 {
        self.call("get_feature_report")
    }
    fn set_nonblocking(&self, nonblock: i32) -> i32 {
        self.call(&format!("set_nonblocking {}", nonblock))
    }
    fn get_manufacturer_string(&self, buf: &mut [wchar_t]) -> i32 {
        self.fill("manufacturer", buf)
    }
    fn get_product_string(&self, buf: &mut [wchar_t]) -> i32 {
        self.fill("product", buf)
    }
    fn get_serial_number_string(&self, buf: &mut [wchar_t]) -> i32 {
        self.fill("serial", buf)
    }
    fn get_indexed_string(&self, index: i32, buf: &mut [wchar_t]) -> i32 {
        self.fill(&format!("indexed {}", index), buf)
    }
    fn get_device_info(&self) -> Option<NativeDeviceInfo> {
        self.call("get_device_info");
        self.script.borrow().info.clone()
    }
    fn error(&self) -> Option<Vec<wchar_t>> {
        self.script.borrow().error.clone()
    }
}

struct FakeApi {
    script: Shared,
}

impl NativeHidApi for FakeApi {
    type Device = FakeDevice;

    fn init(&self, enumerate: bool) -> i32 {
        let mut s = self.script.borrow_mut();
        s.calls.push(format!("init {}", enumerate));
        s.init_status
    }
    fn enumerate(&self) -> Vec<NativeDeviceInfo> {
        let mut s = self.script.borrow_mut();
        s.calls.push("enumerate".to_string());
        s.devices.clone()
    }
    fn open(
        &self,
        vendor_id: u16,
        product_id: u16,
        serial_number: Option<&[wchar_t]>,
    ) -> Option<FakeDevice> {
        let mut s = self.script.borrow_mut();
        s.calls.push(format!("open {:04x}:{:04x} {:?}", vendor_id, product_id, serial_number));
        if s.open_fails {
            None
        } else {
            Some(FakeDevice { script: self.script.clone() })
        }
    }
    fn open_path(&self, path: &[u8]) -> Option<FakeDevice> {
        let mut s = self.script.borrow_mut();
        s.calls.push(format!("open_path {}", String::from_utf8_lossy(path)));
        if s.open_fails {
            None
        } else {
            Some(FakeDevice { script: self.script.clone() })
        }
    }
    fn error(&self) -> Option<Vec<wchar_t>> {
        self.script.borrow().error.clone()
    }
}

fn wide(s: &str) -> Vec<wchar_t> {
    let mut v: Vec<wchar_t> = s.chars().map(|c| c as wchar_t).collect();
    v.push(0);
    v
}

fn record(vid: u16, pid: u16, path: Option<&str>, serial: Option<&str>) -> NativeDeviceInfo {
    NativeDeviceInfo {
        path: path.map(|p| p.as_bytes().to_vec()),
        vendor_id: vid,
        product_id: pid,
        serial_number: serial.map(wide),
        release_number: 0x0100,
        manufacturer_string: Some(wide("Acme")),
        product_string: None,
        usage_page: 1,
        usage: 6,
        interface_number: -1,
        bus_type: BusType::Usb,
    }
}

fn script() -> Shared {
    Rc::new(RefCell::new(Script::default()))
}

fn device(s: &Shared) -> HidDevice<FakeDevice> {
    HidDevice::from_native(FakeDevice { script: s.clone() })
}

fn context(s: &Shared) -> HidApi<FakeApi> {
    let mut state = InitState::NotInit;
    let api = match HidApi::new_without_enumerate(FakeApi { script: s.clone() }, &mut state) {
        Ok(api) => api,
        Err(e) => panic!("{:?}", e),
    };
    s.borrow_mut().calls.clear();
    api
}

#[test]
fn marshal_valid_units_gives_text() {
    let units = wide("Keyboard");
    match wchar_to_string(Some(&units)) {
        WcharString::Text(s) => assert_eq!(s, "Keyboard"),
        other => panic!("{:?}", other),
    }
}

#[test]
fn marshal_stops_at_zero_unit() {
    let units: Vec<wchar_t> = vec![0x41, 0x42, 0, 0x43];
    match wchar_to_string(Some(&units)) {
        WcharString::Text(s) => assert_eq!(s, "AB"),
        other => panic!("{:?}", other),
    }
}

#[test]
fn marshal_invalid_unit_gives_whole_raw_sequence() {
    let units: Vec<wchar_t> = vec![0x41, 0xD800, 0x42, 0];
    match wchar_to_string(Some(&units)) {
        WcharString::Raw(v) => assert_eq!(v, vec![0x41, 0xD800, 0x42]),
        other => panic!("{:?}", other),
    }
    let beyond: Vec<wchar_t> = vec![0x110000];
    assert!(matches!(wchar_to_string(Some(&beyond)), WcharString::Raw(v) if v == vec![0x110000]));
    let negative: Vec<wchar_t> = vec![0x41, -5];
    assert!(matches!(wchar_to_string(Some(&negative)), WcharString::Raw(v) if v == vec![0x41, -5]));
}

#[test]
fn marshal_absent_and_empty() {
    assert!(matches!(wchar_to_string(None), WcharString::Absent));
    let empty: Vec<wchar_t> = vec![];
    assert!(matches!(wchar_to_string(Some(&empty)), WcharString::Text(s) if s.is_empty()));
    assert_eq!(WcharString::Raw(vec![0xD800]).into_string(), None);
    assert_eq!(WcharString::Text("x".to_string()).into_string(), Some("x".to_string()));
}

#[test]
fn marshal_non_ascii_characters() {
    let units: Vec<wchar_t> = vec![0xE9, 0x1F600, 0];
    assert!(matches!(wchar_to_string(Some(&units)), WcharString::Text(s) if s == "é😀"));
}

#[test]
fn conversion_copies_every_field() {
    let mut rec = record(0x1234, 0x5678, Some("/dev/hidraw0"), Some("SN1"));
    rec.product_string = Some(vec![0x50, 0xDC00, 0]);
    let info = conv_hid_device_info(&rec).unwrap();
    assert_eq!(info.path(), b"/dev/hidraw0");
    assert_eq!(info.vendor_id(), 0x1234);
    assert_eq!(info.product_id(), 0x5678);
    assert_eq!(info.serial_number(), Some("SN1"));
    assert_eq!(info.serial_number_raw(), None);
    assert_eq!(info.release_number(), 0x0100);
    assert_eq!(info.manufacturer_string(), Some("Acme"));
    assert_eq!(info.product_string(), None);
    assert_eq!(info.product_string_raw(), Some(&[0x50, 0xDC00][..]));
    assert_eq!(info.usage_page(), 1);
    assert_eq!(info.usage(), 6);
    assert_eq!(info.interface_number(), -1);
    assert_eq!(info.bus_type(), BusType::Usb);
}

#[test]
fn conversion_without_path_fails() {
    let rec = record(1, 2, None, Some("SN"));
    assert!(matches!(conv_hid_device_info(&rec), Err(HidError::EnumerationError)));
    let list = vec![record(1, 2, Some("a"), None), rec];
    assert!(matches!(device_info_vector(&list), Err(HidError::EnumerationError)));
}

#[test]
fn device_list_keeps_enumeration_order() {
    let list = vec![record(1, 1, Some("a"), None), record(2, 2, Some("b"), None), record(3, 3, Some("c"), None)];
    let first = device_info_vector(&list).unwrap();
    let second = device_info_vector(&list).unwrap();
    let ids: Vec<u16> = first.iter().map(|d| d.vendor_id()).collect();
    assert_eq!(ids, vec![1, 2, 3]);
    let paths: Vec<&[u8]> = second.iter().map(|d| d.path()).collect();
    assert_eq!(paths, vec![&b"a"[..], &b"b"[..], &b"c"[..]]);
    assert!(device_info_vector(&[]).unwrap().is_empty());
}

#[test]
fn enumerating_twice_gives_equal_lists() {
    let s = script();
    s.borrow_mut().devices = vec![record(1, 2, Some("x"), Some("A")), record(3, 4, Some("y"), None)];
    let mut api = context(&s);
    api.refresh_devices().unwrap();
    let first: Vec<(Vec<u8>, u16)> = api.device_list().iter().map(|d| (d.path().to_vec(), d.vendor_id())).collect();
    api.refresh_devices().unwrap();
    let second: Vec<(Vec<u8>, u16)> = api.device_list().iter().map(|d| (d.path().to_vec(), d.vendor_id())).collect();
    assert_eq!(first, second);
    assert_eq!(first.len(), 2);
}

#[test]
fn handles_are_released_once_each() {
    let s = script();
    let api = context(&s);
    let handles: Vec<HidDevice<FakeDevice>> = (0..5).map(|_| api.open(1, 2).unwrap()).collect();
    s.borrow_mut().result = -1;
    assert!(handles[0].write(&[0, 1]).is_err());
    assert_eq!(s.borrow().closed, 0);
    drop(handles);
    assert_eq!(s.borrow().closed, 5);
    let single = api.open_path(b"/dev/x").unwrap();
    drop(single);
    assert_eq!(s.borrow().closed, 6);
}

#[test]
fn empty_payload_never_reaches_device() {
    let s = script();
    let d = device(&s);
    assert!(matches!(d.write(&[]), Err(HidError::InvalidZeroSizeData)));
    assert!(matches!(d.send_feature_report(&[]), Err(HidError::InvalidZeroSizeData)));
    assert!(s.borrow().calls.is_empty());
}

#[test]
fn short_feature_report_is_incomplete() {
    let s = script();
    let d = device(&s);
    s.borrow_mut().result = 2;
    match d.send_feature_report(&[1, 2, 3, 4]) {
        Err(HidError::IncompleteSendError { sent, all }) => {
            assert_eq!(sent, 2);
            assert_eq!(all, 4);
        }
        other => panic!("{:?}", other),
    }
    s.borrow_mut().result = 4;
    assert!(d.send_feature_report(&[1, 2, 3, 4]).is_ok());
}

#[test]
fn partial_write_returns_count() {
    let s = script();
    let d = device(&s);
    s.borrow_mut().result = 3;
    assert_eq!(d.write(&[0, 1, 2, 3, 4]).unwrap(), 3);
    assert_eq!(s.borrow().calls, vec!["write".to_string()]);
}

#[test]
fn failure_reports_native_message() {
    let s = script();
    let d = device(&s);
    s.borrow_mut().result = -1;
    s.borrow_mut().error = Some(wide("device gone"));
    assert!(matches!(d.read(&mut [0u8; 8]), Err(HidError::HidApiError { message }) if message == "device gone"));
    s.borrow_mut().error = None;
    assert!(matches!(d.read_timeout(&mut [0u8; 8], -1), Err(HidError::HidApiErrorEmpty)));
    s.borrow_mut().error = Some(vec![0xD800, 0]);
    assert!(matches!(d.get_feature_report(&mut [0u8; 8]), Err(HidError::HidApiErrorEmpty)));
    assert!(matches!(d.check_size(-1), Err(HidError::HidApiErrorEmpty)));
    assert_eq!(d.check_size(7).unwrap(), 7);
}

#[test]
fn error_from_native_messages() {
    assert!(matches!(error_from_native(Some(wide("bad"))), Ok(HidError::HidApiError { message }) if message == "bad"));
    assert!(matches!(error_from_native(None), Err(HidError::HidApiErrorEmpty)));
    assert!(matches!(error_from_native(Some(vec![0xDFFF])), Err(HidError::HidApiErrorEmpty)));
}

#[test]
fn read_timeout_passes_timeout() {
    let s = script();
    let d = device(&s);
    s.borrow_mut().result = 0;
    assert_eq!(d.read_timeout(&mut [0u8; 4], 0).unwrap(), 0);
    assert_eq!(s.borrow().calls, vec!["read_timeout 0".to_string()]);
}

#[test]
fn blocking_mode_flags_and_failure() {
    let s = script();
    let d = device(&s);
    assert!(d.set_blocking_mode(true).is_ok());
    assert!(d.set_blocking_mode(false).is_ok());
    assert_eq!(s.borrow().calls, vec!["set_nonblocking 0".to_string(), "set_nonblocking 1".to_string()]);
    s.borrow_mut().result = -1;
    assert!(matches!(d.set_blocking_mode(true), Err(HidError::SetBlockingModeError { mode: "blocking" })));
    assert!(matches!(d.set_blocking_mode(false), Err(HidError::SetBlockingModeError { mode: "not blocking" })));
}

#[test]
fn device_strings_are_decoded_and_capped() {
    let s = script();
    let d = device(&s);
    s.borrow_mut().string = wide("Acme Corp");
    assert_eq!(d.get_manufacturer_string().unwrap(), Some("Acme Corp".to_string()));
    assert_eq!(d.get_product_string().unwrap(), Some("Acme Corp".to_string()));
    s.borrow_mut().string = vec![0x41; 300];
    let long = d.get_serial_number_string().unwrap().unwrap();
    assert_eq!(long.len(), STRING_BUF_LEN);
    s.borrow_mut().string = vec![0xD800, 0];
    assert_eq!(d.get_indexed_string(3).unwrap(), None);
    assert!(s.borrow().calls.contains(&"indexed 3".to_string()));
    s.borrow_mut().result = -1;
    assert!(d.get_product_string().is_err());
}

#[test]
fn device_info_from_handle() {
    let s = script();
    let d = device(&s);
    s.borrow_mut().info = Some(record(7, 8, Some("p"), None));
    let info = d.get_device_info().unwrap();
    assert_eq!((info.vendor_id(), info.product_id()), (7, 8));
    s.borrow_mut().info = None;
    s.borrow_mut().error = Some(wide("no info"));
    assert!(matches!(d.get_device_info(), Err(HidError::HidApiError { .. })));
}

#[test]
fn init_mode_conflict_is_detected() {
    let s = script();
    let mut state = InitState::NotInit;
    assert!(state.allows(true) && state.allows(false));
    let first = HidApi::new(FakeApi { script: s.clone() }, &mut state);
    assert!(first.is_ok());
    assert_eq!(state, InitState::Init { enumerate: true });
    assert!(!state.allows(false));
    assert!(state.allows(true));
}

#[test]
fn contexts_keep_their_own_caches() {
    let s = script();
    let mut state = InitState::NotInit;
    s.borrow_mut().devices = vec![record(1, 1, Some("a"), None)];
    let first = HidApi::new(FakeApi { script: s.clone() }, &mut state).unwrap();
    s.borrow_mut().devices = vec![record(2, 2, Some("b"), None), record(3, 3, Some("c"), None)];
    let mut second = HidApi::new(FakeApi { script: s.clone() }, &mut state).unwrap();
    assert_eq!(first.device_list().len(), 1);
    assert_eq!(second.device_list().len(), 2);
    let inits = s.borrow().calls.iter().filter(|c| c.starts_with("init")).count();
    assert_eq!(inits, 1);
    s.borrow_mut().devices = vec![];
    second.refresh_devices().unwrap();
    assert_eq!(second.device_list().len(), 0);
    assert_eq!(first.device_list().len(), 1);
}

#[test]
fn failed_init_leaves_state_uninitialised() {
    let s = script();
    s.borrow_mut().init_status = -1;
    let mut state = InitState::NotInit;
    assert!(matches!(HidApi::new(FakeApi { script: s.clone() }, &mut state), Err(HidError::InitializationError)));
    assert_eq!(state, InitState::NotInit);
    s.borrow_mut().init_status = 0;
    assert!(lazy_init(&FakeApi { script: s.clone() }, &mut state, false).is_ok());
    assert_eq!(state, InitState::Init { enumerate: false });
    let mut api = HidApi::new_without_enumerate(FakeApi { script: s.clone() }, &mut state).unwrap();
    assert!(api.device_list().is_empty());
    s.borrow_mut().devices = vec![record(1, 1, None, None)];
    assert!(matches!(api.refresh_devices(), Err(HidError::EnumerationError)));
    assert!(api.device_list().is_empty());
}

#[test]
fn open_device_by_path_only() {
    let s = script();
    let api = context(&s);
    let info = conv_hid_device_info(&record(0x1234, 0x5678, Some("/dev/x"), None)).unwrap();
    assert!(matches!(info.open_target(), Ok(OpenTarget::Path(p)) if p == b"/dev/x".to_vec()));
    assert!(info.open_device(&api).is_ok());
    let calls = s.borrow().calls.clone();
    assert_eq!(calls, vec!["open_path /dev/x".to_string()]);
}

#[test]
fn open_device_by_serial_without_path() {
    let s = script();
    let api = context(&s);
    let info = conv_hid_device_info(&record(0x1234, 0x5678, Some(""), Some("ABC123"))).unwrap();
    match info.open_target() {
        Ok(OpenTarget::Serial { vendor_id, product_id, serial_number }) => {
            assert_eq!((vendor_id, product_id), (0x1234, 0x5678));
            assert_eq!(serial_number, "ABC123");
        }
        other => panic!("{:?}", other),
    }
    assert!(info.open_device(&api).is_ok());
    let expected = format!("open 1234:5678 {:?}", Some(&wide("ABC123")[..]));
    assert_eq!(s.borrow().calls, vec![expected]);
}

#[test]
fn open_device_without_path_or_serial_fails() {
    let s = script();
    let api = context(&s);
    let info = conv_hid_device_info(&record(0x1234, 0x5678, Some(""), None)).unwrap();
    match info.open_device(&api) {
        Err(HidError::OpenHidDeviceWithDeviceInfoError { device_info }) => {
            assert_eq!(device_info.vendor_id(), 0x1234);
            assert_eq!(device_info.product_id(), 0x5678);
        }
        other => panic!("{:?}", other.map(|_| ())),
    }
    assert!(s.borrow().calls.is_empty());
}

#[test]
fn open_failure_reports_library_error() {
    let s = script();
    let api = context(&s);
    s.borrow_mut().open_fails = true;
    s.borrow_mut().error = Some(wide("busy"));
    assert!(matches!(api.open(1, 2), Err(HidError::HidApiError { message }) if message == "busy"));
    s.borrow_mut().error = None;
    assert!(matches!(api.open_serial(1, 2, "S"), Err(HidError::HidApiErrorEmpty)));
    assert!(matches!(api.check_error(), Err(HidError::HidApiErrorEmpty)));
}

#[test]
fn serial_number_to_wide_units() {
    assert_eq!(wide_of_str("AB"), vec![0x41, 0x42, 0]);
    assert_eq!(wide_of_str(""), vec![0]);
    assert_eq!(wide_of_str("é"), vec![0xE9, 0]);
}

#[test]
fn feature_report_outcome_is_all_or_nothing() {
    assert!(feature_report_outcome(5, 5).is_ok());
    assert!(matches!(
        feature_report_outcome(3, 5),
        Err(HidError::IncompleteSendError { sent: 3, all: 5 })
    ));
    assert!(matches!(
        feature_report_outcome(6, 5),
        Err(HidError::IncompleteSendError { sent: 6, all: 5 })
    ));
}

#[test]
fn blocking_mode_outcome_names_mode() {
    assert!(blocking_mode_outcome(true, 0).is_ok());
    assert!(matches!(
        blocking_mode_outcome(false, -1),
        Err(HidError::SetBlockingModeError { mode: "not blocking" })
    ));
    assert!(matches!(
        blocking_mode_outcome(true, -1),
        Err(HidError::SetBlockingModeError { mode: "blocking" })
    ));
}

#[test]
fn nonblock_flag_values() {
    assert_eq!(nonblock_flag(true), 0);
    assert_eq!(nonblock_flag(false), 1);
}

#[test]
fn native_failure_uses_message() {
    assert!(matches!(native_failure(Some(wide("timeout"))), HidError::HidApiError { message } if message == "timeout"));
    assert!(matches!(native_failure(None), HidError::HidApiErrorEmpty));
    assert!(matches!(native_failure(Some(vec![0x41, 0xD800, 0])), HidError::HidApiErrorEmpty));
}

#[test]
fn string_from_buffer_decodes_and_caps() {
    assert_eq!(string_from_buffer(&wide("Mouse")), Some("Mouse".to_string()));
    assert_eq!(string_from_buffer(&[0x41, 0xDFFF, 0]), None);
    assert_eq!(string_from_buffer(&[]), Some(String::new()));
    let long: Vec<wchar_t> = vec![0x42; 200];
    assert_eq!(string_from_buffer(&long), Some("B".repeat(STRING_BUF_LEN)));
}

#[test]
fn only_minus_one_is_failure() {
    assert!(blocking_mode_outcome(true, -2).is_ok());
    let s = script();
    let d = device(&s);
    assert_eq!(d.check_size(-2).unwrap(), -2i32 as usize);
    s.borrow_mut().result = -2;
    s.borrow_mut().string = wide("Pad");
    assert_eq!(d.get_manufacturer_string().unwrap(), Some("Pad".to_string()));
    assert_eq!(d.get_indexed_string(1).unwrap(), Some("Pad".to_string()));
    assert!(d.set_blocking_mode(false).is_ok());
    let mut state = InitState::NotInit;
    assert!(state.record_init(true, -2).is_ok());
    assert_eq!(state, InitState::Init { enumerate: true });
}
