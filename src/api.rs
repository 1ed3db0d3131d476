use crate::backend::NativeHidApi;
use crate::device::HidDevice;
use crate::device_info::{
    conv_hid_device_info, info_of_native, DeviceInfo, DeviceInfoView, NativeDeviceInfo, OpenTarget,
};
use crate::error::{
    error_from_native, is_native_error, native_failure, HidError, HidResult,
};
use crate::init::{init_allows, lazy_init, InitState};
use crate::wide::text_of;
use libc::wchar_t;
use vstd::prelude::*;
use vstd::std_specs::iter::IteratorSpec;

verus! {

/// The contents of a list of descriptors.
pub open spec fn infos_view(v: Seq<DeviceInfo>) -> Seq<DeviceInfoView> {
    v.map_values(|d: DeviceInfo| d@)
}

/// Every enumeration record carries a path.
pub open spec fn all_have_paths(records: Seq<NativeDeviceInfo>) -> bool {
    forall|i: int| 0 <= i < records.len() ==> (#[trigger] records[i]).path is Some
}

/// The descriptors that a list of enumeration records converts to, in order.
pub open spec fn native_list_view(records: Seq<NativeDeviceInfo>) -> Seq<DeviceInfoView> {
    records.map_values(|n: NativeDeviceInfo| info_of_native(n))
}

/// Enumeration keeps the count and the order of the records it is handed:
/// the device list holds, at each position, the conversion of the record there.
pub proof fn lemma_enumeration_keeps_order(records: Seq<NativeDeviceInfo>)
    ensures
        native_list_view(records).len() == records.len(),
        forall|i: int|
            0 <= i < records.len() ==> #[trigger] native_list_view(records)[i] == info_of_native(
                records[i],
            ),
{
}

/// The zero-terminated wide string that passes `s` to the platform library.
pub open spec fn wide_of_chars(s: Seq<char>) -> Seq<wchar_t> {
    s.map_values(|c: char| c as wchar_t).push(0)
}

/// The serial number `s` as the platform library takes it: one wide unit per
/// character, then a terminating zero.
pub fn wide_of_str(s: &str) -> (r: Vec<wchar_t>)
    ensures
        r@ == wide_of_chars(s@),
{
    broadcast use vstd::string::axiom_spec_iter, vstd::string::next_postcondition;

    let mut units: Vec<wchar_t> = Vec::new();
    let mut iter = s.chars();
    let ghost mut done: Seq<char> = Seq::empty();
    loop
        invariant
            done + iter.remaining() == s@,
            units@ == done.map_values(|c: char| c as wchar_t),
            iter.decrease() is Some,
        ensures
            done == s@,
            units@ == done.map_values(|c: char| c as wchar_t),
        decreases iter.decrease()->0,
    {
        let ghost before = iter.remaining();
        match iter.next() {
            Some(c) => {
                proof {
                    assert(before.len() > 0);
                    assert(c == before[0]);
                    assert(done.push(c) + iter.remaining() =~= done + before);
                    assert(done.push(c).map_values(|c: char| c as wchar_t) =~= done.map_values(
                        |c: char| c as wchar_t,
                    ).push(c as wchar_t));
                    done = done.push(c);
                }
                units.push(c as wchar_t);
            },
            None => {
                proof {
                    assert(before.len() == 0);
                    assert(done =~= s@);
                }
                break ;
            },
        }
    }
    units.push(0);
    units
}

/// Converts the records of one enumeration, in order, into descriptors. Fails
/// when a record has no path.
pub fn device_info_vector(records: &[NativeDeviceInfo]) -> (r: HidResult<Vec<DeviceInfo>>)
    ensures
        r is Ok <==> all_have_paths(records@),
        r matches Err(e) ==> e is EnumerationError,
        r matches Ok(v) ==> infos_view(v@) == native_list_view(records@),
{
    let mut device_vector: Vec<DeviceInfo> = Vec::new();
    let mut i: usize = 0;
    while i < records.len()
        invariant
            i <= records@.len(),
            all_have_paths(records@.take(i as int)),
            infos_view(device_vector@) == native_list_view(records@.take(i as int)),
        decreases records@.len() - i,
    {
        match conv_hid_device_info(&records[i]) {
            Ok(info) => {
                let ghost old_v = device_vector@;
                device_vector.push(info);
                proof {
                    let prev = records@.take(i as int);
                    let next = records@.take(i + 1);
                    assert(next =~= prev.push(records@[i as int]));
                    assert(infos_view(device_vector@) =~= infos_view(old_v).push(info@));
                    assert(native_list_view(next) =~= native_list_view(prev).push(
                        info_of_native(records@[i as int]),
                    ));
                    assert forall|j: int| 0 <= j < next.len() implies #[trigger] next[j].path
                        is Some by {
                        if j < i {
                            assert(next[j] == prev[j]);
                        }
                    }
                }
            },
            Err(e) => {
                assert(!all_have_paths(records@)) by {
                    assert(records@[i as int].path is None);
                }
                return Err(e);
            },
        }
        i += 1;
    }
    assert(records@.take(i as int) =~= records@);
    Ok(device_vector)
}

/// The platform library's entry points: enumeration and opening.
pub struct HidApiBackend<B> {
    native: B,
}

impl<B: NativeHidApi> HidApiBackend<B> {
    pub fn new(native: B) -> (r: HidApiBackend<B>) {
        HidApiBackend { native }
    }

    /// The library's last error that concerns no single device, as
    /// `error_from_native` maps it.
    pub fn check_error(&self) -> (r: HidResult<HidError>)
        ensures
            r matches Ok(e) ==> e is HidApiError,
            r matches Err(e) ==> e is HidApiErrorEmpty,
    {
        error_from_native(self.native.error())
    }

    fn opened(&self, device: Option<B::Device>) -> (r: HidResult<HidDevice<B::Device>>)
        ensures
            device is Some <==> r is Ok,
            r matches Err(e) ==> is_native_error(e),
    {
        match device {
            Some(d) => Ok(HidDevice::from_native(d)),
            None => Err(native_failure(self.native.error())),
        }
    }

    /// A fresh enumeration, converted into descriptors.
    pub fn get_hid_device_info_vector(&self) -> (r: HidResult<Vec<DeviceInfo>>)
        ensures
            r matches Err(e) ==> e is EnumerationError,
            r matches Ok(v) ==> exists|records: Seq<NativeDeviceInfo>| #[trigger]
                native_list_view(records) == infos_view(v@),
    {
        let records = self.native.enumerate();
        let r = device_info_vector(records.as_slice());
        proof {
            if r is Ok {
                assert(native_list_view(records@) == infos_view(r->Ok_0@));
            }
        }
        r
    }

    /// Opens the first device that the library finds with these ids; which
    /// one, among several, is not determined.
    pub fn open(&self, vid: u16, pid: u16) -> (r: HidResult<HidDevice<B::Device>>)
        ensures
            r matches Err(e) ==> is_native_error(e),
    {
        let device = self.native.open(vid, pid, None);
        self.opened(device)
    }

    /// Opens a device by vendor id, product id and serial number.
    pub fn open_serial(&self, vid: u16, pid: u16, sn: &str) -> (r: HidResult<
        HidDevice<B::Device>,
    >)
        ensures
            r matches Err(e) ==> is_native_error(e),
    {
        let chars = wide_of_str(sn);
        let device = self.native.open(vid, pid, Some(chars.as_slice()));
        self.opened(device)
    }

    /// Opens the device at a platform path, as enumeration gives it: the one
    /// reliable way to pick one among devices with equal ids.
    pub fn open_path(&self, device_path: &[u8]) -> (r: HidResult<HidDevice<B::Device>>)
        ensures
            r matches Err(e) ==> is_native_error(e),
    {
        let device = self.native.open_path(device_path);
        self.opened(device)
    }
}

/// A context over the platform library, with its own cache of descriptors.
///
/// The library is initialised once per process, in one enumeration mode; any
/// number of contexts may exist, each with its own cache, which only
/// `refresh_devices` replaces, whole.
pub struct HidApi<B> {
    device_list: Vec<DeviceInfo>,
    backend: HidApiBackend<B>,
}

impl<B: NativeHidApi> HidApi<B> {
    /// The descriptors in the cache.
    pub closed spec fn devices(&self) -> Seq<DeviceInfoView> {
        infos_view(self.device_list@)
    }

    /// A context that initialises the library in enumeration mode where
    /// `state` says it is not yet initialised, and fills its cache with one
    /// enumeration.
    pub fn new(native: B, state: &mut InitState) -> (r: HidResult<HidApi<B>>)
        requires
            init_allows(*old(state), true),
        ensures
            *final(state) == *old(state) || *final(state) == (InitState::Init { enumerate: true }),
            r is Ok ==> *final(state) == (InitState::Init { enumerate: true }),
            (*old(state)) is Init ==> *final(state) == *old(state),
            r matches Err(e) ==> (e is EnumerationError || (e is InitializationError
                && *old(state) == InitState::NotInit && *final(state) == InitState::NotInit)),
            r matches Ok(api) ==> exists|records: Seq<NativeDeviceInfo>| #[trigger]
                native_list_view(records) == api.devices(),
    {
        lazy_init(&native, state, true)?;
        let backend = HidApiBackend::new(native);
        let device_list = backend.get_hid_device_info_vector()?;
        Ok(HidApi { device_list, backend })
    }

    /// A context that initialises the library without the enumeration at
    /// start-up that some platforms restrict; its cache starts empty.
    pub fn new_without_enumerate(native: B, state: &mut InitState) -> (r: HidResult<HidApi<B>>)
        requires
            init_allows(*old(state), false),
        ensures
            *final(state) == *old(state) || *final(state) == (InitState::Init {
                enumerate: false,
            }),
            r is Ok ==> *final(state) == (InitState::Init { enumerate: false }),
            (*old(state)) is Init ==> (r is Ok && *final(state) == *old(state)),
            r matches Err(e) ==> (e is InitializationError && *old(state) == InitState::NotInit
                && *final(state) == InitState::NotInit),
            r matches Ok(api) ==> api.devices().len() == 0,
    {
        lazy_init(&native, state, false)?;
        Ok(HidApi { device_list: Vec::new(), backend: HidApiBackend::new(native) })
    }

    /// Enumerates again and replaces the cache with the result, whole; on
    /// failure the cache is left as it was.
    pub fn refresh_devices(&mut self) -> (r: HidResult<()>)
        ensures
            r is Err ==> final(self).devices() == old(self).devices(),
            r matches Err(e) ==> e is EnumerationError,
            r is Ok ==> exists|records: Seq<NativeDeviceInfo>| #[trigger] native_list_view(records)
                == final(self).devices(),
    {
        let device_list = self.backend.get_hid_device_info_vector()?;
        self.device_list = device_list;
        Ok(())
    }

    /// The cached descriptors, in enumeration order.
    pub fn device_list(&self) -> (r: &[DeviceInfo])
        ensures
            infos_view(r@) == self.devices(),
    {
        self.device_list.as_slice()
    }

    /// Opens the first device with these ids; the cache is not consulted.
    pub fn open(&self, vid: u16, pid: u16) -> (r: HidResult<HidDevice<B::Device>>)
        ensures
            r matches Err(e) ==> is_native_error(e),
    {
        self.backend.open(vid, pid)
    }

    /// Opens a device by ids and serial number.
    pub fn open_serial(&self, vid: u16, pid: u16, sn: &str) -> (r: HidResult<
        HidDevice<B::Device>,
    >)
        ensures
            r matches Err(e) ==> is_native_error(e),
    {
        self.backend.open_serial(vid, pid, sn)
    }

    /// Opens the device at a platform path.
    pub fn open_path(&self, device_path: &[u8]) -> (r: HidResult<HidDevice<B::Device>>)
        ensures
            r matches Err(e) ==> is_native_error(e),
    {
        self.backend.open_path(device_path)
    }

    /// The library's last error that concerns no single device.
    pub fn check_error(&self) -> (r: HidResult<HidError>)
        ensures
            r matches Ok(e) ==> e is HidApiError,
            r matches Err(e) ==> e is HidApiErrorEmpty,
    {
        self.backend.check_error()
    }
}

impl DeviceInfo {
    /// Opens the device this descriptor describes, the way `open_target`
    /// decides: by path, else by ids and serial number.
    pub fn open_device<B: NativeHidApi>(&self, hidapi: &HidApi<B>) -> (r: HidResult<
        HidDevice<B::Device>,
    >)
        ensures
            self@.path.len() == 0 && text_of(self@.serial_number) is None ==> (r matches Err(
                HidError::OpenHidDeviceWithDeviceInfoError { device_info },
            ) && device_info@ == self@),
            r matches Err(e) ==> (is_native_error(e) || (e is OpenHidDeviceWithDeviceInfoError
                && self@.path.len() == 0 && text_of(self@.serial_number) is None)),
    {
        match self.open_target() {
            Ok(OpenTarget::Path(path)) => hidapi.open_path(path.as_slice()),
            Ok(OpenTarget::Serial { vendor_id, product_id, serial_number }) => hidapi.open_serial(
                vendor_id,
                product_id,
                serial_number.as_str(),
            ),
            Err(e) => Err(e),
        }
    }
}

} // verus!
