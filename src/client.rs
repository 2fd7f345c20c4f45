use vstd::prelude::*;
use crate::ble_address::BLEAddress;
use crate::ble_uuid::BleUuid;
use crate::characteristic::CONN_HANDLE_NONE;
use crate::error::{
    BLEError, BLE_ERR_PINKEY_MISSING, BLE_HS_EDONE, BLE_HS_ENOTCONN, BLE_HS_ERR_HCI_BASE, FAIL_CODE,
    is_success_code,
};
use crate::security::enc_change_needs_bond_delete;

verus! {

/// Remote characteristic property: broadcast.
pub const CHR_PROP_BROADCAST: u8 = 0x01;
/// Remote characteristic property: read.
pub const CHR_PROP_READ: u8 = 0x02;
/// Remote characteristic property: write without response.
pub const CHR_PROP_WRITE_NO_RSP: u8 = 0x04;
/// Remote characteristic property: write.
pub const CHR_PROP_WRITE: u8 = 0x08;
/// Remote characteristic property: notify.
pub const CHR_PROP_NOTIFY: u8 = 0x10;
/// Remote characteristic property: indicate.
pub const CHR_PROP_INDICATE: u8 = 0x20;

/// A discovery request on a parent whose children were (or were not yet) asked for.
pub open spec fn discovery_step(discovered: bool, conn_handle: u16) -> DiscoveryStep {
    if discovered {
        DiscoveryStep::Cached
    } else {
        DiscoveryStep::Issue(conn_handle)
    }
}

/// A single-slot signal: a second value before the first is taken replaces it.
#[derive(Debug)]
pub struct Signal {
    slot: Option<u32>,
}

impl Signal {
    pub closed spec fn spec_slot(&self) -> Option<u32> {
        self.slot
    }

    /// An empty signal.
    pub fn new() -> (r: Signal)
        ensures
            r.spec_slot() is None,
    {
        Signal { slot: None }
    }

    /// Stores `value`, replacing any value not yet taken.
    pub fn signal(&mut self, value: u32)
        ensures
            final(self).spec_slot() == Some(value),
    {
        self.slot = Some(value);
    }

    /// Takes the stored value, if any, leaving the signal empty.
    pub fn try_take(&mut self) -> (r: Option<u32>)
        ensures
            r == old(self).spec_slot(),
            final(self).spec_slot() is None,
    {
        let r = self.slot;
        self.slot = None;
        r
    }

    /// Whether a value waits to be taken.
    pub fn signaled(&self) -> (r: bool)
        ensures
            r == self.spec_slot() is Some,
    {
        self.slot.is_some()
    }
}

/// What a discovery request comes to.
#[derive(Clone, Copy, PartialEq, Eq, Structural, Debug)]
pub enum DiscoveryStep {
    /// Issue the native discovery on this connection, then wait on the signal.
    Issue(u16),
    /// The children were discovered before: use the cached list.
    Cached,
}

/// A descriptor discovered on the peer.
#[derive(Clone, Copy, Debug)]
pub struct BLERemoteDescriptor {
    /// Index of the owning characteristic in the client's characteristic list.
    pub characteristic: usize,
    pub uuid: BleUuid,
    pub handle: u16,
}

impl BLERemoteDescriptor {
    /// The descriptor's UUID.
    pub fn uuid(&self) -> (r: BleUuid)
        ensures
            r == self.uuid,
    {
        self.uuid
    }

    /// The descriptor's attribute handle.
    pub fn handle(&self) -> (r: u16)
        ensures
            r == self.handle,
    {
        self.handle
    }
}

/// A characteristic discovered on the peer.
#[derive(Clone, Copy, Debug)]
pub struct BLERemoteCharacteristic {
    /// Index of the owning service in the client's service list.
    pub service: usize,
    pub uuid: BleUuid,
    /// Handle of the characteristic declaration.
    pub def_handle: u16,
    /// Handle of the characteristic value.
    pub handle: u16,
    /// Last handle of the characteristic's range.
    pub end_handle: u16,
    pub properties: u8,
    /// Whether its descriptors were discovered.
    pub descriptors_discovered: bool,
}

impl BLERemoteCharacteristic {
    /// The characteristic's UUID.
    pub fn uuid(&self) -> (r: BleUuid)
        ensures
            r == self.uuid,
    {
        self.uuid
    }

    /// The value handle.
    pub fn handle(&self) -> (r: u16)
        ensures
            r == self.handle,
    {
        self.handle
    }

    /// The property bits.
    pub fn properties(&self) -> (r: u8)
        ensures
            r == self.properties,
    {
        self.properties
    }

    /// Whether the peer sends notifications of it.
    pub fn can_notify(&self) -> (r: bool)
        ensures
            r == (self.properties & CHR_PROP_NOTIFY != 0),
    {
        self.properties & CHR_PROP_NOTIFY != 0
    }

    /// Whether the peer sends indications of it.
    pub fn can_indicate(&self) -> (r: bool)
        ensures
            r == (self.properties & CHR_PROP_INDICATE != 0),
    {
        self.properties & CHR_PROP_INDICATE != 0
    }

    /// Whether it can be read.
    pub fn can_read(&self) -> (r: bool)
        ensures
            r == (self.properties & CHR_PROP_READ != 0),
    {
        self.properties & CHR_PROP_READ != 0
    }

    /// Whether it can be written with a response.
    pub fn can_write(&self) -> (r: bool)
        ensures
            r == (self.properties & CHR_PROP_WRITE != 0),
    {
        self.properties & CHR_PROP_WRITE != 0
    }

    /// Whether it can be written without a response.
    pub fn can_write_no_response(&self) -> (r: bool)
        ensures
            r == (self.properties & CHR_PROP_WRITE_NO_RSP != 0),
    {
        self.properties & CHR_PROP_WRITE_NO_RSP != 0
    }

    /// Whether it may be broadcast.
    pub fn can_broadcast(&self) -> (r: bool)
        ensures
            r == (self.properties & CHR_PROP_BROADCAST != 0),
    {
        self.properties & CHR_PROP_BROADCAST != 0
    }
}

/// A primary service discovered on the peer.
#[derive(Clone, Copy, Debug)]
pub struct BLERemoteService {
    pub uuid: BleUuid,
    pub start_handle: u16,
    pub end_handle: u16,
    /// Whether its characteristics were discovered.
    pub characteristics_discovered: bool,
}

impl BLERemoteService {
    /// The service's UUID.
    pub fn uuid(&self) -> (r: BleUuid)
        ensures
            r == self.uuid,
    {
        self.uuid
    }
}

/// Connection parameters proposed when connecting (intervals in 1.25 ms units, timeouts in
/// 10 ms units, scan timing in 0.625 ms units).
#[derive(Clone, Copy, PartialEq, Eq, Structural, Debug)]
pub struct ConnParams {
    pub scan_itvl: u16,
    pub scan_window: u16,
    pub itvl_min: u16,
    pub itvl_max: u16,
    pub latency: u16,
    pub supervision_timeout: u16,
    pub min_ce_len: u16,
    pub max_ce_len: u16,
}

/// The default proposal: 30 to 50 ms intervals, no latency, 2.56 s supervision timeout.
pub open spec fn default_conn_params() -> ConnParams {
    ConnParams {
        scan_itvl: 16,
        scan_window: 16,
        itvl_min: 24,
        itvl_max: 40,
        latency: 0,
        supervision_timeout: 256,
        min_ce_len: 0,
        max_ce_len: 0,
    }
}

/// Default connect timeout, in milliseconds.
pub const DEFAULT_CONNECT_TIMEOUT_MS: u32 = 30000;

/// Index of the first entry of `s` for which `p` holds.
pub open spec fn is_first_match<T>(s: Seq<T>, i: int, p: spec_fn(T) -> bool) -> bool {
    &&& 0 <= i < s.len()
    &&& p(s[i])
    &&& forall|j: int| 0 <= j < i ==> !p(#[trigger] s[j])
}

/// A central-role connection and what was discovered on it.
#[derive(Debug)]
pub struct BLEClient {
    conn_handle: u16,
    address: Option<BLEAddress>,
    connect_timeout_ms: u32,
    conn_params: ConnParams,
    services_discovered: bool,
    services: Vec<BLERemoteService>,
    characteristics: Vec<BLERemoteCharacteristic>,
    descriptors: Vec<BLERemoteDescriptor>,
    signal: Signal,
}

impl BLEClient {
    pub closed spec fn spec_conn_handle(&self) -> u16 {
        self.conn_handle
    }

    pub closed spec fn spec_address(&self) -> Option<BLEAddress> {
        self.address
    }

    pub closed spec fn spec_conn_params(&self) -> ConnParams {
        self.conn_params
    }

    pub closed spec fn spec_connect_timeout_ms(&self) -> u32 {
        self.connect_timeout_ms
    }

    /// The peer address, connection parameters and connect timeout.
    pub open spec fn spec_settings(&self) -> (Option<BLEAddress>, ConnParams, u32) {
        (self.spec_address(), self.spec_conn_params(), self.spec_connect_timeout_ms())
    }

    pub closed spec fn spec_services_discovered(&self) -> bool {
        self.services_discovered
    }

    pub closed spec fn spec_services(&self) -> Seq<BLERemoteService> {
        self.services@
    }

    pub closed spec fn spec_characteristics(&self) -> Seq<BLERemoteCharacteristic> {
        self.characteristics@
    }

    pub closed spec fn spec_descriptors(&self) -> Seq<BLERemoteDescriptor> {
        self.descriptors@
    }

    pub closed spec fn spec_signal(&self) -> Option<u32> {
        self.signal.spec_slot()
    }

    /// A client with no connection and nothing discovered.
    pub fn new() -> (r: BLEClient)
        ensures
            r.spec_conn_handle() == CONN_HANDLE_NONE,
            !r.spec_services_discovered(),
            r.spec_services().len() == 0,
            r.spec_characteristics().len() == 0,
            r.spec_descriptors().len() == 0,
            r.spec_signal() is None,
            r.spec_address() is None,
            r.spec_conn_params() == default_conn_params(),
            r.spec_connect_timeout_ms() == DEFAULT_CONNECT_TIMEOUT_MS,
    {
        BLEClient {
            conn_handle: CONN_HANDLE_NONE,
            address: None,
            connect_timeout_ms: DEFAULT_CONNECT_TIMEOUT_MS,
            conn_params: ConnParams {
                scan_itvl: 16,
                scan_window: 16,
                itvl_min: 24,
                itvl_max: 40,
                latency: 0,
                supervision_timeout: 256,
                min_ce_len: 0,
                max_ce_len: 0,
            },
            services_discovered: false,
            services: Vec::new(),
            characteristics: Vec::new(),
            descriptors: Vec::new(),
            signal: Signal::new(),
        }
    }

    /// The connection handle (`CONN_HANDLE_NONE` when not connected).
    pub fn conn_handle(&self) -> (r: u16)
        ensures
            r == self.spec_conn_handle(),
    {
        self.conn_handle
    }

    /// The peer address of the last connect request.
    pub fn address(&self) -> (r: Option<BLEAddress>)
        ensures
            r == self.spec_address(),
    {
        self.address
    }

    /// The connection parameters proposed when connecting.
    pub fn connection_params(&self) -> (r: ConnParams)
        ensures
            r == self.spec_conn_params(),
    {
        self.conn_params
    }

    /// The connect timeout, in milliseconds.
    pub fn connect_timeout_ms(&self) -> (r: u32)
        ensures
            r == self.spec_connect_timeout_ms(),
    {
        self.connect_timeout_ms
    }

    /// Sets the connect timeout, in milliseconds.
    pub fn set_connect_timeout_ms(&mut self, ms: u32)
        ensures
            final(self).spec_connect_timeout_ms() == ms,
            final(self).spec_conn_params() == old(self).spec_conn_params(),
            final(self).spec_conn_handle() == old(self).spec_conn_handle(),
            final(self).spec_address() == old(self).spec_address(),
    {
        self.connect_timeout_ms = ms;
    }

    /// Sets the connection parameters proposed when connecting.
    pub fn set_connection_params(
        &mut self,
        min_interval: u16,
        max_interval: u16,
        latency: u16,
        timeout: u16,
        scan_interval: u16,
        scan_window: u16,
    )
        ensures
            final(self).spec_conn_params() == (ConnParams {
                scan_itvl: scan_interval,
                scan_window,
                itvl_min: min_interval,
                itvl_max: max_interval,
                latency,
                supervision_timeout: timeout,
                ..old(self).spec_conn_params()
            }),
            final(self).spec_connect_timeout_ms() == old(self).spec_connect_timeout_ms(),
            final(self).spec_conn_handle() == old(self).spec_conn_handle(),
            final(self).spec_address() == old(self).spec_address(),
    {
        self.conn_params.scan_itvl = scan_interval;
        self.conn_params.scan_window = scan_window;
        self.conn_params.itvl_min = min_interval;
        self.conn_params.itvl_max = max_interval;
        self.conn_params.latency = latency;
        self.conn_params.supervision_timeout = timeout;
    }

    /// Starts a connection to `addr`: refused when a connection to that address already
    /// exists; otherwise the address is recorded and the waiter's signal is cleared.
    pub fn begin_connect(&mut self, addr: BLEAddress, already_connected: bool) -> (r: Result<
        (),
        BLEError,
    >)
        ensures
            already_connected ==> r == Err::<(), BLEError>(BLEError::from_code_spec(FAIL_CODE))
                && final(self).spec_address() == old(self).spec_address() && final(self).spec_signal() == old(self).spec_signal(),
            !already_connected ==> r is Ok && final(self).spec_address() == Some(addr) && final(self).spec_signal() is None,
            final(self).spec_conn_handle() == old(self).spec_conn_handle(),
            final(self).spec_conn_params() == old(self).spec_conn_params(),
            final(self).spec_services_discovered() == old(self).spec_services_discovered(),
            final(self).spec_services() == old(self).spec_services(),
    {
        if already_connected {
            return Err(BLEError::from_non_zero(FAIL_CODE));
        }
        self.address = Some(addr);
        let _ = self.signal.try_take();
        Ok(())
    }

    /// Whether the client is connected.
    pub fn connected(&self) -> (r: bool)
        ensures
            r == (self.spec_conn_handle() != CONN_HANDLE_NONE),
    {
        self.conn_handle != CONN_HANDLE_NONE
    }

    /// Takes the status that the last awaited operation completed with, if it has.
    pub fn take_signal(&mut self) -> (r: Option<u32>)
        ensures
            final(self).spec_settings() == old(self).spec_settings(),
            r == old(self).spec_signal(),
            final(self).spec_signal() is None,
            final(self).spec_conn_handle() == old(self).spec_conn_handle(),
            final(self).spec_services_discovered() == old(self).spec_services_discovered(),
            final(self).spec_services() == old(self).spec_services(),
            final(self).spec_characteristics() == old(self).spec_characteristics(),
            final(self).spec_descriptors() == old(self).spec_descriptors(),
    {
        self.signal.try_take()
    }

    /// A connect event: on success the connection handle is recorded; on failure the
    /// handle is reset and the waiter is released with the status.
    pub fn on_connect(&mut self, conn_handle: u16, status: u32)
        ensures
            final(self).spec_settings() == old(self).spec_settings(),
            status == 0 ==> final(self).spec_conn_handle() == conn_handle && final(self).spec_signal() == old(self).spec_signal(),
            status != 0 ==> final(self).spec_conn_handle() == CONN_HANDLE_NONE && final(self).spec_signal() == Some(status),
            final(self).spec_services_discovered() == old(self).spec_services_discovered(),
            final(self).spec_services() == old(self).spec_services(),
            final(self).spec_characteristics() == old(self).spec_characteristics(),
            final(self).spec_descriptors() == old(self).spec_descriptors(),
    {
        if status == 0 {
            self.conn_handle = conn_handle;
        } else {
            self.conn_handle = CONN_HANDLE_NONE;
            self.signal.signal(status);
        }
    }

    /// A disconnect event. For this client's connection the handle is reset and any
    /// waiter is released with "not connected"; events of other connections are ignored.
    pub fn on_disconnect(&mut self, conn_handle: u16) -> (r: bool)
        ensures
            final(self).spec_settings() == old(self).spec_settings(),
            r == (conn_handle == old(self).spec_conn_handle() && conn_handle != CONN_HANDLE_NONE),
            r ==> final(self).spec_conn_handle() == CONN_HANDLE_NONE && final(self).spec_signal()
                == Some(BLE_HS_ENOTCONN),
            !r ==> final(self).spec_conn_handle() == old(self).spec_conn_handle() && final(self).spec_signal() == old(self).spec_signal(),
            final(self).spec_services_discovered() == old(self).spec_services_discovered(),
            final(self).spec_services() == old(self).spec_services(),
            final(self).spec_characteristics() == old(self).spec_characteristics(),
            final(self).spec_descriptors() == old(self).spec_descriptors(),
    {
        if conn_handle == CONN_HANDLE_NONE || conn_handle != self.conn_handle {
            return false;
        }
        self.conn_handle = CONN_HANDLE_NONE;
        self.signal.signal(BLE_HS_ENOTCONN);
        true
    }

    /// An encryption-change event: for this client's connection the security waiter is
    /// released with the status. Returns whether the peer's stale bond is to be deleted
    /// (the status says its key is missing); events of other connections are ignored.
    pub fn on_enc_change(&mut self, conn_handle: u16, status: u32) -> (r: bool)
        ensures
            final(self).spec_settings() == old(self).spec_settings(),
            conn_handle == old(self).spec_conn_handle() ==> final(self).spec_signal() == Some(status)
                && r == (status == BLE_HS_ERR_HCI_BASE + BLE_ERR_PINKEY_MISSING),
            conn_handle != old(self).spec_conn_handle() ==> final(self).spec_signal() == old(self).spec_signal() && !r,
            final(self).spec_conn_handle() == old(self).spec_conn_handle(),
            final(self).spec_services() == old(self).spec_services(),
            final(self).spec_characteristics() == old(self).spec_characteristics(),
            final(self).spec_descriptors() == old(self).spec_descriptors(),
    {
        if conn_handle != self.conn_handle {
            return false;
        }
        self.signal.signal(status);
        enc_change_needs_bond_delete(status)
    }

    /// Starts `get_services`: the first call asks for the native discovery, later calls
    /// use the cached list.
    pub fn begin_get_services(&mut self) -> (r: DiscoveryStep)
        ensures
            final(self).spec_settings() == old(self).spec_settings(),
            r == discovery_step(old(self).spec_services_discovered(), old(self).spec_conn_handle()),
            final(self).spec_services_discovered(),
            r == DiscoveryStep::Cached ==> final(self).spec_signal() == old(self).spec_signal(),
            r != DiscoveryStep::Cached ==> final(self).spec_signal() is None,
            final(self).spec_conn_handle() == old(self).spec_conn_handle(),
            final(self).spec_services() == old(self).spec_services(),
            final(self).spec_characteristics() == old(self).spec_characteristics(),
            final(self).spec_descriptors() == old(self).spec_descriptors(),
    {
        if self.services_discovered {
            DiscoveryStep::Cached
        } else {
            self.services_discovered = true;
            let _ = self.signal.try_take();
            DiscoveryStep::Issue(self.conn_handle)
        }
    }

    /// A service-discovery result. Status 0 adds the service; "done" ends the discovery
    /// successfully; any other status ends it with that status. Results of another
    /// connection are ignored. Returns the status handed back to the stack.
    pub fn on_service_discovered(
        &mut self,
        conn_handle: u16,
        status: u32,
        uuid: BleUuid,
        start_handle: u16,
        end_handle: u16,
    ) -> (r: u32)
        ensures
            final(self).spec_settings() == old(self).spec_settings(),
            conn_handle != old(self).spec_conn_handle() ==> r == 0 && final(self).spec_services()
                == old(self).spec_services() && final(self).spec_signal() == old(self).spec_signal(),
            conn_handle == old(self).spec_conn_handle() && status == 0 ==> r == 0 && final(self).spec_services() == old(self).spec_services().push(
                BLERemoteService {
                    uuid,
                    start_handle,
                    end_handle,
                    characteristics_discovered: false,
                },
            ) && final(self).spec_signal() == old(self).spec_signal(),
            conn_handle == old(self).spec_conn_handle() && status != 0 ==> final(self).spec_services()
                == old(self).spec_services() && r == (if status == BLE_HS_EDONE {
                0
            } else {
                status
            }) && final(self).spec_signal() == Some(r),
            final(self).spec_conn_handle() == old(self).spec_conn_handle(),
            final(self).spec_services_discovered() == old(self).spec_services_discovered(),
            final(self).spec_characteristics() == old(self).spec_characteristics(),
            final(self).spec_descriptors() == old(self).spec_descriptors(),
    {
        if conn_handle != self.conn_handle {
            return 0;
        }
        if status == 0 {
            self.services.push(
                BLERemoteService { uuid, start_handle, end_handle, characteristics_discovered: false },
            );
            return 0;
        }
        let ret = if status == BLE_HS_EDONE {
            0
        } else {
            status
        };
        self.signal.signal(ret);
        ret
    }

    /// The discovered services.
    pub fn get_services(&self) -> (r: &[BLERemoteService])
        ensures
            r@ == self.spec_services(),
    {
        self.services.as_slice()
    }

    /// The index of the first discovered service with this UUID, or a failure.
    pub fn get_service(&self, uuid: BleUuid) -> (r: Result<usize, BLEError>)
        ensures
            r is Ok ==> is_first_match(
                self.spec_services(),
                r->Ok_0 as int,
                |s: BLERemoteService| s.uuid.spec_uuid128() == uuid.spec_uuid128(),
            ),
            r is Err ==> r->Err_0 == BLEError::from_code_spec(FAIL_CODE) && forall|i: int|
                0 <= i < self.spec_services().len() ==> (#[trigger] self.spec_services()[i]).uuid.spec_uuid128()
                    != uuid.spec_uuid128(),
    {
        let mut k: usize = 0;
        while k < self.services.len()
            invariant
                k <= self.spec_services().len(),
                forall|j: int|
                    0 <= j < k ==> (#[trigger] self.spec_services()[j]).uuid.spec_uuid128()
                        != uuid.spec_uuid128(),
            decreases self.spec_services().len() - k,
        {
            if self.services[k].uuid == uuid {
                return Ok(k);
            }
            k = k + 1;
        }
        Err(BLEError::from_non_zero(FAIL_CODE))
    }

    /// Starts `get_characteristics` of service `svc`: the first call asks for the native
    /// discovery over the service's handle range, later calls use the cached list.
    pub fn begin_get_characteristics(&mut self, svc: usize) -> (r: Result<DiscoveryStep, BLEError>)
        ensures
            final(self).spec_settings() == old(self).spec_settings(),
            svc >= old(self).spec_services().len() ==> r is Err && final(self).spec_services()
                == old(self).spec_services() && final(self).spec_signal() == old(self).spec_signal(),
            svc < old(self).spec_services().len() ==> r == Ok::<DiscoveryStep, BLEError>(
                discovery_step(
                    old(self).spec_services()[svc as int].characteristics_discovered,
                    old(self).spec_conn_handle(),
                ),
            ),
            svc < old(self).spec_services().len() ==> final(self).spec_services() == old(self).spec_services().update(
                svc as int,
                BLERemoteService {
                    characteristics_discovered: true,
                    ..old(self).spec_services()[svc as int]
                },
            ),
            r == Ok::<DiscoveryStep, BLEError>(DiscoveryStep::Cached) ==> final(self).spec_services()
                == old(self).spec_services() && final(self).spec_signal() == old(self).spec_signal(),
            (r is Ok && r != Ok::<DiscoveryStep, BLEError>(DiscoveryStep::Cached)) ==> final(self).spec_signal() is None,
            final(self).spec_conn_handle() == old(self).spec_conn_handle(),
            final(self).spec_services_discovered() == old(self).spec_services_discovered(),
            final(self).spec_characteristics() == old(self).spec_characteristics(),
            final(self).spec_descriptors() == old(self).spec_descriptors(),
    {
        if svc >= self.services.len() {
            return Err(BLEError::from_non_zero(FAIL_CODE));
        }
        let mut s = self.services[svc];
        if s.characteristics_discovered {
            proof {
                assert(self.services@.update(svc as int, s) =~= self.services@);
            }
            return Ok(DiscoveryStep::Cached);
        }
        s.characteristics_discovered = true;
        self.services.set(svc, s);
        let _ = self.signal.try_take();
        Ok(DiscoveryStep::Issue(self.conn_handle))
    }

    /// A characteristic-discovery result for service `svc`. Status 0 adds the
    /// characteristic, whose range ends at the service's end, and ends the range of the
    /// service's previous characteristic just before the new declaration; any other status
    /// ends the discovery with that status ("done" counting as success). Results of another
    /// connection, or for a service that does not exist, are ignored.
    pub fn on_characteristic_discovered(
        &mut self,
        svc: usize,
        conn_handle: u16,
        status: u32,
        uuid: BleUuid,
        def_handle: u16,
        val_handle: u16,
        properties: u8,
    ) -> (r: u32)
        ensures
            final(self).spec_settings() == old(self).spec_settings(),
            (conn_handle != old(self).spec_conn_handle() || svc >= old(self).spec_services().len())
                ==> r == 0 && final(self).spec_characteristics() == old(self).spec_characteristics()
                && final(self).spec_signal() == old(self).spec_signal(),
            conn_handle == old(self).spec_conn_handle() && svc < old(self).spec_services().len()
                && status == 0 ==> r == 0 && final(self).spec_characteristics().len() == old(self).spec_characteristics().len() + 1 && final(self).spec_characteristics().last() == (
            BLERemoteCharacteristic {
                service: svc,
                uuid,
                def_handle,
                handle: val_handle,
                end_handle: old(self).spec_services()[svc as int].end_handle,
                properties,
                descriptors_discovered: false,
            }) && final(self).spec_signal() == old(self).spec_signal(),
            conn_handle == old(self).spec_conn_handle() && svc < old(self).spec_services().len()
                && status == 0 ==> forall|i: int|
                0 <= i < old(self).spec_characteristics().len() ==> #[trigger] final(self).spec_characteristics()[i] == (if i == old(self).spec_characteristics().len() - 1
                    && old(self).spec_characteristics()[i].service == svc && def_handle > 0 {
                    BLERemoteCharacteristic {
                        end_handle: (def_handle - 1) as u16,
                        ..old(self).spec_characteristics()[i]
                    }
                } else {
                    old(self).spec_characteristics()[i]
                }),
            conn_handle == old(self).spec_conn_handle() && svc < old(self).spec_services().len()
                && status != 0 ==> final(self).spec_characteristics() == old(self).spec_characteristics() && r == (if status == BLE_HS_EDONE {
                0
            } else {
                status
            }) && final(self).spec_signal() == Some(r),
            final(self).spec_conn_handle() == old(self).spec_conn_handle(),
            final(self).spec_services_discovered() == old(self).spec_services_discovered(),
            final(self).spec_services() == old(self).spec_services(),
            final(self).spec_descriptors() == old(self).spec_descriptors(),
    {
        if conn_handle != self.conn_handle || svc >= self.services.len() {
            return 0;
        }
        if status == 0 {
            let n = self.characteristics.len();
            if n > 0 {
                let mut prev = self.characteristics[n - 1];
                if prev.service == svc && def_handle > 0 {
                    prev.end_handle = def_handle - 1;
                    self.characteristics.set(n - 1, prev);
                }
            }
            self.characteristics.push(
                BLERemoteCharacteristic {
                    service: svc,
                    uuid,
                    def_handle,
                    handle: val_handle,
                    end_handle: self.services[svc].end_handle,
                    properties,
                    descriptors_discovered: false,
                },
            );
            return 0;
        }
        let ret = if status == BLE_HS_EDONE {
            0
        } else {
            status
        };
        self.signal.signal(ret);
        ret
    }

    /// The discovered characteristics of every service; each names its service's index.
    pub fn get_characteristics(&self) -> (r: &[BLERemoteCharacteristic])
        ensures
            r@ == self.spec_characteristics(),
    {
        self.characteristics.as_slice()
    }

    /// The index of the first characteristic of service `svc` with this UUID, or a failure.
    pub fn get_characteristic(&self, svc: usize, uuid: BleUuid) -> (r: Result<usize, BLEError>)
        ensures
            r is Ok ==> is_first_match(
                self.spec_characteristics(),
                r->Ok_0 as int,
                |c: BLERemoteCharacteristic|
                    c.service == svc && c.uuid.spec_uuid128() == uuid.spec_uuid128(),
            ),
            r is Err ==> r->Err_0 == BLEError::from_code_spec(FAIL_CODE) && forall|i: int|
                0 <= i < self.spec_characteristics().len() ==> !((
                #[trigger] self.spec_characteristics()[i]).service == svc
                    && self.spec_characteristics()[i].uuid.spec_uuid128() == uuid.spec_uuid128()),
    {
        let mut k: usize = 0;
        while k < self.characteristics.len()
            invariant
                k <= self.spec_characteristics().len(),
                forall|j: int|
                    0 <= j < k ==> !((#[trigger] self.spec_characteristics()[j]).service == svc
                        && self.spec_characteristics()[j].uuid.spec_uuid128()
                        == uuid.spec_uuid128()),
            decreases self.spec_characteristics().len() - k,
        {
            let c = self.characteristics[k];
            if c.service == svc && c.uuid == uuid {
                return Ok(k);
            }
            k = k + 1;
        }
        Err(BLEError::from_non_zero(FAIL_CODE))
    }

    /// Starts `get_descriptors` of characteristic `chr`: the first call asks for the native
    /// discovery over the characteristic's handle range, later calls use the cached list.
    pub fn begin_get_descriptors(&mut self, chr: usize) -> (r: Result<DiscoveryStep, BLEError>)
        ensures
            final(self).spec_settings() == old(self).spec_settings(),
            chr >= old(self).spec_characteristics().len() ==> r is Err && final(self).spec_characteristics() == old(self).spec_characteristics() && final(self).spec_signal() == old(self).spec_signal(),
            chr < old(self).spec_characteristics().len() ==> r == Ok::<DiscoveryStep, BLEError>(
                discovery_step(
                    old(self).spec_characteristics()[chr as int].descriptors_discovered,
                    old(self).spec_conn_handle(),
                ),
            ),
            chr < old(self).spec_characteristics().len() ==> final(self).spec_characteristics()
                == old(self).spec_characteristics().update(
                chr as int,
                BLERemoteCharacteristic {
                    descriptors_discovered: true,
                    ..old(self).spec_characteristics()[chr as int]
                },
            ),
            r == Ok::<DiscoveryStep, BLEError>(DiscoveryStep::Cached) ==> final(self).spec_characteristics() == old(self).spec_characteristics() && final(self).spec_signal() == old(self).spec_signal(),
            (r is Ok && r != Ok::<DiscoveryStep, BLEError>(DiscoveryStep::Cached)) ==> final(self).spec_signal() is None,
            final(self).spec_conn_handle() == old(self).spec_conn_handle(),
            final(self).spec_services_discovered() == old(self).spec_services_discovered(),
            final(self).spec_services() == old(self).spec_services(),
            final(self).spec_descriptors() == old(self).spec_descriptors(),
    {
        if chr >= self.characteristics.len() {
            return Err(BLEError::from_non_zero(FAIL_CODE));
        }
        let mut c = self.characteristics[chr];
        if c.descriptors_discovered {
            proof {
                assert(self.characteristics@.update(chr as int, c) =~= self.characteristics@);
            }
            return Ok(DiscoveryStep::Cached);
        }
        c.descriptors_discovered = true;
        self.characteristics.set(chr, c);
        let _ = self.signal.try_take();
        Ok(DiscoveryStep::Issue(self.conn_handle))
    }

    /// A descriptor-discovery result for characteristic `chr`: status 0 adds the
    /// descriptor; any other status ends the discovery ("done" counting as success).
    /// Results of another connection, or for a characteristic that does not exist, are
    /// ignored.
    pub fn on_descriptor_discovered(
        &mut self,
        chr: usize,
        conn_handle: u16,
        status: u32,
        uuid: BleUuid,
        handle: u16,
    ) -> (r: u32)
        ensures
            final(self).spec_settings() == old(self).spec_settings(),
            (conn_handle != old(self).spec_conn_handle() || chr >= old(self).spec_characteristics().len()) ==> r == 0 && final(self).spec_descriptors() == old(self).spec_descriptors() && final(self).spec_signal() == old(self).spec_signal(),
            conn_handle == old(self).spec_conn_handle() && chr < old(self).spec_characteristics().len()
                && status == 0 ==> r == 0 && final(self).spec_descriptors() == old(self).spec_descriptors().push(BLERemoteDescriptor { characteristic: chr, uuid, handle })
                && final(self).spec_signal() == old(self).spec_signal(),
            conn_handle == old(self).spec_conn_handle() && chr < old(self).spec_characteristics().len()
                && status != 0 ==> final(self).spec_descriptors() == old(self).spec_descriptors()
                && r == (if status == BLE_HS_EDONE {
                0
            } else {
                status
            }) && final(self).spec_signal() == Some(r),
            final(self).spec_conn_handle() == old(self).spec_conn_handle(),
            final(self).spec_services_discovered() == old(self).spec_services_discovered(),
            final(self).spec_services() == old(self).spec_services(),
            final(self).spec_characteristics() == old(self).spec_characteristics(),
    {
        if conn_handle != self.conn_handle || chr >= self.characteristics.len() {
            return 0;
        }
        if status == 0 {
            self.descriptors.push(BLERemoteDescriptor { characteristic: chr, uuid, handle });
            return 0;
        }
        let ret = if status == BLE_HS_EDONE {
            0
        } else {
            status
        };
        self.signal.signal(ret);
        ret
    }

    /// The characteristic that a notification for attribute `handle` belongs to: the
    /// first discovered characteristic with that value handle.
    pub fn characteristic_for_notify(&self, handle: u16) -> (r: Option<usize>)
        ensures
            r is Some ==> is_first_match(
                self.spec_characteristics(),
                r->0 as int,
                |c: BLERemoteCharacteristic| c.handle == handle,
            ),
            r is None ==> forall|i: int|
                0 <= i < self.spec_characteristics().len() ==> (#[trigger] self.spec_characteristics()[i]).handle
                    != handle,
    {
        let mut k: usize = 0;
        while k < self.characteristics.len()
            invariant
                k <= self.spec_characteristics().len(),
                forall|j: int|
                    0 <= j < k ==> (#[trigger] self.spec_characteristics()[j]).handle != handle,
            decreases self.spec_characteristics().len() - k,
        {
            if self.characteristics[k].handle == handle {
                return Some(k);
            }
            k = k + 1;
        }
        None
    }

    /// The discovered descriptors of every characteristic; each names its characteristic.
    pub fn get_descriptors(&self) -> (r: &[BLERemoteDescriptor])
        ensures
            r@ == self.spec_descriptors(),
    {
        self.descriptors.as_slice()
    }
}

/// Turns the status an awaited operation completed with into its result.
pub fn wait_result(status: u32) -> (r: Result<(), BLEError>)
    ensures
        r is Ok <==> is_success_code(status),
        r is Err ==> r->Err_0 == BLEError::from_code_spec(status),
{
    BLEError::convert(status)
}

/// Discovery happens at most once per parent: every discovery request leaves the parent
/// marked as discovered, and a request on a discovered parent uses the cache, so of two
/// requests on the same parent at most the first issues the native discovery.
pub proof fn lemma_discovery_once(discovered: bool, conn_handle: u16)
    ensures
        discovery_step(true, conn_handle) == DiscoveryStep::Cached,
        discovery_step(discovered, conn_handle) is Issue ==> !discovered,
        !(discovery_step(discovered, conn_handle) is Issue && discovery_step(
            true,
            conn_handle,
        ) is Issue),
{
}

/// A disconnect of the client's own connection always leaves a waiter a failure status.
pub proof fn lemma_disconnect_fails_waiter()
    ensures
        !is_success_code(BLE_HS_ENOTCONN),
        BLEError::convert_spec(BLE_HS_ENOTCONN) is Err,
{
}

} // verus!
