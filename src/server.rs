use vstd::prelude::*;
use crate::ble_uuid::BleUuid;
use crate::descriptor::{BLEDescriptor, OnWriteDescriptorArgs};
use crate::characteristic::{
    BLECharacteristic, IndicateWait, OnWriteArgs, SendDecision, CONN_HANDLE_NONE, PROP_READ_AUTHEN,
    PROP_READ_AUTHOR, PROP_READ_ENC, flags_of, has_entry, is_subscribed, send_decision_spec,
    sub_value,
};

verus! {

/// Whether a subscription to a characteristic with properties `props` asks for the link to
/// be secured first: it needs authenticated, authorized or encrypted reads and the link is
/// not encrypted yet.
pub open spec fn subscribe_needs_security(props: u16, encrypted: bool) -> bool {
    !encrypted && props & (PROP_READ_AUTHEN | PROP_READ_AUTHOR | PROP_READ_ENC) != 0
}

/// The result of a subscribe event that reached a characteristic.
#[derive(Clone, Copy, PartialEq, Eq, Structural, Debug)]
pub struct SubscribeOutcome {
    /// Index of the characteristic.
    pub index: usize,
    /// The connection's flags after the event.
    pub flags: u8,
    /// Whether to start securing the link.
    pub needs_security: bool,
}

/// A service of the local GATT database.
#[derive(Clone, Copy, Debug)]
pub struct BLEService {
    pub uuid: BleUuid,
    pub handle: u16,
}

/// The local GATT server: its characteristics, open connections and indication waits.
#[derive(Debug)]
pub struct BLEServer {
    started: bool,
    advertise_on_disconnect: bool,
    connections: Vec<u16>,
    indicate_wait: IndicateWait,
    services: Vec<BLEService>,
    characteristics: Vec<BLECharacteristic>,
    char_service: Vec<usize>,
    descriptors: Vec<BLEDescriptor>,
    desc_owner: Vec<usize>,
}

impl BLEServer {
    pub closed spec fn spec_started(&self) -> bool {
        self.started
    }

    pub closed spec fn spec_advertise_on_disconnect(&self) -> bool {
        self.advertise_on_disconnect
    }

    pub closed spec fn spec_connections(&self) -> Seq<u16> {
        self.connections@
    }

    pub closed spec fn spec_waits(&self) -> IndicateWait {
        self.indicate_wait
    }

    pub closed spec fn spec_characteristics(&self) -> Seq<BLECharacteristic> {
        self.characteristics@
    }

    pub closed spec fn spec_services(&self) -> Seq<BLEService> {
        self.services@
    }

    /// For each characteristic, the index of its service.
    pub closed spec fn spec_char_service(&self) -> Seq<usize> {
        self.char_service@
    }

    pub closed spec fn spec_descriptors(&self) -> Seq<BLEDescriptor> {
        self.descriptors@
    }

    /// For each descriptor, the index of its characteristic.
    pub closed spec fn spec_desc_owner(&self) -> Seq<usize> {
        self.desc_owner@
    }

    pub open spec fn wf(&self) -> bool {
        &&& forall|i: int| 0 <= i < self.spec_characteristics().len() ==> (
        #[trigger] self.spec_characteristics()[i]).wf()
        &&& self.spec_char_service().len() == self.spec_characteristics().len()
        &&& forall|i: int| 0 <= i < self.spec_char_service().len() ==> #[trigger] self.spec_char_service()[i]
            < self.spec_services().len()
        &&& self.spec_desc_owner().len() == self.spec_descriptors().len()
        &&& forall|i: int| 0 <= i < self.spec_desc_owner().len() ==> #[trigger] self.spec_desc_owner()[i]
            < self.spec_characteristics().len()
    }

    /// A server that is not started, with `max_connections` indication slots.
    pub fn new(max_connections: usize) -> (r: BLEServer)
        ensures
            r.wf(),
            !r.spec_started(),
            r.spec_advertise_on_disconnect(),
            r.spec_connections().len() == 0,
            r.spec_characteristics().len() == 0,
            r.spec_services().len() == 0,
            r.spec_descriptors().len() == 0,
            forall|h: u16| !r.spec_waits().waiting(h),
            max_connections > 0 ==> r.spec_waits().has_free_slot(),
    {
        BLEServer {
            started: false,
            advertise_on_disconnect: true,
            connections: Vec::new(),
            indicate_wait: IndicateWait::new(max_connections),
            services: Vec::new(),
            characteristics: Vec::new(),
            char_service: Vec::new(),
            descriptors: Vec::new(),
            desc_owner: Vec::new(),
        }
    }

    /// Whether to restart advertising when a peer disconnects.
    pub fn advertise_on_disconnect(&mut self, value: bool)
        ensures
            old(self).wf() ==> final(self).wf(),
            final(self).spec_services() == old(self).spec_services(),
            final(self).spec_descriptors() == old(self).spec_descriptors(),
            final(self).spec_advertise_on_disconnect() == value,
            final(self).spec_started() == old(self).spec_started(),
            final(self).spec_connections() == old(self).spec_connections(),
            final(self).spec_characteristics() == old(self).spec_characteristics(),
            final(self).spec_waits() == old(self).spec_waits(),
    {
        self.advertise_on_disconnect = value;
    }

    /// Marks the server started; true only the first time (the database is registered
    /// once, later calls do nothing).
    pub fn begin_start(&mut self) -> (r: bool)
        ensures
            old(self).wf() ==> final(self).wf(),
            final(self).spec_services() == old(self).spec_services(),
            final(self).spec_descriptors() == old(self).spec_descriptors(),
            r == !old(self).spec_started(),
            final(self).spec_started(),
            final(self).spec_connections() == old(self).spec_connections(),
            final(self).spec_characteristics() == old(self).spec_characteristics(),
            final(self).spec_waits() == old(self).spec_waits(),
            final(self).spec_advertise_on_disconnect() == old(self).spec_advertise_on_disconnect(),
    {
        if self.started {
            false
        } else {
            self.started = true;
            true
        }
    }

    /// The open connections.
    pub fn connections(&self) -> (r: &[u16])
        ensures
            r@ == self.spec_connections(),
    {
        self.connections.as_slice()
    }

    /// Number of open connections.
    pub fn connected_count(&self) -> (r: usize)
        ensures
            r == self.spec_connections().len(),
    {
        self.connections.len()
    }

    /// Adds a service to the database; returns its index.
    pub fn create_service(&mut self, uuid: BleUuid) -> (r: usize)
        requires
            old(self).wf(),
        ensures
            final(self).wf(),
            r == old(self).spec_services().len(),
            final(self).spec_services() == old(self).spec_services().push(
                BLEService { uuid, handle: 0 },
            ),
            final(self).spec_characteristics() == old(self).spec_characteristics(),
            final(self).spec_char_service() == old(self).spec_char_service(),
            final(self).spec_descriptors() == old(self).spec_descriptors(),
            final(self).spec_desc_owner() == old(self).spec_desc_owner(),
            final(self).spec_connections() == old(self).spec_connections(),
            final(self).spec_waits() == old(self).spec_waits(),
            final(self).spec_started() == old(self).spec_started(),
    {
        let r = self.services.len();
        self.services.push(BLEService { uuid, handle: 0 });
        proof {
            assert forall|i: int| 0 <= i < self.spec_char_service().len() implies #[trigger] self.spec_char_service()[i]
                < self.spec_services().len() by {
                assert(old(self).spec_char_service()[i] < old(self).spec_services().len());
            }
        }
        r
    }

    /// Adds a characteristic to service `svc`; returns its index, or `None` when there is
    /// no such service.
    pub fn create_characteristic(&mut self, svc: usize, uuid: BleUuid, properties: u16) -> (r:
        Option<usize>)
        requires
            old(self).wf(),
        ensures
            final(self).wf(),
            r is None <==> svc >= old(self).spec_services().len(),
            r is None ==> final(self).spec_characteristics() == old(self).spec_characteristics()
                && final(self).spec_char_service() == old(self).spec_char_service(),
            r is Some ==> r->0 == old(self).spec_characteristics().len()
                && final(self).spec_characteristics().len() == old(self).spec_characteristics().len() + 1
                && final(self).spec_char_service() == old(self).spec_char_service().push(svc)
                && final(self).spec_characteristics().last().spec_uuid() == uuid
                && final(self).spec_characteristics().last().spec_properties() == properties
                && final(self).spec_characteristics().last().subscribers().len() == 0
                && final(self).spec_characteristics().last().spec_value().len() == 0
                && final(self).spec_characteristics().drop_last() == old(self).spec_characteristics(),
            final(self).spec_services() == old(self).spec_services(),
            final(self).spec_descriptors() == old(self).spec_descriptors(),
            final(self).spec_desc_owner() == old(self).spec_desc_owner(),
            final(self).spec_connections() == old(self).spec_connections(),
            final(self).spec_waits() == old(self).spec_waits(),
            final(self).spec_started() == old(self).spec_started(),
    {
        if svc >= self.services.len() {
            return None;
        }
        let r = self.characteristics.len();
        let c = BLECharacteristic::new(uuid, properties);
        self.characteristics.push(c);
        self.char_service.push(svc);
        proof {
            assert(self.spec_characteristics().drop_last() =~= old(self).spec_characteristics());
            assert forall|i: int| 0 <= i < self.spec_characteristics().len() implies (
            #[trigger] self.spec_characteristics()[i]).wf() by {
                if i < r {
                    assert(self.spec_characteristics()[i] == old(self).spec_characteristics()[i]);
                }
            }
            assert forall|i: int| 0 <= i < self.spec_char_service().len() implies #[trigger] self.spec_char_service()[i]
                < self.spec_services().len() by {
                if i < r {
                    assert(self.spec_char_service()[i] == old(self).spec_char_service()[i]);
                }
            }
            assert forall|i: int| 0 <= i < self.spec_desc_owner().len() implies #[trigger] self.spec_desc_owner()[i]
                < self.spec_characteristics().len() by {
                assert(old(self).spec_desc_owner()[i] < old(self).spec_characteristics().len());
            }
        }
        Some(r)
    }

    /// Adds a descriptor to characteristic `chr`; returns its index, or `None` when there
    /// is no such characteristic.
    pub fn create_descriptor(&mut self, chr: usize, uuid: BleUuid, properties: u8) -> (r: Option<
        usize,
    >)
        requires
            old(self).wf(),
        ensures
            final(self).wf(),
            r is None <==> chr >= old(self).spec_characteristics().len(),
            r is None ==> final(self).spec_descriptors() == old(self).spec_descriptors()
                && final(self).spec_desc_owner() == old(self).spec_desc_owner(),
            r is Some ==> r->0 == old(self).spec_descriptors().len()
                && final(self).spec_desc_owner() == old(self).spec_desc_owner().push(chr)
                && final(self).spec_descriptors().len() == old(self).spec_descriptors().len() + 1
                && final(self).spec_descriptors().last().spec_uuid() == uuid
                && final(self).spec_descriptors().last().spec_properties() == properties
                && final(self).spec_descriptors().last().spec_value().len() == 0
                && final(self).spec_descriptors().drop_last() == old(self).spec_descriptors(),
            final(self).spec_services() == old(self).spec_services(),
            final(self).spec_characteristics() == old(self).spec_characteristics(),
            final(self).spec_char_service() == old(self).spec_char_service(),
            final(self).spec_connections() == old(self).spec_connections(),
            final(self).spec_waits() == old(self).spec_waits(),
            final(self).spec_started() == old(self).spec_started(),
    {
        if chr >= self.characteristics.len() {
            return None;
        }
        let r = self.descriptors.len();
        self.descriptors.push(BLEDescriptor::new(uuid, properties));
        self.desc_owner.push(chr);
        proof {
            assert(self.spec_descriptors().drop_last() =~= old(self).spec_descriptors());
            assert forall|i: int| 0 <= i < self.spec_desc_owner().len() implies #[trigger] self.spec_desc_owner()[i]
                < self.spec_characteristics().len() by {
                if i < r {
                    assert(self.spec_desc_owner()[i] == old(self).spec_desc_owner()[i]);
                }
            }
        }
        Some(r)
    }

    /// The services of the database.
    pub fn services(&self) -> (r: &[BLEService])
        ensures
            r@ == self.spec_services(),
    {
        self.services.as_slice()
    }

    /// For each characteristic, the index of its service.
    pub fn characteristic_services(&self) -> (r: &[usize])
        ensures
            r@ == self.spec_char_service(),
    {
        self.char_service.as_slice()
    }

    /// The descriptors of the database.
    pub fn descriptors(&self) -> (r: &[BLEDescriptor])
        ensures
            r@ == self.spec_descriptors(),
    {
        self.descriptors.as_slice()
    }

    /// For each descriptor, the index of its characteristic.
    pub fn descriptor_owners(&self) -> (r: &[usize])
        ensures
            r@ == self.spec_desc_owner(),
    {
        self.desc_owner.as_slice()
    }

    /// Replaces the value of characteristic `index`.
    pub fn set_characteristic_value(&mut self, index: usize, value: &[u8]) -> (r: bool)
        requires
            old(self).wf(),
        ensures
            final(self).wf(),
            r == (index < old(self).spec_characteristics().len()),
            final(self).spec_characteristics().len() == old(self).spec_characteristics().len(),
            forall|j: int|
                0 <= j < old(self).spec_characteristics().len() && j != index ==> #[trigger] final(self).spec_characteristics()[j] == old(self).spec_characteristics()[j],
            r ==> ({
                let old_c = old(self).spec_characteristics()[index as int];
                let new_c = final(self).spec_characteristics()[index as int];
                &&& new_c.spec_value() == value@
                &&& new_c.spec_handle() == old_c.spec_handle()
                &&& new_c.spec_uuid() == old_c.spec_uuid()
                &&& new_c.spec_properties() == old_c.spec_properties()
                &&& new_c.subscribers() == old_c.subscribers()
            }),
            final(self).spec_services() == old(self).spec_services(),
            final(self).spec_char_service() == old(self).spec_char_service(),
            final(self).spec_descriptors() == old(self).spec_descriptors(),
            final(self).spec_desc_owner() == old(self).spec_desc_owner(),
            final(self).spec_connections() == old(self).spec_connections(),
            final(self).spec_waits() == old(self).spec_waits(),
            final(self).spec_started() == old(self).spec_started(),
    {
        if index >= self.characteristics.len() {
            return false;
        }
        let mut c = self.characteristics.remove(index);
        let ghost mid = self.characteristics@;
        c.set_value(value);
        self.characteristics.insert(index, c);
        proof {
            let o = old(self).characteristics@;
            let s = self.characteristics@;
            assert(mid == o.remove(index as int));
            assert(s == mid.insert(index as int, c));
            assert forall|j: int| 0 <= j < o.len() && j != index implies #[trigger] s[j] == o[j] by {
                if j < index {
                    assert(s[j] == mid[j]);
                } else {
                    assert(s[j] == mid[j - 1]);
                }
            }
            assert(o[index as int].wf());
            assert forall|j: int| 0 <= j < s.len() implies (#[trigger] s[j]).wf() by {
                if j != index {
                    assert(o[j].wf());
                }
            }
        }
        true
    }

    /// Replaces the value of descriptor `index`.
    pub fn set_descriptor_value(&mut self, index: usize, value: &[u8]) -> (r: bool)
        requires
            old(self).wf(),
        ensures
            final(self).wf(),
            r == (index < old(self).spec_descriptors().len()),
            final(self).spec_descriptors().len() == old(self).spec_descriptors().len(),
            forall|j: int|
                0 <= j < old(self).spec_descriptors().len() && j != index ==> #[trigger] final(self).spec_descriptors()[j] == old(self).spec_descriptors()[j],
            r ==> ({
                let old_d = old(self).spec_descriptors()[index as int];
                let new_d = final(self).spec_descriptors()[index as int];
                &&& new_d.spec_value() == value@
                &&& new_d.spec_uuid() == old_d.spec_uuid()
                &&& new_d.spec_properties() == old_d.spec_properties()
            }),
            final(self).spec_services() == old(self).spec_services(),
            final(self).spec_characteristics() == old(self).spec_characteristics(),
            final(self).spec_char_service() == old(self).spec_char_service(),
            final(self).spec_desc_owner() == old(self).spec_desc_owner(),
            final(self).spec_connections() == old(self).spec_connections(),
            final(self).spec_waits() == old(self).spec_waits(),
            final(self).spec_started() == old(self).spec_started(),
    {
        if index >= self.descriptors.len() {
            return false;
        }
        let mut d = self.descriptors.remove(index);
        let ghost mid = self.descriptors@;
        d.set_value(value);
        self.descriptors.insert(index, d);
        proof {
            let o = old(self).descriptors@;
            let s = self.descriptors@;
            assert(mid == o.remove(index as int));
            assert(s == mid.insert(index as int, d));
            assert forall|j: int| 0 <= j < o.len() && j != index implies #[trigger] s[j] == o[j] by {
                if j < index {
                    assert(s[j] == mid[j]);
                } else {
                    assert(s[j] == mid[j - 1]);
                }
            }
        }
        true
    }

    /// Completes a write to characteristic `index` after the write callback ran: a
    /// rejected write keeps the value and yields the callback's error code; otherwise the
    /// bytes are stored and the status is 0. Returns the status and whether to notify the
    /// subscribers, or `None` for an unknown index.
    pub fn finish_characteristic_write(&mut self, index: usize, args: &OnWriteArgs) -> (r: Option<
        (u32, bool),
    >)
        requires
            old(self).wf(),
        ensures
            final(self).wf(),
            r is None <==> index >= old(self).spec_characteristics().len(),
            r is None ==> final(self).spec_characteristics() == old(self).spec_characteristics(),
            final(self).spec_characteristics().len() == old(self).spec_characteristics().len(),
            forall|j: int|
                0 <= j < old(self).spec_characteristics().len() && j != index ==> #[trigger] final(self).spec_characteristics()[j]
                    == old(self).spec_characteristics()[j],
            r is Some ==> ({
                let old_c = old(self).spec_characteristics()[index as int];
                let new_c = final(self).spec_characteristics()[index as int];
                &&& args.spec_rejected() ==> new_c.spec_value() == old_c.spec_value() && r->0
                    == (args.spec_error_code() as u32, false)
                &&& !args.spec_rejected() ==> new_c.spec_value() == args.spec_recv() && r->0 == (
                    0u32,
                    args.spec_notify(),
                )
                &&& new_c.subscribers() == old_c.subscribers()
                &&& new_c.spec_properties() == old_c.spec_properties()
                &&& new_c.spec_uuid() == old_c.spec_uuid()
            }),
            final(self).spec_services() == old(self).spec_services(),
            final(self).spec_char_service() == old(self).spec_char_service(),
            final(self).spec_descriptors() == old(self).spec_descriptors(),
            final(self).spec_desc_owner() == old(self).spec_desc_owner(),
            final(self).spec_connections() == old(self).spec_connections(),
            final(self).spec_waits() == old(self).spec_waits(),
            final(self).spec_started() == old(self).spec_started(),
    {
        if index >= self.characteristics.len() {
            return None;
        }
        let mut c = self.characteristics.remove(index);
        let ghost mid = self.characteristics@;
        let r = c.finish_write(args);
        self.characteristics.insert(index, c);
        proof {
            let o = old(self).characteristics@;
            let s = self.characteristics@;
            assert(mid == o.remove(index as int));
            assert(s == mid.insert(index as int, c));
            assert forall|j: int| 0 <= j < o.len() && j != index implies #[trigger] s[j] == o[j] by {
                if j < index {
                    assert(s[j] == mid[j]);
                } else {
                    assert(s[j] == mid[j - 1]);
                }
            }
            assert(o[index as int].wf());
            assert forall|j: int| 0 <= j < s.len() implies (#[trigger] s[j]).wf() by {
                if j != index {
                    assert(o[j].wf());
                }
            }
        }
        Some(r)
    }

    /// Completes a write to descriptor `index` after the write callback ran (see
    /// `BLEDescriptor::finish_write`), or `None` for an unknown index.
    pub fn finish_descriptor_write(&mut self, index: usize, args: &OnWriteDescriptorArgs) -> (r:
        Option<u32>)
        requires
            old(self).wf(),
        ensures
            final(self).wf(),
            r is None <==> index >= old(self).spec_descriptors().len(),
            r is None ==> final(self).spec_descriptors() == old(self).spec_descriptors(),
            final(self).spec_descriptors().len() == old(self).spec_descriptors().len(),
            forall|j: int|
                0 <= j < old(self).spec_descriptors().len() && j != index ==> #[trigger] final(self).spec_descriptors()[j]
                    == old(self).spec_descriptors()[j],
            r is Some ==> ({
                let old_d = old(self).spec_descriptors()[index as int];
                let new_d = final(self).spec_descriptors()[index as int];
                &&& args.spec_rejected() ==> new_d.spec_value() == old_d.spec_value() && r->0
                    == args.spec_error_code() as u32
                &&& !args.spec_rejected() ==> new_d.spec_value() == args.spec_recv() && r->0 == 0
                &&& new_d.spec_uuid() == old_d.spec_uuid()
                &&& new_d.spec_properties() == old_d.spec_properties()
            }),
            final(self).spec_services() == old(self).spec_services(),
            final(self).spec_characteristics() == old(self).spec_characteristics(),
            final(self).spec_char_service() == old(self).spec_char_service(),
            final(self).spec_desc_owner() == old(self).spec_desc_owner(),
            final(self).spec_connections() == old(self).spec_connections(),
            final(self).spec_waits() == old(self).spec_waits(),
            final(self).spec_started() == old(self).spec_started(),
    {
        if index >= self.descriptors.len() {
            return None;
        }
        let mut d = self.descriptors.remove(index);
        let ghost mid = self.descriptors@;
        let r = d.finish_write(args);
        self.descriptors.insert(index, d);
        proof {
            let o = old(self).descriptors@;
            let s = self.descriptors@;
            assert(mid == o.remove(index as int));
            assert(s == mid.insert(index as int, d));
            assert forall|j: int| 0 <= j < o.len() && j != index implies #[trigger] s[j] == o[j] by {
                if j < index {
                    assert(s[j] == mid[j]);
                } else {
                    assert(s[j] == mid[j - 1]);
                }
            }
        }
        Some(r)
    }

    /// Records the attribute handle the stack assigned to characteristic `index`.
    pub fn set_characteristic_handle(&mut self, index: usize, handle: u16) -> (r: bool)
        requires
            old(self).wf(),
        ensures
            final(self).wf(),
            r == (index < old(self).spec_characteristics().len()),
            final(self).spec_characteristics().len() == old(self).spec_characteristics().len(),
            forall|j: int|
                0 <= j < old(self).spec_characteristics().len() && j != index ==> #[trigger] final(self).spec_characteristics()[j] == old(self).spec_characteristics()[j],
            r ==> ({
                let old_c = old(self).spec_characteristics()[index as int];
                let new_c = final(self).spec_characteristics()[index as int];
                &&& new_c.spec_handle() == handle
                &&& new_c.spec_uuid() == old_c.spec_uuid()
                &&& new_c.spec_properties() == old_c.spec_properties()
                &&& new_c.spec_value() == old_c.spec_value()
                &&& new_c.subscribers() == old_c.subscribers()
            }),
            final(self).spec_services() == old(self).spec_services(),
            final(self).spec_char_service() == old(self).spec_char_service(),
            final(self).spec_descriptors() == old(self).spec_descriptors(),
            final(self).spec_connections() == old(self).spec_connections(),
            final(self).spec_waits() == old(self).spec_waits(),
            final(self).spec_started() == old(self).spec_started(),
    {
        if index >= self.characteristics.len() {
            return false;
        }
        let mut c = self.characteristics.remove(index);
        let ghost mid = self.characteristics@;
        c.set_handle(handle);
        self.characteristics.insert(index, c);
        proof {
            let o = old(self).characteristics@;
            let s = self.characteristics@;
            assert(mid == o.remove(index as int));
            assert(s == mid.insert(index as int, c));
            assert forall|j: int| 0 <= j < o.len() && j != index implies #[trigger] s[j] == o[j] by {
                if j < index {
                    assert(s[j] == mid[j]);
                } else {
                    assert(s[j] == mid[j - 1]);
                }
            }
            assert(o[index as int].wf());
            assert forall|j: int| 0 <= j < s.len() implies (#[trigger] s[j]).wf() by {
                if j != index {
                    assert(o[j].wf());
                }
            }
        }
        true
    }

    /// The characteristics of the database.
    pub fn characteristics(&self) -> (r: &[BLECharacteristic])
        ensures
            r@ == self.spec_characteristics(),
    {
        self.characteristics.as_slice()
    }

    /// A connect event: a successful connection joins the open connections.
    pub fn on_connect(&mut self, conn_handle: u16, status: u32)
        ensures
            old(self).wf() ==> final(self).wf(),
            final(self).spec_services() == old(self).spec_services(),
            final(self).spec_descriptors() == old(self).spec_descriptors(),
            status == 0 ==> final(self).spec_connections() == old(self).spec_connections().push(
                conn_handle,
            ),
            status != 0 ==> final(self).spec_connections() == old(self).spec_connections(),
            final(self).spec_characteristics() == old(self).spec_characteristics(),
            final(self).spec_waits() == old(self).spec_waits(),
            final(self).spec_started() == old(self).spec_started(),
            final(self).spec_advertise_on_disconnect() == old(self).spec_advertise_on_disconnect(),
    {
        if status == 0 {
            self.connections.push(conn_handle);
        }
    }

    /// A disconnect event: the connection leaves the open connections and its indication
    /// wait is cleared. Returns whether to restart advertising.
    pub fn on_disconnect(&mut self, conn_handle: u16) -> (r: bool)
        ensures
            old(self).wf() ==> final(self).wf(),
            final(self).spec_services() == old(self).spec_services(),
            final(self).spec_descriptors() == old(self).spec_descriptors(),
            r == old(self).spec_advertise_on_disconnect(),
            forall|i: int|
                0 <= i < final(self).spec_connections().len() ==> #[trigger] final(self).spec_connections()[i] != conn_handle,
            forall|h: u16|
                h != conn_handle ==> (final(self).spec_connections().contains(h) == old(self).spec_connections().contains(h)),
            !final(self).spec_waits().waiting(conn_handle),
            conn_handle != CONN_HANDLE_NONE ==> final(self).spec_waits().can_begin(conn_handle),
            forall|g: u16|
                g != conn_handle ==> (final(self).spec_waits().waiting(g) == old(self).spec_waits().waiting(g)),
            final(self).spec_characteristics() == old(self).spec_characteristics(),
            final(self).spec_started() == old(self).spec_started(),
            final(self).spec_advertise_on_disconnect() == old(self).spec_advertise_on_disconnect(),
    {
        let mut kept: Vec<u16> = Vec::new();
        let mut k: usize = 0;
        while k < self.connections.len()
            invariant
                k <= self.connections@.len(),
                self.connections@ == old(self).connections@,
                forall|i: int| 0 <= i < kept@.len() ==> #[trigger] kept@[i] != conn_handle,
                forall|h: u16|
                    h != conn_handle ==> (kept@.contains(h) == self.connections@.subrange(
                        0,
                        k as int,
                    ).contains(h)),
            decreases self.connections@.len() - k,
        {
            let h = self.connections[k];
            let ghost before = kept@;
            if h != conn_handle {
                kept.push(h);
            }
            proof {
                let pre = self.connections@.subrange(0, k as int);
                let post = self.connections@.subrange(0, k + 1);
                assert(post == pre.push(h));
                assert forall|g: u16| g != conn_handle implies (kept@.contains(g) == post.contains(
                    g,
                )) by {
                    if kept@.contains(g) {
                        let j = choose|j: int| 0 <= j < kept@.len() && kept@[j] == g;
                        if j < before.len() {
                            assert(before[j] == g);
                            assert(before.contains(g));
                            assert(pre.contains(g));
                            let m = choose|m: int| 0 <= m < pre.len() && pre[m] == g;
                            assert(post[m] == g);
                        } else {
                            assert(post[k as int] == g);
                        }
                    }
                    if post.contains(g) {
                        let m = choose|m: int| 0 <= m < post.len() && post[m] == g;
                        if m < k {
                            assert(pre[m] == g);
                            assert(before.contains(g));
                            let j = choose|j: int| 0 <= j < before.len() && before[j] == g;
                            assert(kept@[j] == g);
                        } else {
                            assert(kept@[before.len() as int] == g);
                        }
                    }
                }
            }
            k = k + 1;
        }
        proof {
            assert(self.connections@.subrange(0, self.connections@.len() as int) =~= self.connections@);
        }
        self.connections = kept;
        self.indicate_wait.clear_indicate_wait(conn_handle);
        self.advertise_on_disconnect
    }

    /// Index of the first characteristic with attribute handle `attr_handle`.
    fn find_by_handle(&self, attr_handle: u16) -> (r: Option<usize>)
        ensures
            r is Some ==> r->0 < self.spec_characteristics().len()
                && self.spec_characteristics()[r->0 as int].spec_handle() == attr_handle,
            r is None ==> forall|i: int|
                0 <= i < self.spec_characteristics().len() ==> (#[trigger] self.spec_characteristics()[i]).spec_handle()
                    != attr_handle,
    {
        let mut k: usize = 0;
        while k < self.characteristics.len()
            invariant
                k <= self.spec_characteristics().len(),
                forall|i: int|
                    0 <= i < k ==> (#[trigger] self.spec_characteristics()[i]).spec_handle()
                        != attr_handle,
            decreases self.spec_characteristics().len() - k,
        {
            if self.characteristics[k].handle() == attr_handle {
                return Some(k);
            }
            k = k + 1;
        }
        None
    }

    /// A subscribe event for the characteristic with attribute handle `attr_handle`:
    /// updates that characteristic's subscriber entry for the connection. Returns `None`
    /// when no characteristic has that handle.
    pub fn on_subscribe(
        &mut self,
        attr_handle: u16,
        conn_handle: u16,
        cur_notify: bool,
        cur_indicate: bool,
        encrypted: bool,
    ) -> (r: Option<SubscribeOutcome>)
        requires
            old(self).wf(),
        ensures
            final(self).wf(),
            final(self).spec_characteristics().len() == old(self).spec_characteristics().len(),
            r is None ==> final(self).spec_characteristics() == old(self).spec_characteristics()
                && forall|i: int|
                0 <= i < old(self).spec_characteristics().len() ==> (#[trigger] old(self).spec_characteristics()[i]).spec_handle() != attr_handle,
            r is Some ==> ({
                let i = r->0.index as int;
                let old_c = old(self).spec_characteristics()[i];
                let new_c = final(self).spec_characteristics()[i];
                &&& 0 <= i < old(self).spec_characteristics().len()
                &&& old_c.spec_handle() == attr_handle
                &&& new_c.spec_handle() == attr_handle
                &&& r->0.flags == sub_value(old_c.spec_properties(), cur_notify, cur_indicate)
                &&& r->0.needs_security == subscribe_needs_security(old_c.spec_properties(), encrypted)
                &&& r->0.flags != 0 ==> has_entry(new_c.subscribers(), conn_handle, r->0.flags)
                &&& r->0.flags == 0 ==> !is_subscribed(new_c.subscribers(), conn_handle)
                &&& forall|h: u16, f: u8|
                    h != conn_handle ==> (has_entry(new_c.subscribers(), h, f) == has_entry(
                        old_c.subscribers(),
                        h,
                        f,
                    ))
                &&& new_c.spec_value() == old_c.spec_value()
                &&& new_c.spec_properties() == old_c.spec_properties()
                &&& forall|j: int|
                    0 <= j < old(self).spec_characteristics().len() && j != i
                        ==> #[trigger] final(self).spec_characteristics()[j] == old(self).spec_characteristics()[j]
            }),
            final(self).spec_connections() == old(self).spec_connections(),
            final(self).spec_waits() == old(self).spec_waits(),
            final(self).spec_started() == old(self).spec_started(),
    {
        match self.find_by_handle(attr_handle) {
            None => None,
            Some(i) => {
                let mut c = self.characteristics.remove(i);
                let ghost mid = self.characteristics@;
                assert(c.wf());
                let props = c.properties();
                let flags = c.subscribe(conn_handle, cur_notify, cur_indicate);
                self.characteristics.insert(i, c);
                proof {
                    let o = old(self).characteristics@;
                    let s = self.characteristics@;
                    assert(mid == o.remove(i as int));
                    assert(s == mid.insert(i as int, c));
                    assert forall|j: int| 0 <= j < o.len() && j != i implies #[trigger] s[j]
                        == o[j] by {
                        if j < i {
                            assert(s[j] == mid[j]);
                            assert(mid[j] == o[j]);
                        } else {
                            assert(s[j] == mid[j - 1]);
                            assert(mid[j - 1] == o[j]);
                        }
                    }
                    assert forall|j: int| 0 <= j < s.len() implies (#[trigger] s[j]).wf() by {
                        if j != i {
                            assert(o[j].wf());
                        }
                    }
                }
                let needs_security = !encrypted && props & (PROP_READ_AUTHEN | PROP_READ_AUTHOR
                    | PROP_READ_ENC) != 0;
                Some(SubscribeOutcome { index: i, flags, needs_security })
            },
        }
    }

    /// Decides a send of characteristic `index`'s value to connection `conn_handle`; an
    /// indication marks the connection as waiting for its confirmation.
    pub fn send_to(&mut self, index: usize, conn_handle: u16, mtu: u16) -> (r: Option<
        SendDecision,
    >)
        requires
            old(self).wf(),
        ensures
            final(self).wf(),
            r is None <==> index >= old(self).spec_characteristics().len(),
            r is None ==> final(self).spec_waits() == old(self).spec_waits(),
            index < old(self).spec_characteristics().len() ==> r == Some(
                send_decision_spec(
                    conn_handle,
                    flags_of(old(self).spec_characteristics()[index as int].subscribers(), conn_handle),
                    old(self).spec_characteristics()[index as int].spec_properties(),
                    mtu,
                    old(self).spec_waits().waiting(conn_handle),
                ),
            ),
            r == Some(SendDecision::Indicate) ==> final(self).spec_waits().waiting(conn_handle),
            r != Some(SendDecision::Indicate) ==> final(self).spec_waits().spec_slots() == old(self).spec_waits().spec_slots(),
            forall|g: u16|
                g != conn_handle ==> (final(self).spec_waits().waiting(g) == old(self).spec_waits().waiting(g)),
            final(self).spec_characteristics() == old(self).spec_characteristics(),
            final(self).spec_services() == old(self).spec_services(),
            final(self).spec_descriptors() == old(self).spec_descriptors(),
            final(self).spec_connections() == old(self).spec_connections(),
            final(self).spec_started() == old(self).spec_started(),
    {
        if index >= self.characteristics.len() {
            return None;
        }
        assert(self.spec_characteristics()[index as int].wf());
        let d = self.characteristics[index].notify_with_decision(
            conn_handle,
            mtu,
            &mut self.indicate_wait,
        );
        Some(d)
    }

    /// The status of a native indication call: a failed call clears the wait again.
    pub fn indicate_sent(&mut self, conn_handle: u16, rc: u32)
        ensures
            old(self).wf() ==> final(self).wf(),
            final(self).spec_services() == old(self).spec_services(),
            final(self).spec_descriptors() == old(self).spec_descriptors(),
            rc != 0 ==> !final(self).spec_waits().waiting(conn_handle),
            rc != 0 && conn_handle != CONN_HANDLE_NONE ==> final(self).spec_waits().can_begin(
                conn_handle,
            ),
            rc == 0 ==> final(self).spec_waits() == old(self).spec_waits(),
            forall|g: u16|
                g != conn_handle ==> (final(self).spec_waits().waiting(g) == old(self).spec_waits().waiting(g)),
            final(self).spec_characteristics() == old(self).spec_characteristics(),
            final(self).spec_connections() == old(self).spec_connections(),
            final(self).spec_started() == old(self).spec_started(),
    {
        if rc != 0 {
            self.indicate_wait.clear_indicate_wait(conn_handle);
        }
    }

    /// A notify-transmit event: once an indication is done (confirmed or failed) the
    /// connection's wait is cleared.
    pub fn on_notify_tx(&mut self, conn_handle: u16, indication_done: bool)
        ensures
            old(self).wf() ==> final(self).wf(),
            final(self).spec_services() == old(self).spec_services(),
            final(self).spec_descriptors() == old(self).spec_descriptors(),
            indication_done ==> !final(self).spec_waits().waiting(conn_handle),
            indication_done && conn_handle != CONN_HANDLE_NONE ==> final(self).spec_waits().can_begin(conn_handle),
            !indication_done ==> final(self).spec_waits() == old(self).spec_waits(),
            forall|g: u16|
                g != conn_handle ==> (final(self).spec_waits().waiting(g) == old(self).spec_waits().waiting(g)),
            final(self).spec_characteristics() == old(self).spec_characteristics(),
            final(self).spec_connections() == old(self).spec_connections(),
            final(self).spec_started() == old(self).spec_started(),
    {
        if indication_done {
            self.indicate_wait.clear_indicate_wait(conn_handle);
        }
    }
}

} // verus!
