use vstd::prelude::*;
use vstd::string::StringSliceAdditionalSpecFns;
use crate::adv_data::{
    ad_encode_one, ADV_TYPE_APPEARANCE, ADV_TYPE_COMP_NAME, ADV_TYPE_COMP_UUIDS128,
    ADV_TYPE_COMP_UUIDS16, ADV_TYPE_COMP_UUIDS32, ADV_TYPE_MFG_DATA, ADV_TYPE_SVC_DATA_UUID128,
    ADV_TYPE_SVC_DATA_UUID16, ADV_TYPE_SVC_DATA_UUID32,
};
use crate::ble_address::BLEAddress;
use crate::ble_uuid::BleUuid;
use crate::error::{BLEReturnCode, BLE_HS_EINVAL};

verus! {

/// Little-endian bytes of a 16-bit value.
pub open spec fn le_bytes16(v: u16) -> Seq<u8> {
    seq![(v % 256) as u8, (v / 256) as u8]
}

/// Little-endian bytes of a 32-bit value.
pub open spec fn le_bytes32(v: u32) -> Seq<u8> {
    seq![(v % 256) as u8, ((v / 256) % 256) as u8, ((v / 65536) % 256) as u8, (v / 16777216) as u8]
}

/// The bytes of a UUID as it is written in advertising data (least significant first).
pub open spec fn uuid_wire_bytes(u: BleUuid) -> Seq<u8> {
    match u {
        BleUuid::Uuid16(x) => le_bytes16(x),
        BleUuid::Uuid32(x) => le_bytes32(x),
        BleUuid::Uuid128(a) => a@,
    }
}

/// The AD type of a complete one-entry service list for a UUID of this form.
pub open spec fn complete_list_type(u: BleUuid) -> u8 {
    match u {
        BleUuid::Uuid16(_) => ADV_TYPE_COMP_UUIDS16,
        BleUuid::Uuid32(_) => ADV_TYPE_COMP_UUIDS32,
        BleUuid::Uuid128(_) => ADV_TYPE_COMP_UUIDS128,
    }
}

/// The AD type of service data for a UUID of this form.
pub open spec fn service_data_type(u: BleUuid) -> u8 {
    match u {
        BleUuid::Uuid16(_) => ADV_TYPE_SVC_DATA_UUID16,
        BleUuid::Uuid32(_) => ADV_TYPE_SVC_DATA_UUID32,
        BleUuid::Uuid128(_) => ADV_TYPE_SVC_DATA_UUID128,
    }
}

fn uuid_to_wire(u: &BleUuid) -> (r: Vec<u8>)
    ensures
        r@ == uuid_wire_bytes(*u),
{
    let mut r: Vec<u8> = Vec::new();
    match u {
        BleUuid::Uuid16(x) => {
            r.push((*x % 256) as u8);
            r.push((*x / 256) as u8);
        },
        BleUuid::Uuid32(x) => {
            r.push((*x % 256) as u8);
            r.push(((*x / 256) % 256) as u8);
            r.push(((*x / 65536) % 256) as u8);
            r.push((*x / 16777216) as u8);
        },
        BleUuid::Uuid128(a) => {
            let mut k: usize = 0;
            while k < 16
                invariant
                    0 <= k <= 16,
                    r@ == a@.subrange(0, k as int),
                decreases 16 - k,
            {
                r.push(a[k]);
                k = k + 1;
                proof {
                    assert(r@ =~= a@.subrange(0, k as int));
                }
            }
        },
    }
    proof {
        if let BleUuid::Uuid128(a) = u {
            assert(a@.subrange(0, 16) =~= a@);
        }
        assert(r@ =~= uuid_wire_bytes(*u));
    }
    r
}

fn append_bytes(dst: &mut Vec<u8>, src: &[u8])
    ensures
        final(dst)@ == old(dst)@ + src@,
{
    let mut k: usize = 0;
    while k < src.len()
        invariant
            0 <= k <= src@.len(),
            dst@ == old(dst)@ + src@.subrange(0, k as int),
        decreases src@.len() - k,
    {
        dst.push(src[k]);
        k = k + 1;
        proof {
            assert(dst@ =~= old(dst)@ + src@.subrange(0, k as int));
        }
    }
    assert(src@.subrange(0, src@.len() as int) =~= src@);
}

/// Advertising data under construction, with the parameters of the advertising set.
#[derive(Debug)]
pub struct BLEExtAdvertisement {
    payload: Vec<u8>,
    primary_phy: u8,
    secondary_phy: u8,
    legacy_pdu: bool,
    scannable: bool,
    connectable: bool,
    tx_power: i8,
    adv_address: Option<BLEAddress>,
    scan_req_notif: bool,
    sid: u8,
}

impl BLEExtAdvertisement {
    /// The AD-structure bytes built so far.
    pub closed spec fn spec_payload(&self) -> Seq<u8> {
        self.payload@
    }

    /// Empty advertising data on the given primary and secondary PHYs.
    pub fn new(primary_phy: u8, secondary_phy: u8) -> (r: BLEExtAdvertisement)
        ensures
            r.spec_payload() == Seq::<u8>::empty(),
    {
        BLEExtAdvertisement {
            payload: Vec::new(),
            primary_phy,
            secondary_phy,
            legacy_pdu: false,
            scannable: false,
            connectable: false,
            tx_power: 127,
            adv_address: None,
            scan_req_notif: false,
            sid: 0,
        }
    }

    /// Whether to use legacy advertising PDUs.
    pub fn legacy_advertising(&mut self, val: bool)
        ensures
            final(self).spec_payload() == old(self).spec_payload(),
    {
        self.legacy_pdu = val;
    }

    /// Whether the advertisement is scannable.
    pub fn scannable(&mut self, val: bool)
        ensures
            final(self).spec_payload() == old(self).spec_payload(),
    {
        self.scannable = val;
    }

    /// Whether the advertisement is connectable.
    pub fn connectable(&mut self, val: bool)
        ensures
            final(self).spec_payload() == old(self).spec_payload(),
    {
        self.connectable = val;
    }

    /// The transmit power, in dBm.
    pub fn tx_power(&mut self, dbm: i8)
        ensures
            final(self).spec_payload() == old(self).spec_payload(),
    {
        self.tx_power = dbm;
    }

    pub closed spec fn spec_legacy(&self) -> bool {
        self.legacy_pdu
    }

    pub closed spec fn spec_scannable(&self) -> bool {
        self.scannable
    }

    pub closed spec fn spec_connectable(&self) -> bool {
        self.connectable
    }

    pub closed spec fn spec_scan_req_notif(&self) -> bool {
        self.scan_req_notif
    }

    pub closed spec fn spec_sid(&self) -> u8 {
        self.sid
    }

    /// Whether scan requests are reported.
    pub fn enable_scan_request_callback(&mut self, val: bool)
        ensures
            final(self).spec_payload() == old(self).spec_payload(),
            final(self).spec_scan_req_notif() == val,
            final(self).spec_legacy() == old(self).spec_legacy(),
            final(self).spec_scannable() == old(self).spec_scannable(),
            final(self).spec_connectable() == old(self).spec_connectable(),
    {
        self.scan_req_notif = val;
    }

    /// Settles the parameters for advertising instance `inst_id`: legacy connectable
    /// advertising is also scannable; connectable or non-scannable advertising reports no
    /// scan requests. Returns whether the data goes out as scan-response data (scannable
    /// extended advertising) rather than advertising data.
    pub fn prepare_instance(&mut self, inst_id: u8) -> (r: bool)
        ensures
            final(self).spec_sid() == inst_id,
            final(self).spec_payload() == old(self).spec_payload(),
            final(self).spec_legacy() == old(self).spec_legacy(),
            final(self).spec_connectable() == old(self).spec_connectable(),
            final(self).spec_scannable() == (old(self).spec_scannable() || (old(self).spec_legacy()
                && old(self).spec_connectable())),
            final(self).spec_scan_req_notif() == (old(self).spec_scan_req_notif()
                && !final(self).spec_connectable() && final(self).spec_scannable()),
            r == (final(self).spec_scannable() && !final(self).spec_legacy()),
    {
        self.sid = inst_id;
        if self.legacy_pdu && self.connectable {
            self.scannable = true;
        }
        if self.connectable || !self.scannable {
            self.scan_req_notif = false;
        }
        self.scannable && !self.legacy_pdu
    }

    /// Advertise from this address.
    pub fn address(&mut self, addr: &BLEAddress)
        ensures
            final(self).spec_payload() == old(self).spec_payload(),
    {
        self.adv_address = Some(*addr);
    }

    /// Drops all data built so far.
    pub fn clear(&mut self)
        ensures
            final(self).spec_payload() == Seq::<u8>::empty(),
    {
        self.payload.clear();
    }

    /// Size in bytes of the data built so far.
    pub fn size(&self) -> (r: usize)
        ensures
            r == self.spec_payload().len(),
    {
        self.payload.len()
    }

    /// The data built so far.
    pub fn payload(&self) -> (r: &[u8])
        ensures
            r@ == self.spec_payload(),
    {
        self.payload.as_slice()
    }

    fn add_data(&mut self, data_type: u8, data: &[u8])
        requires
            data@.len() <= 254,
        ensures
            final(self).spec_payload() == old(self).spec_payload() + ad_encode_one(data_type, data@),
    {
        self.payload.push((data.len() + 1) as u8);
        self.payload.push(data_type);
        append_bytes(&mut self.payload, data);
        assert(self.payload@ =~= old(self).payload@ + ad_encode_one(data_type, data@));
    }

    /// Appends the device appearance.
    pub fn appearance(&mut self, appearance: u16)
        ensures
            final(self).spec_payload() == old(self).spec_payload() + ad_encode_one(
                ADV_TYPE_APPEARANCE,
                le_bytes16(appearance),
            ),
    {
        let mut b: Vec<u8> = Vec::new();
        b.push((appearance % 256) as u8);
        b.push((appearance / 256) as u8);
        assert(b@ =~= le_bytes16(appearance));
        self.add_data(ADV_TYPE_APPEARANCE, b.as_slice());
    }

    /// Appends manufacturer specific data.
    pub fn manufacturer_data(&mut self, data: &[u8])
        requires
            data@.len() <= 254,
        ensures
            final(self).spec_payload() == old(self).spec_payload() + ad_encode_one(
                ADV_TYPE_MFG_DATA,
                data@,
            ),
    {
        self.add_data(ADV_TYPE_MFG_DATA, data);
    }

    /// Appends the complete name of the device.
    pub fn name(&mut self, name: &str)
        requires
            name.spec_bytes().len() <= 254,
        ensures
            final(self).spec_payload() == old(self).spec_payload() + ad_encode_one(
                ADV_TYPE_COMP_NAME,
                name.spec_bytes(),
            ),
    {
        self.add_data(ADV_TYPE_COMP_NAME, name.as_bytes());
    }

    /// Appends a one-entry complete list of services.
    pub fn complete_service(&mut self, uuid: &BleUuid)
        ensures
            final(self).spec_payload() == old(self).spec_payload() + ad_encode_one(
                complete_list_type(*uuid),
                uuid_wire_bytes(*uuid),
            ),
    {
        let ty = match uuid {
            BleUuid::Uuid16(_) => ADV_TYPE_COMP_UUIDS16,
            BleUuid::Uuid32(_) => ADV_TYPE_COMP_UUIDS32,
            BleUuid::Uuid128(_) => ADV_TYPE_COMP_UUIDS128,
        };
        let b = uuid_to_wire(uuid);
        self.add_data(ty, b.as_slice());
    }

    /// Appends service data: the UUID followed by `data`.
    pub fn service_data(&mut self, uuid: BleUuid, data: &[u8])
        requires
            uuid_wire_bytes(uuid).len() + data@.len() <= 254,
        ensures
            final(self).spec_payload() == old(self).spec_payload() + ad_encode_one(
                service_data_type(uuid),
                uuid_wire_bytes(uuid) + data@,
            ),
    {
        let ty = match uuid {
            BleUuid::Uuid16(_) => ADV_TYPE_SVC_DATA_UUID16,
            BleUuid::Uuid32(_) => ADV_TYPE_SVC_DATA_UUID32,
            BleUuid::Uuid128(_) => ADV_TYPE_SVC_DATA_UUID128,
        };
        let mut b = uuid_to_wire(&uuid);
        append_bytes(&mut b, data);
        self.add_data(ty, b.as_slice());
    }
}

/// The advertising instances and which of them are advertising.
#[derive(Debug)]
pub struct BLEExtAdvertising {
    adv_status: Vec<bool>,
}

impl BLEExtAdvertising {
    pub closed spec fn spec_status(&self) -> Seq<bool> {
        self.adv_status@
    }

    /// `instances` advertising instances, none advertising.
    pub fn new(instances: usize) -> (r: BLEExtAdvertising)
        ensures
            r.spec_status().len() == instances,
            forall|i: int| 0 <= i < instances ==> !#[trigger] r.spec_status()[i],
    {
        let mut adv_status: Vec<bool> = Vec::new();
        let mut k: usize = 0;
        while k < instances
            invariant
                k <= instances,
                adv_status@.len() == k,
                forall|i: int| 0 <= i < k ==> !#[trigger] adv_status@[i],
            decreases instances - k,
        {
            adv_status.push(false);
            k = k + 1;
        }
        BLEExtAdvertising { adv_status }
    }

    /// Records that instance `inst_id` started advertising; an unknown instance fails.
    pub fn start(&mut self, inst_id: u8) -> (r: Result<(), BLEReturnCode>)
        ensures
            (inst_id as int) < old(self).spec_status().len() ==> r is Ok && final(self).spec_status()
                == old(self).spec_status().update(inst_id as int, true),
            (inst_id as int) >= old(self).spec_status().len() ==> r == Err::<(), BLEReturnCode>(
                BLEReturnCode(BLE_HS_EINVAL),
            ) && final(self).spec_status() == old(self).spec_status(),
    {
        if (inst_id as usize) < self.adv_status.len() {
            self.adv_status.set(inst_id as usize, true);
            Ok(())
        } else {
            Err(BLEReturnCode(BLE_HS_EINVAL))
        }
    }

    /// An advertising-complete event for instance `inst_id`.
    pub fn on_adv_complete(&mut self, inst_id: u8)
        ensures
            (inst_id as int) < old(self).spec_status().len() ==> final(self).spec_status() == old(self).spec_status().update(inst_id as int, false),
            (inst_id as int) >= old(self).spec_status().len() ==> final(self).spec_status() == old(self).spec_status(),
    {
        if (inst_id as usize) < self.adv_status.len() {
            self.adv_status.set(inst_id as usize, false);
        }
    }

    /// Whether instance `inst_id` is advertising.
    pub fn is_advertising(&self, inst_id: u8) -> (r: bool)
        ensures
            r == ((inst_id as int) < self.spec_status().len() && self.spec_status()[inst_id as int]),
    {
        (inst_id as usize) < self.adv_status.len() && self.adv_status[inst_id as usize]
    }
}

} // verus!
