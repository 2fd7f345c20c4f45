use vstd::prelude::*;
use vstd::string::StringSliceAdditionalSpecFns;
use crate::ble_uuid::BleUuid;
use crate::ext_advertisement::{le_bytes16, le_bytes32};

verus! {

/// Advertising flag: general discoverable mode.
pub const ADV_F_DISC_GEN: u8 = 0x02;
/// Advertising flag: BR/EDR not supported.
pub const ADV_F_BREDR_UNSUP: u8 = 0x04;
/// Length of the transmit power field.
pub const ADV_TX_PWR_LVL_LEN: usize = 1;
/// Length of the appearance field.
pub const ADV_APPEARANCE_LEN: usize = 2;

/// Length of an optional field: its two header bytes and its data, or nothing when empty.
pub open spec fn field_len(present: bool, data_len: int) -> int {
    if present {
        2 + data_len
    } else {
        0
    }
}

/// Advertising data described field by field; the stack encodes it.
#[derive(Debug)]
pub struct BLEAdvertisementData {
    flags: u8,
    service_uuids_16: Vec<u16>,
    service_uuids_32: Vec<u32>,
    service_uuids_128: Vec<[u8; 16]>,
    name: Option<Vec<u8>>,
    tx_pwr_lvl_is_present: bool,
    svc_data_uuid16: Vec<u8>,
    appearance: Option<u16>,
    svc_data_uuid32: Vec<u8>,
    svc_data_uuid128: Vec<u8>,
    mfg_data: Vec<u8>,
}

fn copy_into(dst: &mut Vec<u8>, src: &[u8])
    ensures
        final(dst)@ == old(dst)@ + src@,
{
    let mut k: usize = 0;
    while k < src.len()
        invariant
            0 <= k <= src@.len(),
            dst@ == old(dst)@ + src@.subrange(0, k as int),
        decreases src@.len() - k,
    {
        dst.push(src[k]);
        k = k + 1;
        proof {
            assert(dst@ =~= old(dst)@ + src@.subrange(0, k as int));
        }
    }
    assert(src@.subrange(0, src@.len() as int) =~= src@);
}

impl BLEAdvertisementData {
    pub closed spec fn spec_flags(&self) -> u8 {
        self.flags
    }

    pub closed spec fn spec_uuids16(&self) -> Seq<u16> {
        self.service_uuids_16@
    }

    pub closed spec fn spec_uuids32(&self) -> Seq<u32> {
        self.service_uuids_32@
    }

    pub closed spec fn spec_uuids128(&self) -> Seq<[u8; 16]> {
        self.service_uuids_128@
    }

    pub closed spec fn spec_name(&self) -> Option<Seq<u8>> {
        match &self.name {
            Some(n) => Some(n@),
            None => None,
        }
    }

    pub closed spec fn spec_tx_power(&self) -> bool {
        self.tx_pwr_lvl_is_present
    }

    pub closed spec fn spec_svc_data16(&self) -> Seq<u8> {
        self.svc_data_uuid16@
    }

    pub closed spec fn spec_svc_data32(&self) -> Seq<u8> {
        self.svc_data_uuid32@
    }

    pub closed spec fn spec_svc_data128(&self) -> Seq<u8> {
        self.svc_data_uuid128@
    }

    pub closed spec fn spec_appearance(&self) -> Option<u16> {
        self.appearance
    }

    pub closed spec fn spec_mfg_data(&self) -> Seq<u8> {
        self.mfg_data@
    }

    pub open spec fn name_len(&self) -> int {
        match self.spec_name() {
            Some(n) => n.len() as int,
            None => 0,
        }
    }

    #[verifier::opaque]
    pub open spec fn flags_field(&self) -> int {
        field_len(self.spec_flags() > 0, 1)
    }

    #[verifier::opaque]
    pub open spec fn uuids16_field(&self) -> int {
        field_len(self.spec_uuids16().len() > 0, 2 * self.spec_uuids16().len() as int)
    }

    #[verifier::opaque]
    pub open spec fn uuids32_field(&self) -> int {
        field_len(self.spec_uuids32().len() > 0, 4 * self.spec_uuids32().len() as int)
    }

    #[verifier::opaque]
    pub open spec fn uuids128_field(&self) -> int {
        field_len(self.spec_uuids128().len() > 0, 16 * self.spec_uuids128().len() as int)
    }

    #[verifier::opaque]
    pub open spec fn name_field(&self) -> int {
        field_len(self.spec_name() is Some, self.name_len())
    }

    #[verifier::opaque]
    pub open spec fn tx_power_field(&self) -> int {
        field_len(self.spec_tx_power(), ADV_TX_PWR_LVL_LEN as int)
    }

    #[verifier::opaque]
    pub open spec fn svc_data16_field(&self) -> int {
        field_len(self.spec_svc_data16().len() > 0, self.spec_svc_data16().len() as int)
    }

    #[verifier::opaque]
    pub open spec fn svc_data32_field(&self) -> int {
        field_len(self.spec_svc_data32().len() > 0, self.spec_svc_data32().len() as int)
    }

    #[verifier::opaque]
    pub open spec fn svc_data128_field(&self) -> int {
        field_len(self.spec_svc_data128().len() > 0, self.spec_svc_data128().len() as int)
    }

    #[verifier::opaque]
    pub open spec fn appearance_field(&self) -> int {
        field_len(self.spec_appearance() is Some, ADV_APPEARANCE_LEN as int)
    }

    #[verifier::opaque]
    pub open spec fn mfg_data_field(&self) -> int {
        field_len(self.spec_mfg_data().len() > 0, self.spec_mfg_data().len() as int)
    }

    /// Number of bytes the encoded advertising data takes: each present field takes its
    /// two header bytes and its data.
    pub open spec fn spec_payload_len(&self) -> int {
        self.flags_field() + self.uuids16_field() + self.uuids32_field() + self.uuids128_field() + self.name_field() + self.tx_power_field() + self.svc_data16_field() + self.svc_data32_field() + self.svc_data128_field() + self.appearance_field() + self.mfg_data_field()
    }

    proof fn lemma_fields_nonneg(&self)
        ensures
            self.flags_field() >= 0,
            self.uuids16_field() >= 0,
            self.uuids32_field() >= 0,
            self.uuids128_field() >= 0,
            self.name_field() >= 0,
            self.tx_power_field() >= 0,
            self.svc_data16_field() >= 0,
            self.svc_data32_field() >= 0,
            self.svc_data128_field() >= 0,
            self.appearance_field() >= 0,
            self.mfg_data_field() >= 0,

    {
        reveal(BLEAdvertisementData::flags_field);
        reveal(BLEAdvertisementData::uuids16_field);
        reveal(BLEAdvertisementData::uuids32_field);
        reveal(BLEAdvertisementData::uuids128_field);
        reveal(BLEAdvertisementData::name_field);
        reveal(BLEAdvertisementData::tx_power_field);
        reveal(BLEAdvertisementData::svc_data16_field);
        reveal(BLEAdvertisementData::svc_data32_field);
        reveal(BLEAdvertisementData::svc_data128_field);
        reveal(BLEAdvertisementData::appearance_field);
        reveal(BLEAdvertisementData::mfg_data_field);

    }

    /// General discoverable, BR/EDR unsupported, nothing else.
    pub fn new() -> (r: BLEAdvertisementData)
        ensures
            r.spec_flags() == ADV_F_DISC_GEN | ADV_F_BREDR_UNSUP,
            r.spec_uuids16().len() == 0 && r.spec_uuids32().len() == 0 && r.spec_uuids128().len()
                == 0,
            r.spec_name() is None,
            !r.spec_tx_power(),
            r.spec_appearance() is None,
            r.spec_svc_data16().len() == 0 && r.spec_svc_data32().len() == 0
                && r.spec_svc_data128().len() == 0,
            r.spec_mfg_data().len() == 0,
            r.spec_payload_len() == 3,
    {
        assert(ADV_F_DISC_GEN | ADV_F_BREDR_UNSUP == 6u8) by (bit_vector);
        reveal(BLEAdvertisementData::flags_field);
        reveal(BLEAdvertisementData::uuids16_field);
        reveal(BLEAdvertisementData::uuids32_field);
        reveal(BLEAdvertisementData::uuids128_field);
        reveal(BLEAdvertisementData::name_field);
        reveal(BLEAdvertisementData::tx_power_field);
        reveal(BLEAdvertisementData::svc_data16_field);
        reveal(BLEAdvertisementData::svc_data32_field);
        reveal(BLEAdvertisementData::svc_data128_field);
        reveal(BLEAdvertisementData::appearance_field);
        reveal(BLEAdvertisementData::mfg_data_field);

        BLEAdvertisementData {
            flags: ADV_F_DISC_GEN | ADV_F_BREDR_UNSUP,
            service_uuids_16: Vec::new(),
            service_uuids_32: Vec::new(),
            service_uuids_128: Vec::new(),
            name: None,
            tx_pwr_lvl_is_present: false,
            svc_data_uuid16: Vec::new(),
            appearance: None,
            svc_data_uuid32: Vec::new(),
            svc_data_uuid128: Vec::new(),
            mfg_data: Vec::new(),
        }
    }

    /// Sets the advertised name.
    pub fn name(&mut self, name: &str)
        ensures
            final(self).spec_name() == Some(name.spec_bytes()),
            final(self).spec_uuids16() == old(self).spec_uuids16(),
            final(self).spec_mfg_data() == old(self).spec_mfg_data(),
    {
        let mut n: Vec<u8> = Vec::new();
        copy_into(&mut n, name.as_bytes());
        assert(n@ =~= name.spec_bytes());
        self.name = Some(n);
    }

    /// Adds a service UUID to the list of its size.
    pub fn add_service_uuid(&mut self, uuid: BleUuid)
        ensures
            uuid matches BleUuid::Uuid16(x) ==> final(self).spec_uuids16() == old(
                self,
            ).spec_uuids16().push(x) && final(self).spec_uuids32() == old(self).spec_uuids32()
                && final(self).spec_uuids128() == old(self).spec_uuids128(),
            uuid matches BleUuid::Uuid32(x) ==> final(self).spec_uuids32() == old(
                self,
            ).spec_uuids32().push(x) && final(self).spec_uuids16() == old(self).spec_uuids16()
                && final(self).spec_uuids128() == old(self).spec_uuids128(),
            uuid matches BleUuid::Uuid128(x) ==> final(self).spec_uuids128() == old(
                self,
            ).spec_uuids128().push(x) && final(self).spec_uuids16() == old(self).spec_uuids16()
                && final(self).spec_uuids32() == old(self).spec_uuids32(),
            final(self).spec_name() == old(self).spec_name(),
            final(self).spec_mfg_data() == old(self).spec_mfg_data(),
    {
        match uuid {
            BleUuid::Uuid16(x) => self.service_uuids_16.push(x),
            BleUuid::Uuid32(x) => self.service_uuids_32.push(x),
            BleUuid::Uuid128(x) => self.service_uuids_128.push(x),
        }
    }

    /// Sets the service data for a UUID of the given size: its UUID (least significant
    /// byte first) followed by `data`.
    pub fn service_data(&mut self, uuid: BleUuid, data: &[u8])
        ensures
            uuid matches BleUuid::Uuid16(x) ==> final(self).spec_svc_data16() == le_bytes16(x)
                + data@,
            uuid matches BleUuid::Uuid32(x) ==> final(self).spec_svc_data32() == le_bytes32(x)
                + data@,
            uuid matches BleUuid::Uuid128(x) ==> final(self).spec_svc_data128() == x@ + data@,
            final(self).spec_name() == old(self).spec_name(),
            final(self).spec_mfg_data() == old(self).spec_mfg_data(),
    {
        match uuid {
            BleUuid::Uuid16(x) => {
                self.svc_data_uuid16.clear();
                self.svc_data_uuid16.push((x % 256) as u8);
                self.svc_data_uuid16.push((x / 256) as u8);
                assert(self.svc_data_uuid16@ =~= le_bytes16(x));
                copy_into(&mut self.svc_data_uuid16, data);
            },
            BleUuid::Uuid32(x) => {
                self.svc_data_uuid32.clear();
                self.svc_data_uuid32.push((x % 256) as u8);
                self.svc_data_uuid32.push(((x / 256) % 256) as u8);
                self.svc_data_uuid32.push(((x / 65536) % 256) as u8);
                self.svc_data_uuid32.push((x / 16777216) as u8);
                assert(self.svc_data_uuid32@ =~= le_bytes32(x));
                copy_into(&mut self.svc_data_uuid32, data);
            },
            BleUuid::Uuid128(x) => {
                self.svc_data_uuid128.clear();
                copy_into(&mut self.svc_data_uuid128, x.as_slice());
                copy_into(&mut self.svc_data_uuid128, data);
            },
        }
    }

    /// Sets the device appearance.
    pub fn appearance(&mut self, appearance: u16)
        ensures
            final(self).spec_appearance() == Some(appearance),
            final(self).spec_name() == old(self).spec_name(),
            final(self).spec_mfg_data() == old(self).spec_mfg_data(),
    {
        self.appearance = Some(appearance);
    }

    /// Includes the transmit power level.
    pub fn add_tx_power(&mut self)
        ensures
            final(self).spec_tx_power(),
            final(self).spec_name() == old(self).spec_name(),
            final(self).spec_mfg_data() == old(self).spec_mfg_data(),
    {
        self.tx_pwr_lvl_is_present = true;
    }

    /// Sets the manufacturer specific data.
    pub fn manufacturer_data(&mut self, data: &[u8])
        ensures
            final(self).spec_mfg_data() == data@,
            final(self).spec_name() == old(self).spec_name(),
    {
        self.mfg_data.clear();
        copy_into(&mut self.mfg_data, data);
    }

    /// Number of bytes the encoded advertising data takes.
    pub fn payload_len(&self) -> (r: usize)
        requires
            self.spec_payload_len() <= usize::MAX,
        ensures
            r == self.spec_payload_len(),
    {
        proof {
            self.lemma_fields_nonneg();
        }
        let mut n: usize = if self.flags > 0 {
            3
        } else {
            0
        };
        proof {
            reveal(BLEAdvertisementData::flags_field);
        }
        proof {
            reveal(BLEAdvertisementData::uuids16_field);
        }
        if self.service_uuids_16.len() > 0 {
            n = n + 2 + 2 * self.service_uuids_16.len();
        }
        assert(n == self.flags_field() + self.uuids16_field());
        proof {
            reveal(BLEAdvertisementData::uuids32_field);
        }
        if self.service_uuids_32.len() > 0 {
            n = n + 2 + 4 * self.service_uuids_32.len();
        }
        assert(n == self.flags_field() + self.uuids16_field() + self.uuids32_field());
        proof {
            reveal(BLEAdvertisementData::uuids128_field);
        }
        if self.service_uuids_128.len() > 0 {
            n = n + 2 + 16 * self.service_uuids_128.len();
        }
        assert(n == self.flags_field() + self.uuids16_field() + self.uuids32_field() + self.uuids128_field());
        proof {
            reveal(BLEAdvertisementData::name_field);
        }
        match &self.name {
            Some(name) => {
                n = n + 2 + name.len();
            },
            None => {},
        }
        assert(n == self.flags_field() + self.uuids16_field() + self.uuids32_field() + self.uuids128_field() + self.name_field());
        proof {
            reveal(BLEAdvertisementData::tx_power_field);
        }
        if self.tx_pwr_lvl_is_present {
            n = n + 2 + ADV_TX_PWR_LVL_LEN;
        }
        assert(n == self.flags_field() + self.uuids16_field() + self.uuids32_field() + self.uuids128_field() + self.name_field() + self.tx_power_field());
        proof {
            reveal(BLEAdvertisementData::svc_data16_field);
        }
        if self.svc_data_uuid16.len() > 0 {
            n = n + 2 + self.svc_data_uuid16.len();
        }
        assert(n == self.flags_field() + self.uuids16_field() + self.uuids32_field() + self.uuids128_field() + self.name_field() + self.tx_power_field() + self.svc_data16_field());
        proof {
            reveal(BLEAdvertisementData::svc_data32_field);
        }
        if self.svc_data_uuid32.len() > 0 {
            n = n + 2 + self.svc_data_uuid32.len();
        }
        assert(n == self.flags_field() + self.uuids16_field() + self.uuids32_field() + self.uuids128_field() + self.name_field() + self.tx_power_field() + self.svc_data16_field() + self.svc_data32_field());
        proof {
            reveal(BLEAdvertisementData::svc_data128_field);
        }
        if self.svc_data_uuid128.len() > 0 {
            n = n + 2 + self.svc_data_uuid128.len();
        }
        assert(n == self.flags_field() + self.uuids16_field() + self.uuids32_field() + self.uuids128_field() + self.name_field() + self.tx_power_field() + self.svc_data16_field() + self.svc_data32_field() + self.svc_data128_field());
        proof {
            reveal(BLEAdvertisementData::appearance_field);
        }
        if self.appearance.is_some() {
            n = n + 2 + ADV_APPEARANCE_LEN;
        }
        assert(n == self.flags_field() + self.uuids16_field() + self.uuids32_field() + self.uuids128_field() + self.name_field() + self.tx_power_field() + self.svc_data16_field() + self.svc_data32_field() + self.svc_data128_field() + self.appearance_field());
        proof {
            reveal(BLEAdvertisementData::mfg_data_field);
        }
        if self.mfg_data.len() > 0 {
            n = n + 2 + self.mfg_data.len();
        }
        assert(n == self.flags_field() + self.uuids16_field() + self.uuids32_field() + self.uuids128_field() + self.name_field() + self.tx_power_field() + self.svc_data16_field() + self.svc_data32_field() + self.svc_data128_field() + self.appearance_field() + self.mfg_data_field());
        n
    }
}

} // verus!
