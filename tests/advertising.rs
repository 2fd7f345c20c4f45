use esp32_nimble::adv_data::BLEAdvertisedData;
use esp32_nimble::ble_uuid::BleUuid;
use esp32_nimble::error::BLEReturnCode;
use esp32_nimble::ext_advertisement::{BLEExtAdvertisement, BLEExtAdvertising};

#[test]
fn ad_structures_round_trip_in_order() {
    let mut adv = BLEExtAdvertisement::new(1, 1);
    adv.name("nimble");
    adv.manufacturer_data(&[0x34, 0x12, 0xaa]);
    adv.appearance(0x03c1);
    adv.complete_service(&BleUuid::from_uuid16(0x180f));
    let data = BLEAdvertisedData::new(adv.payload().to_vec());
    let recs = data.decode();
    let pairs: Vec<(u8, Vec<u8>)> = recs.into_iter().map(|r| (r.ty, r.data)).collect();
    assert_eq!(
        pairs,
        vec![
            (0x09, b"nimble".to_vec()),
            (0xff, vec![0x34, 0x12, 0xaa]),
            (0x19, vec![0xc1, 0x03]),
            (0x03, vec![0x0f, 0x18]),
        ]
    );
    assert_eq!(data.name().unwrap(), b"nimble".to_vec());
    let m = data.manufacture_data().unwrap();
    assert_eq!(m.company_identifier, 0x1234);
    assert_eq!(m.payload, vec![0xaa]);
    assert!(data.is_advertising_service(&BleUuid::from_uuid16(0x180f)));
    assert!(!data.is_advertising_service(&BleUuid::from_uuid16(0x180a)));
    assert_eq!(adv.size(), 8 + 5 + 4 + 4);
}

#[test]
fn zero_length_record_ends_parsing() {
    let data = BLEAdvertisedData::new(vec![0x02, 0x01, 0x06, 0x00, 0x03, 0x09, b'x', b'y']);
    let recs = data.decode();
    assert_eq!(recs.len(), 1);
    assert_eq!(recs[0].ty, 0x01);
    assert_eq!(data.adv_flags(), Some(0x06));
    assert!(data.name().is_none());
}

#[test]
fn truncated_record_ends_parsing() {
    let data = BLEAdvertisedData::new(vec![0x02, 0x0a, 0xf4, 0x05, 0x09, b'a']);
    assert_eq!(data.decode().len(), 1);
    assert_eq!(data.tx_power(), Some(0xf4));
    assert!(data.name().is_none());
}

#[test]
fn mixed_service_uuid_lists() {
    let mut p = vec![0x05, 0x02, 0x0d, 0x18, 0x0f, 0x18];
    p.extend_from_slice(&[0x05, 0x05, 0x78, 0x56, 0x34, 0x12]);
    let mut u128_rec = vec![0x11, 0x07];
    u128_rec.extend_from_slice(&[0u8; 15]);
    u128_rec.push(0x99);
    p.extend_from_slice(&u128_rec);
    let data = BLEAdvertisedData::new(p);
    let uuids = data.service_uuids();
    assert_eq!(uuids.len(), 4);
    assert!(uuids[0] == BleUuid::from_uuid16(0x180d));
    assert!(uuids[1] == BleUuid::from_uuid16(0x180f));
    assert!(uuids[2] == BleUuid::from_uuid32(0x1234_5678));
    let mut last = [0u8; 16];
    last[15] = 0x99;
    assert!(uuids[3] == BleUuid::from_uuid128(last));
}

#[test]
fn service_data_skips_short_records() {
    let mut adv = BLEExtAdvertisement::new(1, 1);
    adv.service_data(BleUuid::from_uuid16(0xfeaa), &[1, 2, 3]);
    let mut p = vec![0x02, 0x16, 0x01];
    p.extend_from_slice(adv.payload());
    let data = BLEAdvertisedData::new(p);
    let sd = data.service_data().unwrap();
    assert!(sd.uuid() == BleUuid::from_uuid16(0xfeaa));
    assert_eq!(sd.data(), &[1, 2, 3]);
}

#[test]
fn flags_with_unknown_bits_are_refused() {
    let data = BLEAdvertisedData::new(vec![0x02, 0x01, 0x26]);
    assert_eq!(data.adv_flags(), None);
    let data = BLEAdvertisedData::new(vec![0x04, 0xff, 0x01]);
    assert!(data.manufacture_data().is_none());
}

#[test]
fn builder_clear_and_copy() {
    let mut adv = BLEExtAdvertisement::new(1, 1);
    adv.name("a");
    assert_eq!(adv.payload(), &[0x02, 0x09, b'a']);
    adv.clear();
    assert_eq!(adv.size(), 0);
    let data = BLEAdvertisedData::new(vec![0x02, 0x09, b'z']);
    let copy = data.clone();
    assert_eq!(copy.payload(), data.payload());
}

#[test]
fn instance_parameters_and_status() {
    let mut adv = BLEExtAdvertisement::new(1, 1);
    adv.legacy_advertising(true);
    adv.connectable(true);
    adv.enable_scan_request_callback(true);
    assert!(!adv.prepare_instance(0));
    let mut ext = BLEExtAdvertisement::new(1, 2);
    ext.scannable(true);
    ext.enable_scan_request_callback(true);
    assert!(ext.prepare_instance(1));
    let mut sets = BLEExtAdvertising::new(2);
    assert!(!sets.is_advertising(1));
    assert_eq!(sets.start(1), Ok(()));
    assert!(sets.is_advertising(1));
    sets.on_adv_complete(1);
    assert!(!sets.is_advertising(1));
    assert_eq!(sets.start(2), Err(BLEReturnCode(3)));
}

#[test]
fn two_128_bit_uuids_in_one_record() {
    let mut p = vec![0x21, 0x06];
    let mut a = [0u8; 16];
    a[0] = 1;
    let mut b = [0u8; 16];
    b[0] = 2;
    p.extend_from_slice(&a);
    p.extend_from_slice(&b);
    p.extend_from_slice(&[0x03, 0x03, 0x0f, 0x18]);
    let data = BLEAdvertisedData::new(p);
    let uuids = data.service_uuids();
    assert_eq!(uuids.len(), 3);
    assert!(uuids[0] == BleUuid::from_uuid128(a));
    assert!(uuids[1] == BleUuid::from_uuid128(b));
    assert!(uuids[2] == BleUuid::from_uuid16(0x180f));
    assert!(data.is_advertising_service(&BleUuid::from_uuid128(b)));
}
