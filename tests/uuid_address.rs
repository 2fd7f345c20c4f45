use esp32_nimble::ble_address::{BLEAddress, BLEAddressType};
use esp32_nimble::ble_uuid::BleUuid;

#[test]
fn uuid16_equals_its_128_bit_expansion() {
    let short = BleUuid::from_uuid16(0x180f);
    let long = BleUuid::from_uuid128([
        0xfb, 0x34, 0x9b, 0x5f, 0x80, 0x00, 0x00, 0x80, 0x00, 0x10, 0x00, 0x00, 0x0f, 0x18, 0x00,
        0x00,
    ]);
    assert!(short == long);
    assert!(BleUuid::from_uuid16(0x180a) != long);
}

#[test]
fn uuid32_equals_its_128_bit_expansion() {
    let short = BleUuid::from_uuid32(0x1234_5678);
    let long = BleUuid::from_uuid128([
        0xfb, 0x34, 0x9b, 0x5f, 0x80, 0x00, 0x00, 0x80, 0x00, 0x10, 0x00, 0x00, 0x78, 0x56, 0x34,
        0x12,
    ]);
    assert!(short == long);
    assert!(BleUuid::from_uuid16(0x5678) != long);
    assert!(BleUuid::from_uuid16(0xabcd) == BleUuid::from_uuid32(0xabcd));
}

#[test]
fn uuid128_from_text_is_little_endian() {
    let u = BleUuid::from_uuid128_string("0000180f-0000-1000-8000-00805f9b34fb").unwrap();
    assert!(u == BleUuid::from_uuid16(0x180f));
    match u {
        BleUuid::Uuid128(b) => {
            assert_eq!(b[0], 0xfb);
            assert_eq!(b[15], 0x00);
            assert_eq!(b[12], 0x0f);
        }
        _ => panic!("expected a 128-bit UUID"),
    }
    let plain = BleUuid::from_uuid128_string("0000180f00001000800000805f9b34fb").unwrap();
    assert!(plain == u);
    assert!(BleUuid::from_uuid128_string("not-a-uuid").is_err());
}

#[test]
fn address_text_round_trip_and_byte_order() {
    let le = [0x01, 0x02, 0x03, 0x04, 0x05, 0xa6];
    let a = BLEAddress::from_le_bytes(le, BLEAddressType::Random);
    let text = a.to_text_bytes();
    assert_eq!(String::from_utf8(text.clone()).unwrap(), "A6:05:04:03:02:01");
    let s = String::from_utf8(text).unwrap();
    let b = BLEAddress::from_str(&s, BLEAddressType::Random).unwrap();
    assert!(a == b);
    assert_eq!(b.as_le_bytes(), le);
    assert_eq!(b.as_be_bytes(), [0xa6, 0x05, 0x04, 0x03, 0x02, 0x01]);
    assert_eq!(b.addr_type(), BLEAddressType::Random);
}

#[test]
fn address_from_be_bytes_reverses() {
    let a = BLEAddress::from_be_bytes([0xaa, 0xbb, 0xcc, 0xdd, 0xee, 0xff], BLEAddressType::Public);
    assert_eq!(a.as_le_bytes(), [0xff, 0xee, 0xdd, 0xcc, 0xbb, 0xaa]);
    let p = BLEAddress::from_str("aa-bb-cc-dd-ee-ff", BLEAddressType::Public).unwrap();
    assert!(p == a);
}

#[test]
fn address_type_takes_part_in_equality() {
    let bytes = [1, 2, 3, 4, 5, 6];
    let a = BLEAddress::from_le_bytes(bytes, BLEAddressType::Public);
    let b = BLEAddress::from_le_bytes(bytes, BLEAddressType::Random);
    assert!(a != b);
}

#[test]
fn address_text_rejects_malformed_input() {
    assert!(BLEAddress::from_str("aa:bb:cc:dd:ee", BLEAddressType::Public).is_none());
    assert!(BLEAddress::from_str("aa:bb:cc:dd:ee:ff:00", BLEAddressType::Public).is_none());
    assert!(BLEAddress::from_str("aa:bb:cc:dd:ee:", BLEAddressType::Public).is_none());
    assert!(BLEAddress::from_str("aa:bb:cc:dd:ee:fg", BLEAddressType::Public).is_none());
    assert!(BLEAddress::from_str("aa:bb:cc:dd:ee:100", BLEAddressType::Public).is_none());
    assert!(BLEAddress::from_str("", BLEAddressType::Public).is_none());
    let a = BLEAddress::from_str("a:b:c:d:e:0ff", BLEAddressType::Public).unwrap();
    assert_eq!(a.as_be_bytes(), [0x0a, 0x0b, 0x0c, 0x0d, 0x0e, 0xff]);
}

#[test]
fn uuid128_text_shapes() {
    let plain = BleUuid::from_uuid128_string("0000180f-0000-1000-8000-00805f9b34fb").unwrap();
    let braced = BleUuid::from_uuid128_string("{0000180F-0000-1000-8000-00805F9B34FB}").unwrap();
    let urn = BleUuid::from_uuid128_string("URN:uuid:0000180f-0000-1000-8000-00805f9b34fb").unwrap();
    assert!(plain == braced);
    assert!(plain == urn);
    assert!(BleUuid::from_uuid128_string("(0000180f-0000-1000-8000-00805f9b34fb)").is_err());
    assert!(BleUuid::from_uuid128_string("0000180f_0000-1000-8000-00805f9b34fb").is_err());
}
