use esp32_nimble::advertisement_data::BLEAdvertisementData;
use esp32_nimble::ble_uuid::BleUuid;
use esp32_nimble::client::BLEClient;
use esp32_nimble::descriptor::{BLEDescriptor, DSC_PROP_READ, DSC_PROP_WRITE};
use esp32_nimble::error::{return_code_to_string, BLEError, BLE_HS_EALREADY, BLE_HS_EDONE};
use esp32_nimble::gatt_io::{not_connected, write_method, BLEReader, BLEWriter, WriteMethod};
use esp32_nimble::scan::{stop_result, BLEScan, ScanAction};

#[test]
fn scan_resolves_on_first_match() {
    let mut scan = BLEScan::new();
    assert!(scan.is_passive());
    assert_eq!(scan.interval_units(), 160);
    scan.active_scan(true);
    scan.interval(97);
    scan.window(40000);
    assert!(!scan.is_passive());
    assert_eq!(scan.interval_units(), 155);
    assert_eq!(scan.window_units(), 64000);
    scan.window(60000);
    assert_eq!(scan.window_units(), 65535);
    scan.begin_session();
    assert_eq!(scan.on_result(false), ScanAction::Continue);
    assert_eq!(scan.on_result(true), ScanAction::StopWithResult);
    assert_eq!(scan.on_result(true), ScanAction::Ignore);
    assert!(!scan.on_discovery_complete());
    scan.begin_session();
    assert!(scan.on_discovery_complete());
    assert_eq!(stop_result(0), Ok(()));
    assert_eq!(stop_result(BLE_HS_EALREADY), Ok(()));
    assert_eq!(stop_result(15).unwrap_err().code(), 15);
}

#[test]
fn write_method_choice() {
    assert_eq!(write_method(0, 1, true), WriteMethod::NotConnected);
    assert_eq!(write_method(23, 20, false), WriteMethod::NoResponse);
    assert_eq!(write_method(23, 20, true), WriteMethod::Flat);
    assert_eq!(write_method(23, 21, false), WriteMethod::Long);
    assert_eq!(write_method(23, 21, true), WriteMethod::Long);
    assert_eq!(not_connected().unwrap_err().code(), 7);
}

#[test]
fn reader_collects_fragments() {
    let mut r = BLEReader::new(3, 12);
    assert_eq!(r.on_read(3, 0, &[1, 2]), 0);
    assert_eq!(r.on_read(4, 0, &[9]), 0);
    assert_eq!(r.on_read(3, 0, &[3]), 0);
    assert_eq!(r.on_read(3, BLE_HS_EDONE, &[]), BLE_HS_EDONE);
    let status = r.take_signal().unwrap();
    assert_eq!(r.read_value(status).unwrap(), vec![1, 2, 3]);
    let mut r = BLEReader::new(3, 12);
    r.on_read(3, 0x105, &[]);
    let status = r.take_signal().unwrap();
    assert_eq!(r.read_value(status).unwrap_err(), BLEError::from_non_zero(0x105));
}

#[test]
fn writer_waits_for_its_connection() {
    let mut w = BLEWriter::new(2, 8);
    w.on_write(3, 0);
    assert_eq!(w.take_signal(), None);
    w.on_write(2, 0x103);
    assert_eq!(w.take_signal(), Some(0x103));
}

#[test]
fn descriptor_write_rejection() {
    let mut d = BLEDescriptor::new(BleUuid::from_uuid16(0x2901), DSC_PROP_READ | DSC_PROP_WRITE);
    d.set_value(b"old");
    let mut args = d.write_args(b"new");
    args.reject();
    assert_eq!(d.finish_write(&args), 0xff);
    assert_eq!(d.value(), b"old");
    let args = d.write_args(b"new");
    assert_eq!(d.finish_write(&args), 0);
    assert_eq!(d.value(), b"new");
    assert!(d.read_runs_callback(23, 0));
}

#[test]
fn legacy_payload_length() {
    let mut a = BLEAdvertisementData::new();
    assert_eq!(a.payload_len(), 3);
    a.name("esp32");
    a.add_service_uuid(BleUuid::from_uuid16(0x180f));
    a.add_service_uuid(BleUuid::from_uuid16(0x180a));
    a.add_tx_power();
    a.appearance(0x03c1);
    a.manufacturer_data(&[1, 2, 3]);
    a.service_data(BleUuid::from_uuid32(0x1234_5678), &[9]);
    assert_eq!(a.payload_len(), 3 + 7 + 6 + 3 + 4 + 5 + 7);
}

#[test]
fn status_descriptions() {
    assert_eq!(return_code_to_string(7), Some("No open connection with the specified handle."));
    assert_eq!(return_code_to_string(0x103), Some("The attribute cannot be written."));
    assert_eq!(return_code_to_string(0x213), Some("Remote User Terminated Connection"));
    assert_eq!(return_code_to_string(0x302), Some("No channel with specified ID."));
    assert_eq!(return_code_to_string(0x401), Some("The user input of passkey failed, for example, the user cancelled the operation."));
    assert_eq!(return_code_to_string(0x1ff), None);
    assert_eq!(return_code_to_string(0x600), None);
    assert_eq!(BLEError::from_non_zero(13).description(), Some("Operation timed out."));
}

#[test]
fn notification_routed_by_value_handle() {
    let mut c = BLEClient::new();
    c.on_connect(1, 0);
    c.begin_get_services();
    c.on_service_discovered(1, 0, BleUuid::from_uuid16(0x180d), 1, 9);
    c.begin_get_characteristics(0).unwrap();
    c.on_characteristic_discovered(0, 1, 0, BleUuid::from_uuid16(0x2a37), 2, 3, 0x10);
    c.on_characteristic_discovered(0, 1, 0, BleUuid::from_uuid16(0x2a38), 5, 6, 0x02);
    assert_eq!(c.characteristic_for_notify(6), Some(1));
    assert_eq!(c.characteristic_for_notify(3), Some(0));
    assert_eq!(c.characteristic_for_notify(4), None);
}
