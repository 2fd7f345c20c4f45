use esp32_nimble::ble_uuid::BleUuid;
use esp32_nimble::characteristic::{
    BLECharacteristic, IndicateWait, SendDecision, PROP_INDICATE, PROP_NOTIFY, PROP_READ,
    PROP_READ_ENC, PROP_WRITE, SUB_INDICATE, SUB_NOTIFY,
};
use esp32_nimble::error::{BLE_HS_EBUSY, BLE_HS_EINVAL};
use esp32_nimble::hid::BLEHIDDevice;
use esp32_nimble::server::BLEServer;

#[test]
fn subscribe_events_never_leave_empty_entries() {
    let mut c = BLECharacteristic::new(BleUuid::from_uuid16(0x2a19), PROP_READ | PROP_NOTIFY);
    assert_eq!(c.subscribe(1, true, false), SUB_NOTIFY);
    assert_eq!(c.subscribe(2, true, true), SUB_NOTIFY);
    assert_eq!(c.subscribed_list(), vec![(1, SUB_NOTIFY), (2, SUB_NOTIFY)]);
    assert_eq!(c.subscribe(1, false, false), 0);
    assert_eq!(c.subscribed_list(), vec![(2, SUB_NOTIFY)]);
    assert_eq!(c.subscribe(3, false, true), 0);
    assert_eq!(c.subscribed_count(), 1);
    assert!(c.subscribed_list().iter().all(|(_, f)| *f != 0));
}

#[test]
fn subscribe_replaces_existing_entry() {
    let mut c = BLECharacteristic::new(BleUuid::from_uuid16(0x2a37), PROP_NOTIFY | PROP_INDICATE);
    c.subscribe(7, true, false);
    c.subscribe(7, true, true);
    assert_eq!(c.subscribed_list(), vec![(7, SUB_NOTIFY | SUB_INDICATE)]);
}

#[test]
fn second_indicate_is_rejected_until_confirmed() {
    let mut c = BLECharacteristic::new(BleUuid::from_uuid16(0x2a37), PROP_INDICATE);
    c.subscribe(4, false, true);
    let mut waits = IndicateWait::new(3);
    assert_eq!(c.notify_with_decision(4, 23, &mut waits), SendDecision::Indicate);
    assert!(waits.is_waiting(4));
    assert_eq!(c.notify_with_decision(4, 23, &mut waits), SendDecision::Reject(BLE_HS_EBUSY));
    waits.clear_indicate_wait(4);
    assert_eq!(c.notify_with_decision(4, 23, &mut waits), SendDecision::Indicate);
}

#[test]
fn indicate_wait_is_per_connection() {
    let mut waits = IndicateWait::new(2);
    assert!(waits.set_indicate_wait(1));
    assert!(!waits.set_indicate_wait(1));
    assert!(waits.set_indicate_wait(2));
    assert!(waits.set_indicate_wait(3));
    assert!(waits.is_waiting(3));
    waits.clear_indicate_wait(1);
    assert!(!waits.is_waiting(1));
    assert!(waits.is_waiting(2));
    assert!(waits.set_indicate_wait(1));
}

#[test]
fn send_decisions() {
    let c = BLECharacteristic::new(BleUuid::from_uuid16(0x2a00), PROP_NOTIFY);
    let mut waits = IndicateWait::new(1);
    assert_eq!(c.send_decision(1, SUB_NOTIFY, 23, &mut waits), SendDecision::Notify);
    assert_eq!(c.send_decision(1, 0, 23, &mut waits), SendDecision::Reject(BLE_HS_EINVAL));
    assert_eq!(c.send_decision(1, SUB_NOTIFY, 3, &mut waits), SendDecision::Reject(BLE_HS_EINVAL));
    assert_eq!(c.send_decision(1, SUB_INDICATE, 23, &mut waits), SendDecision::Reject(BLE_HS_EINVAL));
    assert_eq!(c.notify_with_decision(9, 23, &mut waits), SendDecision::Reject(BLE_HS_EINVAL));
    assert_eq!(c.send_decision(0xffff, SUB_NOTIFY, 23, &mut waits), SendDecision::Reject(BLE_HS_EINVAL));
}

#[test]
fn rejected_write_keeps_value_and_returns_code() {
    let mut c = BLECharacteristic::new(BleUuid::from_uuid16(0x2a06), PROP_WRITE);
    c.set_value(&[9, 9]);
    let incoming = [1u8, 2, 3, 4, 5, 6, 7, 8, 9, 10];
    let mut args = c.write_args(&incoming);
    assert_eq!(args.current_data(), &[9, 9]);
    assert_eq!(args.recv_data(), &incoming);
    args.reject_with_error_code(0x05);
    let (status, notify) = c.finish_write(&args);
    assert_eq!(status, 0x05);
    assert!(!notify);
    assert_eq!(c.value(), &[9, 9]);
}

#[test]
fn accepted_write_stores_value() {
    let mut c = BLECharacteristic::new(BleUuid::from_uuid16(0x2a06), PROP_WRITE);
    let mut args = c.write_args(&[4, 5]);
    args.notify();
    assert_eq!(c.finish_write(&args), (0, true));
    assert_eq!(c.value(), &[4, 5]);
    let mut args = c.write_args(&[6]);
    args.reject();
    assert_eq!(c.finish_write(&args), (0xff, false));
    assert_eq!(c.value(), &[4, 5]);
}

#[test]
fn read_callback_runs_only_when_value_fits() {
    let mut c = BLECharacteristic::new(BleUuid::from_uuid16(0x2a00), PROP_READ);
    c.set_value(&[0u8; 20]);
    assert!(c.read_runs_callback(23, 0));
    assert!(!c.read_runs_callback(22, 0));
    assert!(c.read_runs_callback(22, 9));
}

#[test]
fn server_dispatches_subscribe_and_disconnect() {
    let mut server = BLEServer::new(2);
    let svc = server.create_service(BleUuid::from_uuid16(0x180f));
    assert!(server.create_characteristic(1, BleUuid::from_uuid16(0x2a19), PROP_READ).is_none());
    let idx = server
        .create_characteristic(svc, BleUuid::from_uuid16(0x2a19), PROP_READ_ENC | PROP_INDICATE)
        .unwrap();
    assert_eq!(server.create_descriptor(idx, BleUuid::from_uuid16(0x2904), 1), Some(0));
    assert_eq!(server.create_descriptor(idx + 1, BleUuid::from_uuid16(0x2904), 1), None);
    assert_eq!(server.characteristic_services(), &[svc]);
    assert_eq!(server.descriptor_owners(), &[idx]);
    assert!(server.set_characteristic_handle(idx, 42));
    assert!(!server.set_characteristic_handle(idx + 1, 43));
    assert_eq!(server.characteristics()[idx].handle(), 42);
    server.on_connect(5, 0);
    server.on_connect(6, 0);
    server.on_connect(7, 13);
    assert_eq!(server.connections(), &[5, 6]);
    assert!(server.on_subscribe(41, 5, true, true, false).is_none());
    let out = server.on_subscribe(42, 5, true, true, false).unwrap();
    assert_eq!(out.index, idx);
    assert_eq!(out.flags, SUB_INDICATE);
    assert!(out.needs_security);
    assert_eq!(server.send_to(idx, 5, 23), Some(SendDecision::Indicate));
    assert_eq!(server.send_to(idx, 5, 23), Some(SendDecision::Reject(BLE_HS_EBUSY)));
    server.on_notify_tx(5, true);
    assert_eq!(server.send_to(idx, 5, 23), Some(SendDecision::Indicate));
    assert!(server.on_disconnect(5));
    assert_eq!(server.connections(), &[6]);
    assert_eq!(server.send_to(idx, 5, 23), Some(SendDecision::Indicate));
    server.indicate_sent(5, 3);
    assert_eq!(server.send_to(9, 5, 23), None);
    assert!(server.begin_start());
    assert!(!server.begin_start());
}

#[test]
fn hid_device_layout() {
    use_hid();
}

fn use_hid() {
    let mut server = BLEServer::new(1);
    let mut hid = BLEHIDDevice::new(&mut server);
    let svcs: Vec<BleUuid> = server.services().iter().map(|s| s.uuid).collect();
    assert_eq!(svcs.len(), 3);
    assert!(svcs[0] == BleUuid::from_uuid16(0x180a));
    assert!(svcs[1] == BleUuid::from_uuid16(0x1812));
    assert!(svcs[2] == BleUuid::from_uuid16(0x180f));
    assert_eq!(server.characteristics().len(), 6);
    assert_eq!(server.descriptors()[hid.battery_level_descriptor].value(), &[4, 0, 0xad, 0x27, 1, 0, 0]);
    hid.hid_info(&mut server, 0, 1);
    assert_eq!(server.characteristics()[hid.hid_info_characteristic].value(), &[0x11, 0x01, 0, 1]);
    hid.pnp(&mut server, 2, 0x05ac, 0x820a, 0x0210);
    assert_eq!(
        server.characteristics()[hid.pnp_characteristic].value(),
        &[2, 0x05, 0xac, 0x82, 0x0a, 0x02, 0x10]
    );
    let input = hid.input_report(&mut server, 1);
    assert_eq!(server.characteristic_services()[input], hid.hid_service);
    assert_eq!(server.descriptors().last().unwrap().value(), &[1, 1]);
    let output = hid.output_report(&mut server, 1);
    assert_eq!(server.descriptors().last().unwrap().value(), &[1, 2]);
    assert!(output > input);
    hid.manufacturer(&mut server, "Espressif");
    let m = hid.manufacturer_characteristic.unwrap();
    assert_eq!(server.characteristics()[m].value(), b"Espressif");
    hid.manufacturer(&mut server, "Other");
    assert_eq!(hid.manufacturer_characteristic, Some(m));
    assert_eq!(server.characteristics()[m].value(), b"Other");
    hid.set_battery_level(&mut server, 87);
    assert_eq!(server.characteristics()[hid.battery_level_characteristic].value(), &[87]);
}
