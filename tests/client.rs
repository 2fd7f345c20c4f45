use esp32_nimble::ble_uuid::BleUuid;
use esp32_nimble::client::{
    wait_result, BLEClient, DiscoveryStep, Signal, CHR_PROP_NOTIFY, CHR_PROP_READ,
};
use esp32_nimble::error::{BLE_HS_EDONE, BLE_HS_ENOTCONN};
use esp32_nimble::gatt_io::{BLEReader, BLEWriter};

fn connected_client(conn: u16) -> BLEClient {
    let mut c = BLEClient::new();
    c.on_connect(conn, 0);
    c
}

#[test]
fn discovery_chain_finds_notifying_characteristic() {
    let mut client = connected_client(5);
    assert_eq!(client.begin_get_services(), DiscoveryStep::Issue(5));
    assert_eq!(client.on_service_discovered(5, 0, BleUuid::from_uuid16(0xabcd), 1, 10), 0);
    assert_eq!(client.on_service_discovered(5, BLE_HS_EDONE, BleUuid::from_uuid16(0), 0, 0), 0);
    assert_eq!(wait_result(client.take_signal().unwrap()), Ok(()));
    let svc = client.get_service(BleUuid::from_uuid16(0xabcd)).unwrap();
    assert_eq!(client.begin_get_characteristics(svc), Ok(DiscoveryStep::Issue(5)));
    let props = CHR_PROP_READ | CHR_PROP_NOTIFY;
    assert_eq!(
        client.on_characteristic_discovered(svc, 5, 0, BleUuid::from_uuid16(0x1234), 2, 3, props),
        0
    );
    client.on_characteristic_discovered(svc, 5, BLE_HS_EDONE, BleUuid::from_uuid16(0), 0, 0, 0);
    assert_eq!(wait_result(client.take_signal().unwrap()), Ok(()));
    let chr = client.get_characteristic(svc, BleUuid::from_uuid16(0x1234)).unwrap();
    let c = client.get_characteristics()[chr];
    assert!(c.can_notify());
    assert!(!c.can_write());
    assert!(c.can_read());
    assert_eq!(c.handle(), 3);
    assert_eq!(c.end_handle, 10);
}

#[test]
fn discovery_is_issued_once() {
    let mut client = connected_client(5);
    assert_eq!(client.begin_get_services(), DiscoveryStep::Issue(5));
    client.on_service_discovered(5, 0, BleUuid::from_uuid16(0x180f), 1, 4);
    client.on_service_discovered(5, BLE_HS_EDONE, BleUuid::from_uuid16(0), 0, 0);
    let first: Vec<u16> = client.get_services().iter().map(|s| s.start_handle).collect();
    assert_eq!(client.begin_get_services(), DiscoveryStep::Cached);
    let second: Vec<u16> = client.get_services().iter().map(|s| s.start_handle).collect();
    assert_eq!(first, second);
    assert_eq!(client.begin_get_characteristics(0), Ok(DiscoveryStep::Issue(5)));
    assert_eq!(client.begin_get_characteristics(0), Ok(DiscoveryStep::Cached));
    client.on_characteristic_discovered(0, 5, 0, BleUuid::from_uuid16(0x2a19), 2, 3, 0x12);
    assert_eq!(client.begin_get_descriptors(0), Ok(DiscoveryStep::Issue(5)));
    assert_eq!(client.begin_get_descriptors(0), Ok(DiscoveryStep::Cached));
    assert!(client.begin_get_characteristics(7).is_err());
}

#[test]
fn disconnect_releases_pending_discovery() {
    let mut client = connected_client(5);
    assert_eq!(client.begin_get_services(), DiscoveryStep::Issue(5));
    assert!(client.take_signal().is_none());
    assert!(!client.on_disconnect(6));
    assert!(client.take_signal().is_none());
    assert!(client.on_disconnect(5));
    let status = client.take_signal().unwrap();
    assert_eq!(status, BLE_HS_ENOTCONN);
    assert!(wait_result(status).is_err());
    assert!(!client.connected());
}

#[test]
fn failed_connect_releases_waiter() {
    let mut client = BLEClient::new();
    client.on_connect(5, 0x23e);
    assert!(!client.connected());
    assert_eq!(wait_result(client.take_signal().unwrap()).unwrap_err().code(), 0x23e);
}

#[test]
fn stale_results_are_ignored() {
    let mut client = connected_client(5);
    client.begin_get_services();
    assert_eq!(client.on_service_discovered(8, 0, BleUuid::from_uuid16(1), 1, 2), 0);
    assert_eq!(client.get_services().len(), 0);
    assert_eq!(client.on_service_discovered(5, 0x10, BleUuid::from_uuid16(1), 0, 0), 0x10);
    assert_eq!(client.take_signal(), Some(0x10));
    assert!(client.get_service(BleUuid::from_uuid16(1)).is_err());
}

#[test]
fn characteristic_ranges_end_before_the_next() {
    let mut client = connected_client(1);
    client.begin_get_services();
    client.on_service_discovered(1, 0, BleUuid::from_uuid16(0x1800), 1, 20);
    client.begin_get_characteristics(0).unwrap();
    client.on_characteristic_discovered(0, 1, 0, BleUuid::from_uuid16(0x2a00), 2, 3, 0x02);
    client.on_characteristic_discovered(0, 1, 0, BleUuid::from_uuid16(0x2a01), 6, 7, 0x02);
    let chrs = client.get_characteristics();
    assert_eq!(chrs[0].end_handle, 5);
    assert_eq!(chrs[1].end_handle, 20);
    client.begin_get_descriptors(0).unwrap();
    client.on_descriptor_discovered(0, 1, 0, BleUuid::from_uuid16(0x2902), 4);
    assert_eq!(client.get_descriptors()[0].handle(), 4);
}

#[test]
fn signal_keeps_only_the_last_value() {
    let mut s = Signal::new();
    assert!(!s.signaled());
    s.signal(1);
    s.signal(2);
    assert_eq!(s.try_take(), Some(2));
    assert_eq!(s.try_take(), None);
}

#[test]
fn disconnect_and_security_release_waiters() {
    let mut r = BLEReader::new(5, 3);
    r.on_disconnect(6);
    assert_eq!(r.take_signal(), None);
    r.on_disconnect(5);
    assert_eq!(r.take_signal(), Some(BLE_HS_ENOTCONN));
    let mut w = BLEWriter::new(5, 3);
    w.on_disconnect(5);
    assert_eq!(w.take_signal(), Some(BLE_HS_ENOTCONN));
    let mut client = connected_client(5);
    assert!(!client.on_enc_change(6, 0x206));
    assert!(client.take_signal().is_none());
    assert!(client.on_enc_change(5, 0x206));
    assert_eq!(client.take_signal(), Some(0x206));
    assert!(!client.on_enc_change(5, 0));
}
