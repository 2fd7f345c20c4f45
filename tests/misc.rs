use esp32_nimble::ble_address::{BLEAddress, BLEAddressType};
use esp32_nimble::client::{BLEClient, DEFAULT_CONNECT_TIMEOUT_MS};
use esp32_nimble::notify_tx::{NotifyTx, NotifyTxStatus};
use esp32_nimble::presentation::{BLE2904Format, BLE2904};
use esp32_nimble::security::{BLESecurity, SecurityIOCap, PAIR_KEY_DIST_ENC, PAIR_KEY_DIST_ID};
use esp32_nimble::att_value::AttValue;

#[test]
fn notify_tx_outcomes() {
    let mut tx = NotifyTx { conn_handle: 1, attr_handle: 3, status: 14, indication: true };
    assert_eq!(tx.status(), NotifyTxStatus::SuccessIndicate);
    assert!(tx.ends_indication());
    tx.status = 13;
    assert_eq!(tx.status(), NotifyTxStatus::ErrorIndicateTimeout);
    tx.status = 0;
    assert_eq!(tx.status(), NotifyTxStatus::ErrorIndicateFailure);
    assert!(!tx.ends_indication());
    tx.indication = false;
    assert_eq!(tx.status(), NotifyTxStatus::SuccessNotify);
    tx.status = 6;
    assert_eq!(tx.status(), NotifyTxStatus::ErrorGatt);
}

#[test]
fn presentation_format_bytes() {
    let mut p = BLE2904::new();
    assert_eq!(p.as_bytes(), vec![27, 0, 0, 0, 1, 0, 0]);
    p.format(BLE2904Format::UINT8);
    p.exponent(0xfe);
    p.unit(0x27ad);
    p.description(0x0102);
    assert_eq!(p.as_bytes(), vec![4, 0xfe, 0xad, 0x27, 1, 0x02, 0x01]);
    assert_eq!(BLE2904Format::UTF8.code(), 25);
}

#[test]
fn security_flags_and_keys() {
    let mut s = BLESecurity::new();
    s.set_auth(0b011);
    assert!(s.bonding() && s.mitm() && !s.secure_connections());
    s.set_io_cap(SecurityIOCap::KeyboardDisplay);
    assert_eq!(s.io_cap(), SecurityIOCap::KeyboardDisplay);
    s.resolve_rpa();
    assert_eq!(s.our_key_dist(), PAIR_KEY_DIST_ENC | PAIR_KEY_DIST_ID);
    assert_eq!(s.their_key_dist(), 0x03);
}

#[test]
fn connect_is_refused_when_already_connected() {
    let mut c = BLEClient::new();
    assert_eq!(c.connect_timeout_ms(), DEFAULT_CONNECT_TIMEOUT_MS);
    let p = c.connection_params();
    assert_eq!((p.itvl_min, p.itvl_max, p.supervision_timeout), (24, 40, 256));
    let addr = BLEAddress::from_le_bytes([1, 2, 3, 4, 5, 6], BLEAddressType::Public);
    assert_eq!(c.begin_connect(addr, true).unwrap_err().code(), 0xFFFF);
    assert!(c.address().is_none());
    assert!(c.begin_connect(addr, false).is_ok());
    assert!(c.address().unwrap() == addr);
    c.set_connection_params(6, 12, 1, 100, 32, 16);
    let p = c.connection_params();
    assert_eq!((p.itvl_min, p.itvl_max, p.latency, p.supervision_timeout), (6, 12, 1, 100));
    assert_eq!((p.scan_itvl, p.scan_window), (32, 16));
}

#[test]
fn att_value_edits() {
    let mut v = AttValue::new();
    assert!(v.is_empty());
    v.set_value(&[1, 2]);
    v.extend(&[3]);
    assert_eq!(v.as_slice(), &[1, 2, 3]);
    assert_eq!(v.len(), 3);
    v.clear();
    assert_eq!(v.len(), 0);
}

#[test]
fn connection_snapshot() {
    let a = BLEAddress::from_le_bytes([1, 2, 3, 4, 5, 6], BLEAddressType::Random);
    let d = esp32_nimble::conn_desc::BLEConnDesc {
        address: a,
        id_address: a,
        conn_handle: 4,
        interval: 24,
        timeout: 400,
        latency: 0,
        mtu: 247,
        bonded: true,
        encrypted: true,
        authenticated: false,
        sec_key_size: 16,
    };
    assert_eq!(d.att_payload_len(), 244);
    assert_eq!(d.conn_handle(), 4);
    assert!(d.encrypted() && !d.authenticated());
}
