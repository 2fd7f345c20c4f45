use esp32_nimble::device::{BLEDevice, OwnAddrType, StackState};
use esp32_nimble::error::{
    BLEError, BLEReturnCode, BLE_HS_EALREADY, BLE_HS_EBUSY, BLE_HS_EDONE, BLE_HS_ESTALLED,
};
use esp32_nimble::l2cap::{classify_send, fragment_sizes, mbuf_pool_size, L2capSender, SendOutcome};
use esp32_nimble::security::{
    enc_change_needs_bond_delete, passkey_response, repeat_pairing_response, BLESecurity,
    PasskeyResponse, SecurityIOCap, IOACT_DISP, IOACT_INPUT, IOACT_NONE, IOACT_NUMCMP, IOACT_OOB,
    PAIR_KEY_DIST_ENC, PAIR_KEY_DIST_ID, REPEAT_PAIRING_IGNORE, REPEAT_PAIRING_RETRY,
};

#[test]
fn payload_of_1500_bytes_over_mtu_512() {
    assert_eq!(fragment_sizes(1500, 512), vec![512, 512, 476]);
    let data: Vec<u8> = (0..1500u32).map(|i| (i % 251) as u8).collect();
    let mut tx = L2capSender::new(data.clone(), 512);
    let mut sent: Vec<Vec<u8>> = Vec::new();
    while !tx.is_done() {
        let chunk = tx.current_chunk();
        assert_eq!(tx.on_send_status(BLE_HS_EBUSY), SendOutcome::Retry);
        assert_eq!(tx.on_send_status(0), SendOutcome::Sent);
        sent.push(chunk);
    }
    let sizes: Vec<usize> = sent.iter().map(|c| c.len()).collect();
    assert_eq!(sizes, vec![512, 512, 476]);
    assert_eq!(sent.concat(), data);
}

#[test]
fn fragment_edge_cases() {
    assert_eq!(fragment_sizes(0, 512), Vec::<usize>::new());
    assert_eq!(fragment_sizes(512, 512), vec![512]);
    assert_eq!(fragment_sizes(513, 512), vec![512, 1]);
}

#[test]
fn send_status_classification() {
    assert_eq!(classify_send(0), SendOutcome::Sent);
    assert_eq!(classify_send(BLE_HS_ESTALLED), SendOutcome::Sent);
    assert_eq!(classify_send(BLE_HS_EBUSY), SendOutcome::Retry);
    assert_eq!(classify_send(BLE_HS_EDONE), SendOutcome::Finished);
    assert_eq!(classify_send(7), SendOutcome::Failed(BLEError::from_non_zero(7)));
    assert_eq!(mbuf_pool_size(512, 3), Some(1536));
    assert_eq!(mbuf_pool_size(usize::MAX, 2), None);
}

#[test]
fn status_codes_that_count_as_success() {
    assert_eq!(BLEError::convert(0), Ok(()));
    assert_eq!(BLEError::convert(BLE_HS_EALREADY), Ok(()));
    assert_eq!(BLEError::convert(BLE_HS_EDONE), Ok(()));
    assert_eq!(BLEError::convert(3).unwrap_err().code(), 3);
    assert_eq!(BLEError::fail().unwrap_err().code(), 0xFFFF);
    assert_eq!(BLEError::check_and_return(0, 42), Ok(42));
    assert_eq!(BLEReturnCode::from(0), None);
    assert_eq!(BLEReturnCode::from(5), Some(BLEReturnCode(5)));
    assert_eq!(BLEReturnCode::convert(0x105), Err(BLEReturnCode(0x105)));
    assert_eq!(BLEReturnCode::fail(), Err(BLEReturnCode(0xFFFF)));
    assert_eq!(BLEReturnCode::check_and_return(BLE_HS_EDONE, 'x'), Ok('x'));
}

#[test]
fn passkey_actions() {
    assert_eq!(passkey_response(IOACT_DISP, None, None, 123456), PasskeyResponse::Passkey(123456));
    assert_eq!(passkey_response(IOACT_DISP, Some(42), None, 123456), PasskeyResponse::Passkey(42));
    assert_eq!(passkey_response(IOACT_NUMCMP, None, Some(true), 0), PasskeyResponse::NumericAccept(true));
    assert_eq!(passkey_response(IOACT_NUMCMP, None, None, 0), PasskeyResponse::NumericAccept(false));
    assert_eq!(passkey_response(IOACT_INPUT, Some(7), None, 9), PasskeyResponse::Passkey(7));
    assert_eq!(passkey_response(IOACT_NONE, Some(7), None, 9), PasskeyResponse::NoAction);
    assert_eq!(passkey_response(IOACT_OOB, None, None, 9), PasskeyResponse::Unsupported(IOACT_OOB));
    assert_eq!(repeat_pairing_response(true), REPEAT_PAIRING_RETRY);
    assert_eq!(repeat_pairing_response(false), REPEAT_PAIRING_IGNORE);
    assert!(enc_change_needs_bond_delete(0x206));
    assert!(!enc_change_needs_bond_delete(0x205));
}

#[test]
fn security_configuration() {
    let mut s = BLESecurity::new();
    s.set_passkey(1234);
    assert_eq!(s.get_passkey(), 1234);
    s.set_auth(0b101);
    s.set_io_cap(SecurityIOCap::DisplayOnly);
    s.resolve_rpa();
    assert_eq!(s.get_passkey(), 1234);
    let mut d = BLEDevice::new();
    assert_eq!(d.state(), StackState::Uninitialized);
    assert!(d.begin_init());
    assert!(!d.begin_init());
    d.on_sync();
    assert_eq!(d.state(), StackState::Synced);
    d.security().set_passkey(999999);
    assert_eq!(d.security().get_passkey(), 999999);
    d.set_own_addr_type_to_non_resolvable_random();
    assert_eq!(d.own_addr_type(), OwnAddrType::Random);
    d.deinit();
    assert_eq!(d.state(), StackState::Uninitialized);
    assert_eq!(d.security().get_passkey(), 999999);
    let _ = (PAIR_KEY_DIST_ENC, PAIR_KEY_DIST_ID);
}

#[test]
fn l2cap_channel_events() {
    use_channel();
}

fn use_channel() {
    let mut ch = esp32_nimble::l2cap::L2capClient::new(1);
    assert!(!ch.begin_disconnect());
    ch.on_connected(5);
    assert!(!ch.is_connected());
    assert_eq!(ch.take_signal(), Some(5));
    ch.on_connected(0);
    assert!(ch.is_connected());
    assert_eq!(ch.take_signal(), Some(0));
    assert!(ch.on_data_received(vec![1, 2]));
    assert!(!ch.on_data_received(vec![3]));
    assert_eq!(ch.rx(), Some(vec![1, 2]));
    assert_eq!(ch.rx(), None);
    assert!(ch.begin_disconnect());
    ch.on_disconnected();
    assert!(!ch.is_connected());
    assert_eq!(ch.take_signal(), Some(0));
}

#[test]
fn l2cap_server_role() {
    let mut set = esp32_nimble::l2cap::L2capServerSet::new(1);
    assert_eq!(set.create(0x80, 512), Ok(0));
    assert_eq!(set.create(0x81, 512).unwrap_err().code(), 6);
    assert_eq!(set.len(), 1);
    let mut s = esp32_nimble::l2cap::L2capServer::new(0x80, 512, 1);
    s.on_accept(1024);
    assert_eq!(s.peer_sdu_size(), 1024);
    s.on_connected(3);
    assert!(!s.is_connected());
    s.on_connected(0);
    assert!(s.is_connected());
    assert!(s.on_data_received(vec![7]));
    assert!(!s.on_data_received(vec![8]));
    assert_eq!(s.rx(), Some(vec![7]));
    s.on_disconnected();
    assert!(!s.is_connected());
}

#[test]
fn security_defaults() {
    let s = BLESecurity::new();
    assert!(!s.bonding() && !s.mitm() && s.secure_connections());
    assert_eq!(s.io_cap(), SecurityIOCap::NoInputNoOutput);
    assert_eq!((s.our_key_dist(), s.their_key_dist()), (1, 3));
}
