//! A Bluetooth Low Energy host library: UUIDs and addresses, advertising data, the
//! GATT client's discovery state and the GATT server's database, subscriptions and
//! indication flow control, security configuration, and L2CAP channel segmentation.
//!
//! The native host stack is driven from outside: its callbacks become calls of the event
//! functions here (`on_connect`, `on_service_discovered`, `on_subscribe`, ...), and the
//! functions that decide (`begin_get_services`, `send_to`, `passkey_response`, ...) say
//! which stack call to make.

pub mod error;
pub mod ble_uuid;
pub mod ble_address;
pub mod adv_data;
pub mod ext_advertisement;
pub mod advertisement_data;
pub mod att_value;
pub mod characteristic;
pub mod conn_desc;
pub mod descriptor;
pub mod notify_tx;
pub mod presentation;
pub mod client;
pub mod l2cap;
pub mod security;
pub mod device;
pub mod server;
pub mod hid;
pub mod gatt_io;
pub mod scan;
