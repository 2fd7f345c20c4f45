use vstd::prelude::*;
use crate::ble_address::BLEAddress;

verus! {

/// A snapshot of a connection's state, read from the stack on demand.
#[derive(Clone, Copy, Debug)]
pub struct BLEConnDesc {
    pub address: BLEAddress,
    pub id_address: BLEAddress,
    pub conn_handle: u16,
    pub interval: u16,
    pub timeout: u16,
    pub latency: u16,
    pub mtu: u16,
    pub bonded: bool,
    pub encrypted: bool,
    pub authenticated: bool,
    pub sec_key_size: u32,
}

impl BLEConnDesc {
    /// Gets the over-the-air address of the peer.
    pub fn address(&self) -> (r: BLEAddress)
        ensures
            r == self.address,
    {
        self.address
    }

    /// Gets the identity address of the peer.
    pub fn id_address(&self) -> (r: BLEAddress)
        ensures
            r == self.id_address,
    {
        self.id_address
    }

    /// Gets the connection handle.
    pub fn conn_handle(&self) -> (r: u16)
        ensures
            r == self.conn_handle,
    {
        self.conn_handle
    }

    /// Gets the connection interval, in 1.25 ms units.
    pub fn interval(&self) -> (r: u16)
        ensures
            r == self.interval,
    {
        self.interval
    }

    /// Gets the supervision timeout, in 10 ms units.
    pub fn timeout(&self) -> (r: u16)
        ensures
            r == self.timeout,
    {
        self.timeout
    }

    /// Gets the allowed latency, in connection intervals.
    pub fn latency(&self) -> (r: u16)
        ensures
            r == self.latency,
    {
        self.latency
    }

    /// Gets the ATT MTU, in bytes.
    pub fn mtu(&self) -> (r: u16)
        ensures
            r == self.mtu,
    {
        self.mtu
    }

    /// Gets whether the peer is bonded.
    pub fn bonded(&self) -> (r: bool)
        ensures
            r == self.bonded,
    {
        self.bonded
    }

    /// Gets whether the link is encrypted.
    pub fn encrypted(&self) -> (r: bool)
        ensures
            r == self.encrypted,
    {
        self.encrypted
    }

    /// Gets whether the link is authenticated.
    pub fn authenticated(&self) -> (r: bool)
        ensures
            r == self.authenticated,
    {
        self.authenticated
    }

    /// Gets the size of the encryption key.
    pub fn sec_key_size(&self) -> (r: u32)
        ensures
            r == self.sec_key_size,
    {
        self.sec_key_size
    }

    /// The ATT payload that fits one PDU: the MTU less the 3-byte header.
    pub fn att_payload_len(&self) -> (r: u16)
        ensures
            r == if self.mtu >= 3 {
                (self.mtu - 3) as u16
            } else {
                0u16
            },
    {
        if self.mtu >= 3 {
            self.mtu - 3
        } else {
            0
        }
    }
}

} // verus!
