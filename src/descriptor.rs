use vstd::prelude::*;
use crate::att_value::AttValue;
use crate::ble_uuid::BleUuid;
use crate::characteristic::ATT_ERR_DEFAULT_REJECT;

verus! {

/// Descriptor property: reads permitted.
pub const DSC_PROP_READ: u8 = 0x01;
/// Descriptor property: writes permitted.
pub const DSC_PROP_WRITE: u8 = 0x02;
/// Descriptor property: reads need encryption.
pub const DSC_PROP_READ_ENC: u8 = 0x04;
/// Descriptor property: writes need encryption.
pub const DSC_PROP_WRITE_ENC: u8 = 0x20;

/// What a descriptor write callback decided about an incoming write.
#[derive(Debug)]
pub struct OnWriteDescriptorArgs {
    current_data: Vec<u8>,
    recv_data: Vec<u8>,
    reject: bool,
    error_code: u8,
}

impl OnWriteDescriptorArgs {
    pub closed spec fn spec_current(&self) -> Seq<u8> {
        self.current_data@
    }

    pub closed spec fn spec_recv(&self) -> Seq<u8> {
        self.recv_data@
    }

    pub closed spec fn spec_rejected(&self) -> bool {
        self.reject
    }

    pub closed spec fn spec_error_code(&self) -> u8 {
        self.error_code
    }

    /// The value before the write.
    pub fn current_data(&self) -> (r: &[u8])
        ensures
            r@ == self.spec_current(),
    {
        self.current_data.as_slice()
    }

    /// The bytes the peer wrote.
    pub fn recv_data(&self) -> (r: &[u8])
        ensures
            r@ == self.spec_recv(),
    {
        self.recv_data.as_slice()
    }

    /// Refuses the write with the default error code.
    pub fn reject(&mut self)
        ensures
            final(self).spec_rejected(),
            final(self).spec_error_code() == ATT_ERR_DEFAULT_REJECT,
            final(self).spec_current() == old(self).spec_current(),
            final(self).spec_recv() == old(self).spec_recv(),
    {
        self.reject_with_error_code(ATT_ERR_DEFAULT_REJECT);
    }

    /// Refuses the write; the peer receives `error_code`.
    pub fn reject_with_error_code(&mut self, error_code: u8)
        ensures
            final(self).spec_rejected(),
            final(self).spec_error_code() == error_code,
            final(self).spec_current() == old(self).spec_current(),
            final(self).spec_recv() == old(self).spec_recv(),
    {
        self.reject = true;
        self.error_code = error_code;
    }
}

fn copy_bytes(d: &[u8]) -> (r: Vec<u8>)
    ensures
        r@ == d@,
{
    let mut r: Vec<u8> = Vec::new();
    let mut k: usize = 0;
    while k < d.len()
        invariant
            0 <= k <= d@.len(),
            r@ == d@.subrange(0, k as int),
        decreases d@.len() - k,
    {
        r.push(d[k]);
        k = k + 1;
        proof {
            assert(r@ =~= d@.subrange(0, k as int));
        }
    }
    assert(d@.subrange(0, d@.len() as int) =~= d@);
    r
}

/// A descriptor of a local characteristic.
#[derive(Debug)]
pub struct BLEDescriptor {
    uuid: BleUuid,
    properties: u8,
    value: AttValue,
}

impl BLEDescriptor {
    pub closed spec fn spec_uuid(&self) -> BleUuid {
        self.uuid
    }

    pub closed spec fn spec_properties(&self) -> u8 {
        self.properties
    }

    pub closed spec fn spec_value(&self) -> Seq<u8> {
        self.value@
    }

    /// A descriptor with an empty value.
    pub fn new(uuid: BleUuid, properties: u8) -> (r: BLEDescriptor)
        ensures
            r.spec_uuid() == uuid,
            r.spec_properties() == properties,
            r.spec_value() == Seq::<u8>::empty(),
    {
        BLEDescriptor { uuid, properties, value: AttValue::new() }
    }

    /// The descriptor's UUID.
    pub fn uuid(&self) -> (r: BleUuid)
        ensures
            r == self.spec_uuid(),
    {
        self.uuid
    }

    /// The descriptor's properties.
    pub fn properties(&self) -> (r: u8)
        ensures
            r == self.spec_properties(),
    {
        self.properties
    }

    /// Replaces the stored value.
    pub fn set_value(&mut self, value: &[u8])
        ensures
            final(self).spec_value() == value@,
            final(self).spec_uuid() == old(self).spec_uuid(),
            final(self).spec_properties() == old(self).spec_properties(),
    {
        self.value.set_value(value);
    }

    /// The stored value.
    pub fn value(&self) -> (r: &[u8])
        ensures
            r@ == self.spec_value(),
    {
        self.value.as_slice()
    }

    /// Whether the read callback runs for a read: only when the value fits the link's ATT
    /// MTU less the 3-byte header, or the request already carries a packet header longer
    /// than 8 bytes.
    pub fn read_runs_callback(&self, mtu: u16, pkthdr_len: u8) -> (r: bool)
        ensures
            r == (pkthdr_len > 8 || (mtu >= 3 && self.spec_value().len() <= mtu - 3)),
    {
        pkthdr_len > 8 || (mtu >= 3 && self.value.len() <= (mtu - 3) as usize)
    }

    /// The arguments handed to a write callback for an incoming write of `recv`.
    pub fn write_args(&self, recv: &[u8]) -> (r: OnWriteDescriptorArgs)
        ensures
            r.spec_current() == self.spec_value(),
            r.spec_recv() == recv@,
            !r.spec_rejected(),
            r.spec_error_code() == 0,
    {
        OnWriteDescriptorArgs {
            current_data: copy_bytes(self.value.as_slice()),
            recv_data: copy_bytes(recv),
            reject: false,
            error_code: 0,
        }
    }

    /// Completes a write after the callback ran: a rejected write keeps the value and
    /// yields the callback's error code; otherwise the bytes are stored and the status is 0.
    pub fn finish_write(&mut self, args: &OnWriteDescriptorArgs) -> (r: u32)
        ensures
            args.spec_rejected() ==> final(self).spec_value() == old(self).spec_value() && r
                == args.spec_error_code() as u32,
            !args.spec_rejected() ==> final(self).spec_value() == args.spec_recv() && r == 0,
            final(self).spec_uuid() == old(self).spec_uuid(),
            final(self).spec_properties() == old(self).spec_properties(),
    {
        if args.reject {
            return args.error_code as u32;
        }
        self.value.set_value(args.recv_data.as_slice());
        0
    }
}

} // verus!
