use vstd::prelude::*;
use crate::client::Signal;
use crate::error::{BLEError, BLE_HS_ENOTCONN};

verus! {

/// How a value write goes to the peer.
#[derive(Clone, Copy, PartialEq, Eq, Structural, Debug)]
pub enum WriteMethod {
    /// The link is closed (its ATT MTU reads as 0): fail with "not connected".
    NotConnected,
    /// One write without response.
    NoResponse,
    /// One write with response; wait for it.
    Flat,
    /// A queued long write; wait for it.
    Long,
}

/// Chooses how to write `len` bytes over a link whose ATT MTU is `mtu`: a write without
/// response when none is asked for and the value fits the MTU less its 3-byte header; a
/// single write with response when it fits; a long write otherwise.
pub fn write_method(mtu: u16, len: usize, response: bool) -> (r: WriteMethod)
    ensures
        mtu == 0 ==> r == WriteMethod::NotConnected,
        mtu != 0 && !response && len + 3 <= mtu ==> r == WriteMethod::NoResponse,
        mtu != 0 && response && len + 3 <= mtu ==> r == WriteMethod::Flat,
        mtu != 0 && len + 3 > mtu ==> r == WriteMethod::Long,
{
    if mtu == 0 {
        return WriteMethod::NotConnected;
    }
    let fits = mtu >= 3 && len <= (mtu - 3) as usize;
    if !response && fits {
        WriteMethod::NoResponse
    } else if fits {
        WriteMethod::Flat
    } else {
        WriteMethod::Long
    }
}

/// The error a write to a closed link fails with.
pub fn not_connected() -> (r: Result<(), BLEError>)
    ensures
        r == BLEError::convert_spec(BLE_HS_ENOTCONN),
{
    BLEError::convert(BLE_HS_ENOTCONN)
}

/// Collects the fragments of a (possibly long) read of one attribute.
#[derive(Debug)]
pub struct BLEReader {
    conn_handle: u16,
    handle: u16,
    data: Vec<u8>,
    signal: Signal,
}

impl BLEReader {
    pub closed spec fn spec_conn_handle(&self) -> u16 {
        self.conn_handle
    }

    pub closed spec fn spec_handle(&self) -> u16 {
        self.handle
    }

    pub closed spec fn spec_data(&self) -> Seq<u8> {
        self.data@
    }

    pub closed spec fn spec_signal(&self) -> Option<u32> {
        self.signal.spec_slot()
    }

    /// A reader of attribute `handle` on connection `conn_handle`, nothing read yet.
    pub fn new(conn_handle: u16, handle: u16) -> (r: BLEReader)
        ensures
            r.spec_conn_handle() == conn_handle,
            r.spec_handle() == handle,
            r.spec_data() == Seq::<u8>::empty(),
            r.spec_signal() is None,
    {
        BLEReader { conn_handle, handle, data: Vec::new(), signal: Signal::new() }
    }

    /// The attribute handle being read.
    pub fn handle(&self) -> (r: u16)
        ensures
            r == self.spec_handle(),
    {
        self.handle
    }

    /// A read result: status 0 appends the fragment; any other status ends the read with
    /// that status. Results of another connection are ignored.
    pub fn on_read(&mut self, conn_handle: u16, status: u32, fragment: &[u8]) -> (r: u32)
        ensures
            conn_handle != old(self).spec_conn_handle() ==> r == 0 && final(self).spec_data() == old(self).spec_data() && final(self).spec_signal() == old(self).spec_signal(),
            conn_handle == old(self).spec_conn_handle() && status == 0 ==> r == 0 && final(self).spec_data() == old(self).spec_data() + fragment@ && final(self).spec_signal()
                == old(self).spec_signal(),
            conn_handle == old(self).spec_conn_handle() && status != 0 ==> r == status && final(self).spec_data() == old(self).spec_data() && final(self).spec_signal() == Some(status),
            final(self).spec_conn_handle() == old(self).spec_conn_handle(),
            final(self).spec_handle() == old(self).spec_handle(),
    {
        if conn_handle != self.conn_handle {
            return 0;
        }
        if status == 0 {
            let mut k: usize = 0;
            while k < fragment.len()
                invariant
                    k <= fragment@.len(),
                    self.data@ == old(self).data@ + fragment@.subrange(0, k as int),
                    self.conn_handle == old(self).conn_handle,
                    self.handle == old(self).handle,
                    self.signal.spec_slot() == old(self).signal.spec_slot(),
                decreases fragment@.len() - k,
            {
                self.data.push(fragment[k]);
                k = k + 1;
                proof {
                    assert(self.data@ =~= old(self).data@ + fragment@.subrange(0, k as int));
                }
            }
            assert(fragment@.subrange(0, fragment@.len() as int) =~= fragment@);
            return 0;
        }
        self.signal.signal(status);
        status
    }

    /// A disconnect event: for the reader's connection the read ends with "not connected".
    pub fn on_disconnect(&mut self, conn_handle: u16)
        ensures
            conn_handle == old(self).spec_conn_handle() ==> final(self).spec_signal() == Some(BLE_HS_ENOTCONN),
            conn_handle != old(self).spec_conn_handle() ==> final(self).spec_signal() == old(self).spec_signal(),
            final(self).spec_data() == old(self).spec_data(),
            final(self).spec_conn_handle() == old(self).spec_conn_handle(),
    {
        if conn_handle == self.conn_handle {
            self.signal.signal(BLE_HS_ENOTCONN);
        }
    }

    /// The status the read ended with, if it has.
    pub fn take_signal(&mut self) -> (r: Option<u32>)
        ensures
            r == old(self).spec_signal(),
            final(self).spec_signal() is None,
            final(self).spec_data() == old(self).spec_data(),
            final(self).spec_conn_handle() == old(self).spec_conn_handle(),
            final(self).spec_handle() == old(self).spec_handle(),
    {
        self.signal.try_take()
    }

    /// The result of a finished read: the collected bytes when the status counts as
    /// success ("done" ends a long read), else the error.
    pub fn read_value(self, status: u32) -> (r: Result<Vec<u8>, BLEError>)
        ensures
            BLEError::convert_spec(status) is Ok ==> r is Ok && r->Ok_0@ == self.spec_data(),
            BLEError::convert_spec(status) is Err ==> r is Err && r->Err_0
                == BLEError::convert_spec(status)->Err_0,
    {
        match BLEError::convert(status) {
            Ok(()) => Ok(self.data),
            Err(e) => Err(e),
        }
    }
}

/// Waits for the answer to a write with response.
#[derive(Debug)]
pub struct BLEWriter {
    conn_handle: u16,
    handle: u16,
    signal: Signal,
}

impl BLEWriter {
    pub closed spec fn spec_conn_handle(&self) -> u16 {
        self.conn_handle
    }

    pub closed spec fn spec_handle(&self) -> u16 {
        self.handle
    }

    pub closed spec fn spec_signal(&self) -> Option<u32> {
        self.signal.spec_slot()
    }

    /// A writer of attribute `handle` on connection `conn_handle`.
    pub fn new(conn_handle: u16, handle: u16) -> (r: BLEWriter)
        ensures
            r.spec_conn_handle() == conn_handle,
            r.spec_handle() == handle,
            r.spec_signal() is None,
    {
        BLEWriter { conn_handle, handle, signal: Signal::new() }
    }

    /// The attribute handle written.
    pub fn handle(&self) -> (r: u16)
        ensures
            r == self.spec_handle(),
    {
        self.handle
    }

    /// The answer to the write; answers of another connection are ignored.
    pub fn on_write(&mut self, conn_handle: u16, status: u32)
        ensures
            conn_handle == old(self).spec_conn_handle() ==> final(self).spec_signal() == Some(status),
            conn_handle != old(self).spec_conn_handle() ==> final(self).spec_signal() == old(self).spec_signal(),
            final(self).spec_conn_handle() == old(self).spec_conn_handle(),
    {
        if conn_handle == self.conn_handle {
            self.signal.signal(status);
        }
    }

    /// A disconnect event: for the writer's connection the write ends with "not connected".
    pub fn on_disconnect(&mut self, conn_handle: u16)
        ensures
            conn_handle == old(self).spec_conn_handle() ==> final(self).spec_signal() == Some(BLE_HS_ENOTCONN),
            conn_handle != old(self).spec_conn_handle() ==> final(self).spec_signal() == old(self).spec_signal(),
            final(self).spec_conn_handle() == old(self).spec_conn_handle(),
    {
        if conn_handle == self.conn_handle {
            self.signal.signal(BLE_HS_ENOTCONN);
        }
    }

    /// The status the write ended with, if it has.
    pub fn take_signal(&mut self) -> (r: Option<u32>)
        ensures
            r == old(self).spec_signal(),
            final(self).spec_signal() is None,
            final(self).spec_conn_handle() == old(self).spec_conn_handle(),
    {
        self.signal.try_take()
    }
}

} // verus!
