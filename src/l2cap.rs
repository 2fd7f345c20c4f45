use vstd::prelude::*;
use crate::client::Signal;
use crate::error::{BLEError, BLE_HS_EBUSY, BLE_HS_ESTALLED, is_success_code};

verus! {

pub open spec fn min_nat(a: int, b: int) -> int {
    if a < b {
        a
    } else {
        b
    }
}

/// The chunks a payload is sent in: each takes the next `mtu` bytes (the last one what is
/// left).
pub open spec fn fragments_of(s: Seq<u8>, mtu: nat) -> Seq<Seq<u8>>
    decreases s.len(),
{
    if s.len() == 0 || mtu == 0 {
        Seq::empty()
    } else {
        let k = min_nat(s.len() as int, mtu as int);
        seq![s.subrange(0, k)] + fragments_of(s.subrange(k, s.len() as int), mtu)
    }
}

/// What one native send call came to.
#[derive(Clone, Copy, PartialEq, Eq, Structural, Debug)]
pub enum SendOutcome {
    /// The chunk was accepted (possibly with the flow paused): go on with the next.
    Sent,
    /// The stack is busy: yield, then send the same chunk again.
    Retry,
    /// Stop sending: the status counts as success ("already" or "done").
    Finished,
    /// Stop sending with this error.
    Failed(BLEError),
}

/// Classifies the status of a native send: 0 and "stalled" mean sent, "busy" means retry,
/// anything else stops the transfer with that status converted.
pub fn classify_send(rc: u32) -> (r: SendOutcome)
    ensures
        (rc == 0 || rc == BLE_HS_ESTALLED) ==> r == SendOutcome::Sent,
        rc == BLE_HS_EBUSY ==> r == SendOutcome::Retry,
        rc != 0 && rc != BLE_HS_ESTALLED && rc != BLE_HS_EBUSY ==> r == (if is_success_code(rc) {
            SendOutcome::Finished
        } else {
            SendOutcome::Failed(BLEError::from_code_spec(rc))
        }),
{
    if rc == 0 || rc == BLE_HS_ESTALLED {
        SendOutcome::Sent
    } else if rc == BLE_HS_EBUSY {
        SendOutcome::Retry
    } else {
        match BLEError::convert(rc) {
            Ok(()) => SendOutcome::Finished,
            Err(e) => SendOutcome::Failed(e),
        }
    }
}

/// Size in bytes of a receive-buffer pool of `count` blocks of `mtu` bytes, if it fits.
pub fn mbuf_pool_size(mtu: usize, count: usize) -> (r: Option<usize>)
    ensures
        r is Some <==> mtu * count <= usize::MAX,
        r is Some ==> r->0 == mtu * count,
{
    mtu.checked_mul(count)
}

/// An outgoing payload being sent over a channel in chunks of the peer's MTU.
#[derive(Debug)]
pub struct L2capSender {
    data: Vec<u8>,
    offset: usize,
    mtu: usize,
}

impl L2capSender {
    pub closed spec fn spec_data(&self) -> Seq<u8> {
        self.data@
    }

    pub closed spec fn spec_offset(&self) -> nat {
        self.offset as nat
    }

    pub closed spec fn spec_mtu(&self) -> nat {
        self.mtu as nat
    }

    pub open spec fn wf(&self) -> bool {
        self.spec_offset() <= self.spec_data().len() && self.spec_mtu() > 0
    }

    /// The chunks still to send.
    pub open spec fn remaining(&self) -> Seq<Seq<u8>> {
        fragments_of(
            self.spec_data().subrange(self.spec_offset() as int, self.spec_data().len() as int),
            self.spec_mtu(),
        )
    }

    /// A sender of `data` in chunks of at most `peer_mtu` bytes.
    pub fn new(data: Vec<u8>, peer_mtu: usize) -> (r: L2capSender)
        requires
            peer_mtu > 0,
        ensures
            r.wf(),
            r.spec_data() == data@,
            r.spec_offset() == 0,
            r.spec_mtu() == peer_mtu,
            r.remaining() == fragments_of(data@, peer_mtu as nat),
    {
        let r = L2capSender { data, offset: 0, mtu: peer_mtu };
        assert(r.data@.subrange(0, r.data@.len() as int) =~= r.data@);
        r
    }

    /// Whether every chunk was sent.
    pub fn is_done(&self) -> (r: bool)
        requires
            self.wf(),
        ensures
            r == (self.remaining().len() == 0),
    {
        proof {
            self.lemma_remaining_nonempty();
        }
        self.offset >= self.data.len()
    }

    proof fn lemma_remaining_nonempty(&self)
        requires
            self.wf(),
        ensures
            (self.remaining().len() == 0) == (self.spec_offset() == self.spec_data().len()),
    {
        let rest = self.spec_data().subrange(self.spec_offset() as int, self.spec_data().len() as int);
        if rest.len() > 0 {
            assert(fragments_of(rest, self.spec_mtu()).len() > 0);
        }
    }

    /// The next chunk to send (the first of `remaining`).
    pub fn current_chunk(&self) -> (r: Vec<u8>)
        requires
            self.wf(),
            self.remaining().len() > 0,
        ensures
            r@ == self.remaining()[0],
    {
        proof {
            self.lemma_remaining_nonempty();
        }
        let left = self.data.len() - self.offset;
        let k = if left < self.mtu {
            left
        } else {
            self.mtu
        };
        let mut r: Vec<u8> = Vec::new();
        let mut j: usize = 0;
        let n = self.data.len();
        while j < k
            invariant
                self.wf(),
                n == self.spec_data().len(),
                left == self.spec_data().len() - self.spec_offset(),
                k <= left,
                j <= k,
                r@ == self.spec_data().subrange(self.spec_offset() as int, self.spec_offset() + j),
            decreases k - j,
        {
            r.push(self.data[self.offset + j]);
            j = j + 1;
            proof {
                assert(r@ =~= self.spec_data().subrange(
                    self.spec_offset() as int,
                    self.spec_offset() + j,
                ));
            }
        }
        proof {
            let rest = self.spec_data().subrange(self.spec_offset() as int, self.spec_data().len() as int);
            assert(rest.subrange(0, k as int) =~= r@);
        }
        r
    }

    /// Records the status of the native send of the current chunk: a sent chunk moves the
    /// sender on to the next one; a retry leaves it where it is.
    pub fn on_send_status(&mut self, rc: u32) -> (r: SendOutcome)
        requires
            old(self).wf(),
            old(self).remaining().len() > 0,
        ensures
            final(self).wf(),
            final(self).spec_data() == old(self).spec_data(),
            final(self).spec_mtu() == old(self).spec_mtu(),
            r == SendOutcome::Sent ==> final(self).remaining() == old(self).remaining().drop_first(),
            r != SendOutcome::Sent ==> final(self).remaining() == old(self).remaining(),
            (rc == 0 || rc == BLE_HS_ESTALLED) ==> r == SendOutcome::Sent,
            rc == BLE_HS_EBUSY ==> r == SendOutcome::Retry,
            rc != 0 && rc != BLE_HS_ESTALLED && rc != BLE_HS_EBUSY ==> r == (if is_success_code(rc) {
                SendOutcome::Finished
            } else {
                SendOutcome::Failed(BLEError::from_code_spec(rc))
            }),
    {
        proof {
            self.lemma_remaining_nonempty();
        }
        let r = classify_send(rc);
        if r == SendOutcome::Sent {
            let left = self.data.len() - self.offset;
            let k = if left < self.mtu {
                left
            } else {
                self.mtu
            };
            let ghost rest = old(self).spec_data().subrange(
                old(self).spec_offset() as int,
                old(self).spec_data().len() as int,
            );
            self.offset = self.offset + k;
            proof {
                assert(rest.subrange(k as int, rest.len() as int) =~= self.spec_data().subrange(
                    self.spec_offset() as int,
                    self.spec_data().len() as int,
                ));
                assert(old(self).remaining().drop_first() =~= self.remaining());
            }
        }
        r
    }
}

/// A connection-oriented channel in the client role: whether it is open, the signal its
/// connect and disconnect wait on, and the bounded queue of received frames.
#[derive(Debug)]
pub struct L2capClient {
    connected: bool,
    signal: Signal,
    frames: Vec<Vec<u8>>,
    capacity: usize,
}

impl L2capClient {
    pub closed spec fn spec_connected(&self) -> bool {
        self.connected
    }

    pub closed spec fn spec_signal(&self) -> Option<u32> {
        self.signal.spec_slot()
    }

    /// The queued frames, oldest first.
    pub closed spec fn spec_frames(&self) -> Seq<Seq<u8>> {
        self.frames@.map_values(|f: Vec<u8>| f@)
    }

    pub closed spec fn spec_capacity(&self) -> nat {
        self.capacity as nat
    }

    /// A closed channel whose receive queue holds at most `capacity` frames.
    pub fn new(capacity: usize) -> (r: L2capClient)
        ensures
            !r.spec_connected(),
            r.spec_signal() is None,
            r.spec_frames().len() == 0,
            r.spec_capacity() == capacity,
    {
        let r = L2capClient { connected: false, signal: Signal::new(), frames: Vec::new(), capacity };
        assert(r.spec_frames() =~= Seq::<Seq<u8>>::empty());
        r
    }

    /// Whether the channel is open.
    pub fn is_connected(&self) -> (r: bool)
        ensures
            r == self.spec_connected(),
    {
        self.connected
    }

    /// The channel-connected event: a positive status fails the connect with that status;
    /// otherwise the channel is open and the waiter released with 0.
    pub fn on_connected(&mut self, status: i32)
        ensures
            status > 0 ==> !final(self).spec_connected() && final(self).spec_signal() == Some(status as u32),
            status <= 0 ==> final(self).spec_connected() && final(self).spec_signal() == Some(0u32),
            final(self).spec_frames() == old(self).spec_frames(),
            final(self).spec_capacity() == old(self).spec_capacity(),
    {
        if status > 0 {
            self.connected = false;
            self.signal.signal(status as u32);
        } else {
            self.connected = true;
            self.signal.signal(0);
        }
    }

    /// The channel-disconnected event: the channel closes and the waiter is released with
    /// the neutral status 0; callers check `is_connected` afterwards.
    pub fn on_disconnected(&mut self)
        ensures
            !final(self).spec_connected(),
            final(self).spec_signal() == Some(0u32),
            final(self).spec_frames() == old(self).spec_frames(),
            final(self).spec_capacity() == old(self).spec_capacity(),
    {
        self.connected = false;
        self.signal.signal(0);
    }

    /// Whether a disconnect needs the native call: only an open channel does.
    pub fn begin_disconnect(&self) -> (r: bool)
        ensures
            r == self.spec_connected(),
    {
        self.connected
    }

    /// A data-received event: the frame is queued when there is room and dropped
    /// otherwise. Returns whether it was queued.
    pub fn on_data_received(&mut self, frame: Vec<u8>) -> (r: bool)
        ensures
            r == (old(self).spec_frames().len() < old(self).spec_capacity()),
            r ==> final(self).spec_frames() == old(self).spec_frames().push(frame@),
            !r ==> final(self).spec_frames() == old(self).spec_frames(),
            final(self).spec_connected() == old(self).spec_connected(),
            final(self).spec_signal() == old(self).spec_signal(),
            final(self).spec_capacity() == old(self).spec_capacity(),
    {
        if self.frames.len() < self.capacity {
            let ghost f = frame@;
            self.frames.push(frame);
            proof {
                assert(self.spec_frames() =~= old(self).spec_frames().push(f));
            }
            true
        } else {
            false
        }
    }

    /// Takes the oldest received frame, if any.
    pub fn rx(&mut self) -> (r: Option<Vec<u8>>)
        ensures
            old(self).spec_frames().len() == 0 ==> r is None && final(self).spec_frames() == old(self).spec_frames(),
            old(self).spec_frames().len() > 0 ==> r is Some && r->0@ == old(self).spec_frames()[0]
                && final(self).spec_frames() == old(self).spec_frames().drop_first(),
            final(self).spec_connected() == old(self).spec_connected(),
            final(self).spec_signal() == old(self).spec_signal(),
            final(self).spec_capacity() == old(self).spec_capacity(),
    {
        if self.frames.len() == 0 {
            return None;
        }
        let f = self.frames.remove(0);
        proof {
            assert(self.spec_frames() =~= old(self).spec_frames().drop_first());
        }
        Some(f)
    }

    /// The status the pending connect or disconnect ended with, if it has.
    pub fn take_signal(&mut self) -> (r: Option<u32>)
        ensures
            r == old(self).spec_signal(),
            final(self).spec_signal() is None,
            final(self).spec_connected() == old(self).spec_connected(),
            final(self).spec_frames() == old(self).spec_frames(),
    {
        self.signal.try_take()
    }
}

/// A connection-oriented channel in the server role: the PSM and MTU it listens with,
/// whether a peer is connected, the peer's SDU size from the accept event, and the bounded
/// queue of received frames.
#[derive(Debug)]
pub struct L2capServer {
    psm: u16,
    mtu: u16,
    connected: bool,
    peer_sdu_size: u16,
    frames: Vec<Vec<u8>>,
    capacity: usize,
}

impl L2capServer {
    pub closed spec fn spec_psm(&self) -> u16 {
        self.psm
    }

    pub closed spec fn spec_mtu(&self) -> u16 {
        self.mtu
    }

    pub closed spec fn spec_connected(&self) -> bool {
        self.connected
    }

    pub closed spec fn spec_peer_sdu_size(&self) -> u16 {
        self.peer_sdu_size
    }

    /// The queued frames, oldest first.
    pub closed spec fn spec_frames(&self) -> Seq<Seq<u8>> {
        self.frames@.map_values(|f: Vec<u8>| f@)
    }

    pub closed spec fn spec_capacity(&self) -> nat {
        self.capacity as nat
    }

    /// A server listening on `psm` with `mtu`; no peer yet, queue of `capacity` frames.
    pub fn new(psm: u16, mtu: u16, capacity: usize) -> (r: L2capServer)
        ensures
            r.spec_psm() == psm,
            r.spec_mtu() == mtu,
            !r.spec_connected(),
            r.spec_peer_sdu_size() == 0,
            r.spec_frames().len() == 0,
            r.spec_capacity() == capacity,
    {
        let r = L2capServer { psm, mtu, connected: false, peer_sdu_size: 0, frames: Vec::new(), capacity };
        assert(r.spec_frames() =~= Seq::<Seq<u8>>::empty());
        r
    }

    /// Whether a peer is connected.
    pub fn is_connected(&self) -> (r: bool)
        ensures
            r == self.spec_connected(),
    {
        self.connected
    }

    /// The SDU size the peer announced when the channel was accepted.
    pub fn peer_sdu_size(&self) -> (r: u16)
        ensures
            r == self.spec_peer_sdu_size(),
    {
        self.peer_sdu_size
    }

    /// The channel-accept event: records the peer's SDU size.
    pub fn on_accept(&mut self, peer_sdu_size: u16)
        ensures
            final(self).spec_peer_sdu_size() == peer_sdu_size,
            final(self).spec_connected() == old(self).spec_connected(),
            final(self).spec_frames() == old(self).spec_frames(),
            final(self).spec_capacity() == old(self).spec_capacity(),
            final(self).spec_psm() == old(self).spec_psm(),
    {
        self.peer_sdu_size = peer_sdu_size;
    }

    /// The channel-connected event: a positive status leaves the channel as it was.
    pub fn on_connected(&mut self, status: i32)
        ensures
            status > 0 ==> final(self).spec_connected() == old(self).spec_connected(),
            status <= 0 ==> final(self).spec_connected(),
            final(self).spec_peer_sdu_size() == old(self).spec_peer_sdu_size(),
            final(self).spec_frames() == old(self).spec_frames(),
            final(self).spec_capacity() == old(self).spec_capacity(),
    {
        if status <= 0 {
            self.connected = true;
        }
    }

    /// The channel-disconnected event.
    pub fn on_disconnected(&mut self)
        ensures
            !final(self).spec_connected(),
            final(self).spec_peer_sdu_size() == old(self).spec_peer_sdu_size(),
            final(self).spec_frames() == old(self).spec_frames(),
            final(self).spec_capacity() == old(self).spec_capacity(),
    {
        self.connected = false;
    }

    /// A data-received event: the frame is queued when there is room and dropped
    /// otherwise. Returns whether it was queued.
    pub fn on_data_received(&mut self, frame: Vec<u8>) -> (r: bool)
        ensures
            r == (old(self).spec_frames().len() < old(self).spec_capacity()),
            r ==> final(self).spec_frames() == old(self).spec_frames().push(frame@),
            !r ==> final(self).spec_frames() == old(self).spec_frames(),
            final(self).spec_connected() == old(self).spec_connected(),
            final(self).spec_peer_sdu_size() == old(self).spec_peer_sdu_size(),
            final(self).spec_capacity() == old(self).spec_capacity(),
    {
        if self.frames.len() < self.capacity {
            let ghost f = frame@;
            self.frames.push(frame);
            proof {
                assert(self.spec_frames() =~= old(self).spec_frames().push(f));
            }
            true
        } else {
            false
        }
    }

    /// Takes the oldest received frame, if any.
    pub fn rx(&mut self) -> (r: Option<Vec<u8>>)
        ensures
            old(self).spec_frames().len() == 0 ==> r is None && final(self).spec_frames() == old(self).spec_frames(),
            old(self).spec_frames().len() > 0 ==> r is Some && r->0@ == old(self).spec_frames()[0]
                && final(self).spec_frames() == old(self).spec_frames().drop_first(),
            final(self).spec_connected() == old(self).spec_connected(),
            final(self).spec_peer_sdu_size() == old(self).spec_peer_sdu_size(),
            final(self).spec_capacity() == old(self).spec_capacity(),
    {
        if self.frames.len() == 0 {
            return None;
        }
        let f = self.frames.remove(0);
        proof {
            assert(self.spec_frames() =~= old(self).spec_frames().drop_first());
        }
        Some(f)
    }
}

/// Host status: resources exhausted.
pub const BLE_HS_ENOMEM: u32 = 6;

/// The fixed-capacity set of L2CAP server instances.
#[derive(Debug)]
pub struct L2capServerSet {
    servers: Vec<L2capServer>,
    max: usize,
}

impl L2capServerSet {
    pub closed spec fn spec_len(&self) -> nat {
        self.servers@.len()
    }

    pub closed spec fn spec_max(&self) -> nat {
        self.max as nat
    }

    pub closed spec fn spec_servers(&self) -> Seq<L2capServer> {
        self.servers@
    }

    /// An empty set holding at most `max` servers.
    pub fn new(max: usize) -> (r: L2capServerSet)
        ensures
            r.spec_len() == 0,
            r.spec_max() == max,
    {
        L2capServerSet { servers: Vec::new(), max }
    }

    /// Adds a server listening on `psm` with `mtu` (receive queue of one frame); fails with
    /// "no memory" when the set is full. Returns the new server's index.
    pub fn create(&mut self, psm: u16, mtu: u16) -> (r: Result<usize, BLEError>)
        ensures
            old(self).spec_len() >= old(self).spec_max() ==> r == Err::<usize, BLEError>(
                BLEError::from_code_spec(BLE_HS_ENOMEM),
            ) && final(self).spec_servers() == old(self).spec_servers(),
            old(self).spec_len() < old(self).spec_max() ==> r == Ok::<usize, BLEError>(
                old(self).spec_len() as usize,
            ) && final(self).spec_len() == old(self).spec_len() + 1 && final(self).spec_servers().drop_last()
                == old(self).spec_servers() && final(self).spec_servers().last().spec_psm() == psm
                && final(self).spec_servers().last().spec_mtu() == mtu
                && !final(self).spec_servers().last().spec_connected(),
            final(self).spec_max() == old(self).spec_max(),
    {
        if self.servers.len() >= self.max {
            return Err(BLEError::from_non_zero(BLE_HS_ENOMEM));
        }
        let r = self.servers.len();
        self.servers.push(L2capServer::new(psm, mtu, 1));
        assert(self.servers@.drop_last() =~= old(self).servers@);
        Ok(r)
    }

    /// Number of servers.
    pub fn len(&self) -> (r: usize)
        ensures
            r == self.spec_len(),
    {
        self.servers.len()
    }

    /// The servers.
    pub fn servers(&self) -> (r: &[L2capServer])
        ensures
            r@ == self.spec_servers(),
    {
        self.servers.as_slice()
    }
}

/// Sizes of the chunks a payload of `len` bytes is sent in, over a peer MTU of `mtu`.
pub fn fragment_sizes(len: usize, mtu: usize) -> (r: Vec<usize>)
    requires
        mtu > 0,
    ensures
        r@.len() == (len + mtu - 1) / mtu as int,
        forall|i: int| 0 <= i < r@.len() ==> #[trigger] r@[i] == min_nat(len - i * mtu, mtu as int),
{
    let mut r: Vec<usize> = Vec::new();
    let mut left: usize = len;
    proof {
        assert(r@.len() * mtu == 0) by (nonlinear_arith)
            requires
                r@.len() == 0,
        ;
        if len == 0 {
            assert((len + mtu - 1) / mtu as int == 0) by (nonlinear_arith)
                requires
                    len == 0,
                    mtu > 0,
            ;
        }
    }
    while left > 0
        invariant
            mtu > 0,
            left <= len,
            (len - left) == r@.len() * mtu || left == 0,
            left > 0 ==> (len - left) == r@.len() * mtu,
            forall|i: int| 0 <= i < r@.len() ==> #[trigger] r@[i] == min_nat(len - i * mtu, mtu as int),
            left == 0 ==> r@.len() == (len + mtu - 1) / mtu as int,
        decreases left,
    {
        let k = if left < mtu {
            left
        } else {
            mtu
        };
        let ghost n = r@.len();
        r.push(k);
        left = left - k;
        proof {
            assert(r@[n as int] == min_nat(len - n * mtu, mtu as int));
            if left > 0 {
                assert(len - left == (n + 1) * mtu) by (nonlinear_arith)
                    requires
                        len - (left + mtu) == n * mtu,
                ;
            } else {
                assert(r@.len() == (len + mtu - 1) / mtu as int) by (nonlinear_arith)
                    requires
                        len - k == n * mtu,
                        0 < k <= mtu,
                        r@.len() == n + 1,
                        mtu > 0,
                ;
            }
        }
    }
    proof {
        if len == 0 {
            assert((len + mtu - 1) / mtu as int == 0) by (nonlinear_arith)
                requires
                    len == 0,
                    mtu > 0,
            ;
        }
    }
    r
}

/// Concatenation of a sequence of chunks.
pub open spec fn concat_chunks(c: Seq<Seq<u8>>) -> Seq<u8>
    decreases c.len(),
{
    if c.len() == 0 {
        Seq::empty()
    } else {
        c[0] + concat_chunks(c.drop_first())
    }
}

/// The chunks of a payload put back together give the payload; each chunk holds at least
/// one byte and at most `mtu`, and every chunk but the last holds exactly `mtu`.
pub proof fn lemma_fragments_reassemble(s: Seq<u8>, mtu: nat)
    requires
        mtu > 0,
    ensures
        concat_chunks(fragments_of(s, mtu)) == s,
        forall|i: int|
            0 <= i < fragments_of(s, mtu).len() ==> 0 < (#[trigger] fragments_of(s, mtu)[i]).len()
                <= mtu,
        forall|i: int|
            0 <= i < fragments_of(s, mtu).len() - 1 ==> (#[trigger] fragments_of(s, mtu)[i]).len()
                == mtu,
    decreases s.len(),
{
    if s.len() > 0 {
        let k = min_nat(s.len() as int, mtu as int);
        let rest = s.subrange(k, s.len() as int);
        lemma_fragments_reassemble(rest, mtu);
        let f = fragments_of(s, mtu);
        assert(f.drop_first() =~= fragments_of(rest, mtu));
        assert(s.subrange(0, k) + rest =~= s);
        assert forall|i: int| 0 <= i < f.len() implies 0 < (#[trigger] f[i]).len() <= mtu by {
            if i > 0 {
                assert(f[i] == fragments_of(rest, mtu)[i - 1]);
            }
        }
        assert forall|i: int| 0 <= i < f.len() - 1 implies (#[trigger] f[i]).len() == mtu by {
            if i > 0 {
                assert(f[i] == fragments_of(rest, mtu)[i - 1]);
            } else {
                if k < mtu {
                    assert(rest.len() == 0);
                    assert(fragments_of(rest, mtu).len() == 0);
                }
            }
        }
    }
}

} // verus!
