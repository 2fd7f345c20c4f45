use vstd::prelude::*;
use crate::att_value::AttValue;
use crate::ble_uuid::BleUuid;
use crate::error::{BLE_HS_EBUSY, BLE_HS_EINVAL};

verus! {

/// Characteristic property: reads permitted.
pub const PROP_READ: u16 = 0x0002;
/// Characteristic property: writes without response permitted.
pub const PROP_WRITE_NO_RSP: u16 = 0x0004;
/// Characteristic property: writes permitted.
pub const PROP_WRITE: u16 = 0x0008;
/// Characteristic property: notifications.
pub const PROP_NOTIFY: u16 = 0x0010;
/// Characteristic property: indications.
pub const PROP_INDICATE: u16 = 0x0020;
/// Characteristic property: writes need encryption.
pub const PROP_WRITE_ENC: u16 = 0x1000;
/// Characteristic property: reads need encryption.
pub const PROP_READ_ENC: u16 = 0x0200;
/// Characteristic property: reads need authentication.
pub const PROP_READ_AUTHEN: u16 = 0x0400;
/// Characteristic property: reads need authorization.
pub const PROP_READ_AUTHOR: u16 = 0x0800;

/// Subscription flag: notifications.
pub const SUB_NOTIFY: u8 = 0x01;
/// Subscription flag: indications.
pub const SUB_INDICATE: u8 = 0x02;

/// The "no connection" handle.
pub const CONN_HANDLE_NONE: u16 = 0xFFFF;

/// ATT error used when a write callback rejects without naming a code.
pub const ATT_ERR_DEFAULT_REJECT: u8 = 0xFF;

/// Whether the property set `p` holds property `b`.
pub open spec fn has_prop(p: u16, b: u16) -> bool {
    p & b == b
}

fn has_prop_exec(p: u16, b: u16) -> (r: bool)
    ensures
        r == has_prop(p, b),
{
    p & b == b
}

/// The subscription flags that a subscribe event leaves for a connection: the requested
/// kinds that the characteristic supports.
pub open spec fn sub_value(props: u16, notify: bool, indicate: bool) -> u8 {
    ((if notify && has_prop(props, PROP_NOTIFY) { SUB_NOTIFY } else { 0u8 }) + (if indicate
        && has_prop(props, PROP_INDICATE) {
        SUB_INDICATE
    } else {
        0u8
    })) as u8
}

/// Subscriber entries are (connection handle, flags) pairs.
pub open spec fn has_entry(s: Seq<(u16, u8)>, h: u16, f: u8) -> bool {
    exists|i: int| 0 <= i < s.len() && (#[trigger] s[i]) == (h, f)
}

pub open spec fn is_subscribed(s: Seq<(u16, u8)>, h: u16) -> bool {
    exists|i: int| 0 <= i < s.len() && (#[trigger] s[i]).0 == h
}

/// No entry has empty flags, and each connection has at most one entry.
pub open spec fn subscribers_wf(s: Seq<(u16, u8)>) -> bool {
    &&& forall|i: int| 0 <= i < s.len() ==> (#[trigger] s[i]).1 != 0
    &&& forall|i: int, j: int| 0 <= i < j < s.len() ==> (#[trigger] s[i]).0 != (#[trigger] s[j]).0
}

/// What a send of a value to connection `conn` comes to, for subscription flags `flag`,
/// characteristic properties `props`, ATT MTU `mtu`, and whether the connection awaits an
/// indication's confirmation: an indication when the flags and the properties allow one
/// (refused with "busy" while one awaits confirmation); else a notification when allowed;
/// else an invalid-argument rejection, which is also the answer for the no-connection
/// handle, an MTU of at most 3 (a closed link reads 0), and empty flags.
pub open spec fn send_decision_spec(conn: u16, flag: u8, props: u16, mtu: u16, waiting: bool) -> SendDecision {
    if conn == CONN_HANDLE_NONE || mtu <= 3 || flag == 0 {
        SendDecision::Reject(BLE_HS_EINVAL)
    } else if flag & SUB_INDICATE != 0 && has_prop(props, PROP_INDICATE) {
        if waiting {
            SendDecision::Reject(BLE_HS_EBUSY)
        } else {
            SendDecision::Indicate
        }
    } else if flag & SUB_NOTIFY != 0 && has_prop(props, PROP_NOTIFY) {
        SendDecision::Notify
    } else {
        SendDecision::Reject(BLE_HS_EINVAL)
    }
}

/// A connection that awaits an indication's confirmation gets no second indication: a
/// send that would indicate is refused as busy (with a usable MTU) and is never an
/// indication; once the wait is cleared the same send indicates.
pub proof fn lemma_indicate_refused_while_waiting(conn: u16, flag: u8, props: u16, mtu: u16)
    ensures
        send_decision_spec(conn, flag, props, mtu, true) != SendDecision::Indicate,
        conn != CONN_HANDLE_NONE && mtu > 3 && flag & SUB_INDICATE != 0 && has_prop(props, PROP_INDICATE)
            ==> send_decision_spec(conn, flag, props, mtu, true) == SendDecision::Reject(BLE_HS_EBUSY)
            && send_decision_spec(conn, flag, props, mtu, false) == SendDecision::Indicate,
{
    if flag & SUB_INDICATE != 0 {
        assert(flag != 0) by (bit_vector)
            requires
                flag & 0x02u8 != 0,
        ;
    }
}

/// The subscription flags of connection `h` (0 when it has no entry).
pub open spec fn flags_of(s: Seq<(u16, u8)>, h: u16) -> u8 {
    if is_subscribed(s, h) {
        s[choose|i: int| 0 <= i < s.len() && (#[trigger] s[i]).0 == h].1
    } else {
        0
    }
}

/// With one entry per connection, the flags of a connection are those of its entry.
pub proof fn lemma_flags_of_entry(s: Seq<(u16, u8)>, h: u16, f: u8)
    requires
        subscribers_wf(s),
    ensures
        has_entry(s, h, f) ==> flags_of(s, h) == f,
        !is_subscribed(s, h) ==> flags_of(s, h) == 0,
{
    if has_entry(s, h, f) {
        let j = choose|j: int| 0 <= j < s.len() && s[j] == (h, f);
        assert(s[j].0 == h);
        let i = choose|i: int| 0 <= i < s.len() && (#[trigger] s[i]).0 == h;
        if i != j {
            if i < j {
                assert(s[i].0 != s[j].0);
            } else {
                assert(s[j].0 != s[i].0);
            }
        }
    }
}

/// What a send on one connection comes to.
#[derive(Clone, Copy, PartialEq, Eq, Structural, Debug)]
pub enum SendDecision {
    /// Send an indication; the connection now awaits its confirmation.
    Indicate,
    /// Send a notification.
    Notify,
    /// Do not send; fail with this host status.
    Reject(u32),
}

/// Per-connection "indication awaiting confirmation" flags, in a fixed number of slots.
#[derive(Debug)]
pub struct IndicateWait {
    slots: Vec<u16>,
}

impl IndicateWait {
    pub closed spec fn spec_slots(&self) -> Seq<u16> {
        self.slots@
    }

    /// Whether an indication on connection `h` awaits its confirmation.
    pub open spec fn waiting(&self, h: u16) -> bool {
        h != CONN_HANDLE_NONE && exists|i: int|
            0 <= i < self.spec_slots().len() && (#[trigger] self.spec_slots()[i]) == h
    }

    pub open spec fn has_free_slot(&self) -> bool {
        exists|i: int|
            0 <= i < self.spec_slots().len() && (#[trigger] self.spec_slots()[i]) == CONN_HANDLE_NONE
    }

    /// Whether an indication on `h` may start now: `h` is a connection and awaits no
    /// confirmation.
    pub open spec fn can_begin(&self, h: u16) -> bool {
        h != CONN_HANDLE_NONE && !self.waiting(h)
    }

    /// A table of `capacity` slots, none waiting.
    pub fn new(capacity: usize) -> (r: IndicateWait)
        ensures
            r.spec_slots().len() == capacity,
            forall|h: u16| !r.waiting(h),
            capacity > 0 ==> r.has_free_slot(),
    {
        let mut slots: Vec<u16> = Vec::new();
        let mut k: usize = 0;
        while k < capacity
            invariant
                k <= capacity,
                slots@.len() == k,
                forall|i: int| 0 <= i < k ==> slots@[i] == CONN_HANDLE_NONE,
            decreases capacity - k,
        {
            slots.push(CONN_HANDLE_NONE);
            k = k + 1;
        }
        let r = IndicateWait { slots };
        if capacity > 0 {
            assert(r.spec_slots()[0] == CONN_HANDLE_NONE);
        }
        r
    }

    /// Whether connection `h` awaits a confirmation.
    pub fn is_waiting(&self, h: u16) -> (r: bool)
        ensures
            r == self.waiting(h),
    {
        if h == CONN_HANDLE_NONE {
            return false;
        }
        let mut k: usize = 0;
        while k < self.slots.len()
            invariant
                h != CONN_HANDLE_NONE,
                k <= self.spec_slots().len(),
                forall|i: int| 0 <= i < k ==> self.spec_slots()[i] != h,
            decreases self.spec_slots().len() - k,
        {
            if self.slots[k] == h {
                assert(self.spec_slots()[k as int] == h);
                return true;
            }
            k = k + 1;
        }
        false
    }

    /// Marks connection `h` as awaiting a confirmation, unless it already does; returns
    /// whether it did. A free slot is reused, else one is added.
    pub fn set_indicate_wait(&mut self, h: u16) -> (r: bool)
        requires
            h != CONN_HANDLE_NONE,
        ensures
            r == !old(self).waiting(h),
            r ==> final(self).waiting(h),
            !r ==> final(self).spec_slots() == old(self).spec_slots(),
            forall|g: u16| g != h ==> (final(self).waiting(g) == old(self).waiting(g)),
    {
        if self.is_waiting(h) {
            return false;
        }
        let mut k: usize = 0;
        while k < self.slots.len()
            invariant
                h != CONN_HANDLE_NONE,
                k <= self.spec_slots().len(),
                self.spec_slots() == old(self).spec_slots(),
                !old(self).waiting(h),
                forall|i: int| 0 <= i < k ==> self.spec_slots()[i] != CONN_HANDLE_NONE,
            decreases self.spec_slots().len() - k,
        {
            if self.slots[k] == CONN_HANDLE_NONE {
                self.slots.set(k, h);
                proof {
                    assert(self.spec_slots() == old(self).spec_slots().update(k as int, h));
                    assert(self.spec_slots()[k as int] == h);
                    assert(old(self).spec_slots()[k as int] == CONN_HANDLE_NONE);
                    assert forall|g: u16| g != h implies (self.waiting(g) == old(self).waiting(g)) by {
                        if old(self).waiting(g) {
                            let i = choose|i: int|
                                0 <= i < old(self).spec_slots().len() && old(self).spec_slots()[i] == g;
                            assert(self.spec_slots()[i] == g);
                        }
                        if self.waiting(g) {
                            let i = choose|i: int|
                                0 <= i < self.spec_slots().len() && self.spec_slots()[i] == g;
                            assert(old(self).spec_slots()[i] == g);
                        }
                    }
                }
                return true;
            }
            k = k + 1;
        }
        self.slots.push(h);
        proof {
            let n = old(self).spec_slots().len() as int;
            assert(self.spec_slots() == old(self).spec_slots().push(h));
            assert(self.spec_slots()[n] == h);
            assert forall|g: u16| g != h implies (self.waiting(g) == old(self).waiting(g)) by {
                if old(self).waiting(g) {
                    let i = choose|i: int|
                        0 <= i < old(self).spec_slots().len() && old(self).spec_slots()[i] == g;
                    assert(self.spec_slots()[i] == g);
                }
                if self.waiting(g) {
                    let i = choose|i: int| 0 <= i < self.spec_slots().len() && self.spec_slots()[i] == g;
                    assert(old(self).spec_slots()[i] == g);
                }
            }
        }
        true
    }

    /// Clears the waiting mark of connection `h` (its confirmation came, or it closed).
    pub fn clear_indicate_wait(&mut self, h: u16)
        ensures
            !final(self).waiting(h),
            forall|g: u16| g != h ==> (final(self).waiting(g) == old(self).waiting(g)),
            final(self).spec_slots().len() == old(self).spec_slots().len(),
            old(self).has_free_slot() ==> final(self).has_free_slot(),
            old(self).waiting(h) ==> final(self).has_free_slot(),
    {
        if h == CONN_HANDLE_NONE {
            return;
        }
        let mut k: usize = 0;
        while k < self.slots.len()
            invariant
                h != CONN_HANDLE_NONE,
                k <= self.spec_slots().len(),
                self.spec_slots().len() == old(self).spec_slots().len(),
                forall|i: int| 0 <= i < k ==> self.spec_slots()[i] != h,
                forall|i: int|
                    k <= i < self.spec_slots().len() ==> self.spec_slots()[i] == old(self).spec_slots()[i],
                forall|i: int|
                    0 <= i < k ==> (#[trigger] self.spec_slots()[i] == CONN_HANDLE_NONE) == (
                    old(self).spec_slots()[i] == CONN_HANDLE_NONE || old(self).spec_slots()[i] == h),
                forall|i: int|
                    0 <= i < k && old(self).spec_slots()[i] != h ==> self.spec_slots()[i] == old(self).spec_slots()[i],
            decreases self.spec_slots().len() - k,
        {
            let ghost before = self.spec_slots();
            if self.slots[k] == h {
                self.slots.set(k, CONN_HANDLE_NONE);
                assert(self.spec_slots() == before.update(k as int, CONN_HANDLE_NONE));
            }
            k = k + 1;
        }
        proof {
            assert forall|g: u16| g != h implies (self.waiting(g) == old(self).waiting(g)) by {
                if old(self).waiting(g) {
                    let i = choose|i: int| 0 <= i < old(self).spec_slots().len() && old(self).spec_slots()[i] == g;
                    assert(self.spec_slots()[i] == g);
                }
                if self.waiting(g) {
                    let i = choose|i: int| 0 <= i < self.spec_slots().len() && self.spec_slots()[i] == g;
                    assert(old(self).spec_slots()[i] == g);
                }
            }
            if old(self).has_free_slot() {
                let i = choose|i: int|
                    0 <= i < old(self).spec_slots().len() && old(self).spec_slots()[i] == CONN_HANDLE_NONE;
                assert(self.spec_slots()[i] == CONN_HANDLE_NONE);
            }
            if old(self).waiting(h) {
                let i = choose|i: int| 0 <= i < old(self).spec_slots().len() && old(self).spec_slots()[i] == h;
                assert(self.spec_slots()[i] == CONN_HANDLE_NONE);
            }
        }
    }
}

/// While an indication on a connection awaits its confirmation, no other may start on
/// it; once the wait is cleared (confirmation, or the connection closing) one may.
pub proof fn lemma_indicate_exclusive(t: IndicateWait, h: u16)
    ensures
        t.waiting(h) ==> !t.can_begin(h),
        h != CONN_HANDLE_NONE && !t.waiting(h) ==> t.can_begin(h),
{
}

/// What a write callback decided about an incoming write.
#[derive(Debug)]
pub struct OnWriteArgs {
    current_data: Vec<u8>,
    recv_data: Vec<u8>,
    reject: bool,
    error_code: u8,
    notify: bool,
}

impl OnWriteArgs {
    pub closed spec fn spec_current(&self) -> Seq<u8> {
        self.current_data@
    }

    pub closed spec fn spec_recv(&self) -> Seq<u8> {
        self.recv_data@
    }

    pub closed spec fn spec_rejected(&self) -> bool {
        self.reject
    }

    pub closed spec fn spec_error_code(&self) -> u8 {
        self.error_code
    }

    pub closed spec fn spec_notify(&self) -> bool {
        self.notify
    }

    /// The value before the write.
    pub fn current_data(&self) -> (r: &[u8])
        ensures
            r@ == self.spec_current(),
    {
        self.current_data.as_slice()
    }

    /// The bytes the peer wrote.
    pub fn recv_data(&self) -> (r: &[u8])
        ensures
            r@ == self.spec_recv(),
    {
        self.recv_data.as_slice()
    }

    /// Refuses the write with the default error code.
    pub fn reject(&mut self)
        ensures
            final(self).spec_rejected(),
            final(self).spec_error_code() == ATT_ERR_DEFAULT_REJECT,
            final(self).spec_current() == old(self).spec_current(),
            final(self).spec_recv() == old(self).spec_recv(),
            final(self).spec_notify() == old(self).spec_notify(),
    {
        self.reject_with_error_code(ATT_ERR_DEFAULT_REJECT);
    }

    /// Refuses the write; the peer receives `error_code`.
    pub fn reject_with_error_code(&mut self, error_code: u8)
        ensures
            final(self).spec_rejected(),
            final(self).spec_error_code() == error_code,
            final(self).spec_current() == old(self).spec_current(),
            final(self).spec_recv() == old(self).spec_recv(),
            final(self).spec_notify() == old(self).spec_notify(),
    {
        self.reject = true;
        self.error_code = error_code;
    }

    /// Asks that the new value be sent to the subscribers once stored.
    pub fn notify(&mut self)
        ensures
            final(self).spec_notify(),
            final(self).spec_rejected() == old(self).spec_rejected(),
            final(self).spec_error_code() == old(self).spec_error_code(),
            final(self).spec_current() == old(self).spec_current(),
            final(self).spec_recv() == old(self).spec_recv(),
    {
        self.notify = true;
    }
}

/// A characteristic of the local GATT database.
#[derive(Debug)]
pub struct BLECharacteristic {
    uuid: BleUuid,
    properties: u16,
    handle: u16,
    value: AttValue,
    subscribed_list: Vec<(u16, u8)>,
}

fn copy_bytes(d: &[u8]) -> (r: Vec<u8>)
    ensures
        r@ == d@,
{
    let mut r: Vec<u8> = Vec::new();
    let mut k: usize = 0;
    while k < d.len()
        invariant
            0 <= k <= d@.len(),
            r@ == d@.subrange(0, k as int),
        decreases d@.len() - k,
    {
        r.push(d[k]);
        k = k + 1;
        proof {
            assert(r@ =~= d@.subrange(0, k as int));
        }
    }
    assert(d@.subrange(0, d@.len() as int) =~= d@);
    r
}

impl BLECharacteristic {
    pub closed spec fn spec_uuid(&self) -> BleUuid {
        self.uuid
    }

    pub closed spec fn spec_properties(&self) -> u16 {
        self.properties
    }

    pub closed spec fn spec_handle(&self) -> u16 {
        self.handle
    }

    pub closed spec fn spec_value(&self) -> Seq<u8> {
        self.value@
    }

    /// The subscriber list: (connection handle, subscription flags) pairs.
    pub closed spec fn subscribers(&self) -> Seq<(u16, u8)> {
        self.subscribed_list@
    }

    pub open spec fn wf(&self) -> bool {
        subscribers_wf(self.subscribers())
    }

    /// A characteristic with an empty value and no subscribers.
    pub fn new(uuid: BleUuid, properties: u16) -> (r: BLECharacteristic)
        ensures
            r.spec_uuid() == uuid,
            r.spec_properties() == properties,
            r.spec_value() == Seq::<u8>::empty(),
            r.subscribers() == Seq::<(u16, u8)>::empty(),
            r.spec_handle() == 0,
            r.wf(),
    {
        BLECharacteristic {
            uuid,
            properties,
            handle: 0,
            value: AttValue::new(),
            subscribed_list: Vec::new(),
        }
    }

    /// The characteristic's UUID.
    pub fn uuid(&self) -> (r: BleUuid)
        ensures
            r == self.spec_uuid(),
    {
        self.uuid
    }

    /// The characteristic's properties.
    pub fn properties(&self) -> (r: u16)
        ensures
            r == self.spec_properties(),
    {
        self.properties
    }

    /// The attribute handle the stack assigned.
    pub fn handle(&self) -> (r: u16)
        ensures
            r == self.spec_handle(),
    {
        self.handle
    }

    /// Records the attribute handle the stack assigned.
    pub fn set_handle(&mut self, handle: u16)
        ensures
            final(self).spec_handle() == handle,
            final(self).spec_value() == old(self).spec_value(),
            final(self).subscribers() == old(self).subscribers(),
            final(self).spec_properties() == old(self).spec_properties(),
            final(self).spec_uuid() == old(self).spec_uuid(),
    {
        self.handle = handle;
    }

    /// Replaces the stored value.
    pub fn set_value(&mut self, value: &[u8])
        ensures
            final(self).spec_value() == value@,
            final(self).spec_handle() == old(self).spec_handle(),
            final(self).subscribers() == old(self).subscribers(),
            final(self).spec_properties() == old(self).spec_properties(),
            final(self).spec_uuid() == old(self).spec_uuid(),
    {
        self.value.set_value(value);
    }

    /// The stored value.
    pub fn value(&self) -> (r: &[u8])
        ensures
            r@ == self.spec_value(),
    {
        self.value.as_slice()
    }

    /// Number of subscribed connections.
    pub fn subscribed_count(&self) -> (r: usize)
        ensures
            r == self.subscribers().len(),
    {
        self.subscribed_list.len()
    }

    /// The subscriber list.
    pub fn subscribed_list(&self) -> (r: Vec<(u16, u8)>)
        ensures
            r@ == self.subscribers(),
    {
        let mut r: Vec<(u16, u8)> = Vec::new();
        let mut k: usize = 0;
        while k < self.subscribed_list.len()
            invariant
                k <= self.subscribers().len(),
                r@ == self.subscribers().subrange(0, k as int),
            decreases self.subscribers().len() - k,
        {
            r.push(self.subscribed_list[k]);
            k = k + 1;
            proof {
                assert(r@ =~= self.subscribers().subrange(0, k as int));
            }
        }
        assert(r@ =~= self.subscribers());
        r
    }

    /// Position of the entry of connection `h`, if any.
    fn position_of(&self, h: u16) -> (r: Option<usize>)
        ensures
            r is None <==> !is_subscribed(self.subscribers(), h),
            r is Some ==> r->0 < self.subscribers().len() && self.subscribers()[r->0 as int].0 == h,
    {
        let mut k: usize = 0;
        while k < self.subscribed_list.len()
            invariant
                k <= self.subscribers().len(),
                forall|i: int| 0 <= i < k ==> (#[trigger] self.subscribers()[i]).0 != h,
            decreases self.subscribers().len() - k,
        {
            if self.subscribed_list[k].0 == h {
                return Some(k);
            }
            k = k + 1;
        }
        None
    }

    /// Applies a subscribe event of connection `conn_handle`: the connection's entry gets
    /// the requested kinds that the characteristic supports, and is removed when none
    /// remain. Returns the resulting flags.
    pub fn subscribe(&mut self, conn_handle: u16, cur_notify: bool, cur_indicate: bool) -> (r: u8)
        requires
            old(self).wf(),
        ensures
            r == sub_value(old(self).spec_properties(), cur_notify, cur_indicate),
            final(self).wf(),
            r != 0 ==> has_entry(final(self).subscribers(), conn_handle, r),
            r == 0 ==> !is_subscribed(final(self).subscribers(), conn_handle),
            forall|h: u16, f: u8|
                h != conn_handle ==> (has_entry(final(self).subscribers(), h, f) == has_entry(
                    old(self).subscribers(),
                    h,
                    f,
                )),
            final(self).spec_value() == old(self).spec_value(),
            final(self).spec_properties() == old(self).spec_properties(),
            final(self).spec_uuid() == old(self).spec_uuid(),
            final(self).spec_handle() == old(self).spec_handle(),
    {
        let n: u8 = if cur_notify && has_prop_exec(self.properties, PROP_NOTIFY) {
            SUB_NOTIFY
        } else {
            0
        };
        let i: u8 = if cur_indicate && has_prop_exec(self.properties, PROP_INDICATE) {
            SUB_INDICATE
        } else {
            0
        };
        let sub_val: u8 = n + i;
        let ghost old_s = self.subscribers();
        match self.position_of(conn_handle) {
            Some(idx) => {
                if sub_val != 0 {
                    self.subscribed_list.set(idx, (conn_handle, sub_val));
                    proof {
                        let s = self.subscribers();
                        assert(s == old_s.update(idx as int, (conn_handle, sub_val)));
                        assert(s[idx as int] == (conn_handle, sub_val));
                        assert forall|h: u16, f: u8| h != conn_handle implies (has_entry(s, h, f)
                            == has_entry(old_s, h, f)) by {
                            if has_entry(s, h, f) {
                                let j = choose|j: int| 0 <= j < s.len() && s[j] == (h, f);
                                assert(old_s[j] == (h, f));
                            }
                            if has_entry(old_s, h, f) {
                                let j = choose|j: int| 0 <= j < old_s.len() && old_s[j] == (h, f);
                                assert(s[j] == (h, f));
                            }
                        }
                    }
                } else {
                    self.subscribed_list.remove(idx);
                    proof {
                        let s = self.subscribers();
                        assert(s == old_s.remove(idx as int));
                        assert forall|j: int| 0 <= j < s.len() implies (#[trigger] s[j]).0
                            != conn_handle by {
                            if j < idx {
                                assert(s[j] == old_s[j]);
                            } else {
                                assert(s[j] == old_s[j + 1]);
                            }
                        }
                        assert forall|h: u16, f: u8| h != conn_handle implies (has_entry(s, h, f)
                            == has_entry(old_s, h, f)) by {
                            if has_entry(s, h, f) {
                                let j = choose|j: int| 0 <= j < s.len() && s[j] == (h, f);
                                if j < idx {
                                    assert(old_s[j] == (h, f));
                                } else {
                                    assert(old_s[j + 1] == (h, f));
                                }
                            }
                            if has_entry(old_s, h, f) {
                                let j = choose|j: int| 0 <= j < old_s.len() && old_s[j] == (h, f);
                                if j < idx {
                                    assert(s[j] == (h, f));
                                } else {
                                    assert(j != idx);
                                    assert(s[j - 1] == (h, f));
                                }
                            }
                        }
                        assert forall|a: int, b: int| 0 <= a < b < s.len() implies (#[trigger] s[a]).0
                            != (#[trigger] s[b]).0 by {
                            let a2 = if a < idx { a } else { a + 1 };
                            let b2 = if b < idx { b } else { b + 1 };
                            assert(s[a] == old_s[a2]);
                            assert(s[b] == old_s[b2]);
                        }
                    }
                }
            },
            None => {
                if sub_val != 0 {
                    self.subscribed_list.push((conn_handle, sub_val));
                    proof {
                        let s = self.subscribers();
                        assert(s == old_s.push((conn_handle, sub_val)));
                        assert(s[old_s.len() as int] == (conn_handle, sub_val));
                        assert forall|h: u16, f: u8| h != conn_handle implies (has_entry(s, h, f)
                            == has_entry(old_s, h, f)) by {
                            if has_entry(s, h, f) {
                                let j = choose|j: int| 0 <= j < s.len() && s[j] == (h, f);
                                assert(old_s[j] == (h, f));
                            }
                            if has_entry(old_s, h, f) {
                                let j = choose|j: int| 0 <= j < old_s.len() && old_s[j] == (h, f);
                                assert(s[j] == (h, f));
                            }
                        }
                        assert forall|a: int, b: int| 0 <= a < b < s.len() implies (#[trigger] s[a]).0
                            != (#[trigger] s[b]).0 by {
                            if b == old_s.len() {
                                assert(s[a] == old_s[a]);
                            }
                        }
                    }
                }
            },
        }
        sub_val
    }

    /// Decides a send to connection `conn_handle` with subscription flags `flag` over a
    /// link whose ATT MTU is `mtu` (see `send_decision_spec`); an indication marks the
    /// connection as waiting for its confirmation.
    pub fn send_decision(&self, conn_handle: u16, flag: u8, mtu: u16, waits: &mut IndicateWait) -> (r:
        SendDecision)
        ensures
            r == send_decision_spec(
                conn_handle,
                flag,
                self.spec_properties(),
                mtu,
                old(waits).waiting(conn_handle),
            ),
            r == SendDecision::Indicate ==> final(waits).waiting(conn_handle),
            r != SendDecision::Indicate ==> final(waits).spec_slots() == old(waits).spec_slots(),
            forall|g: u16| g != conn_handle ==> (final(waits).waiting(g) == old(waits).waiting(g)),
    {
        if conn_handle == CONN_HANDLE_NONE || mtu <= 3 || flag == 0 {
            return SendDecision::Reject(BLE_HS_EINVAL);
        }
        if flag & SUB_INDICATE != 0 && has_prop_exec(self.properties, PROP_INDICATE) {
            if waits.set_indicate_wait(conn_handle) {
                SendDecision::Indicate
            } else {
                SendDecision::Reject(BLE_HS_EBUSY)
            }
        } else if flag & SUB_NOTIFY != 0 && has_prop_exec(self.properties, PROP_NOTIFY) {
            SendDecision::Notify
        } else {
            SendDecision::Reject(BLE_HS_EINVAL)
        }
    }

    /// Decides a send of the value to one connection: its subscription flags decide, and a
    /// connection that is not subscribed is rejected.
    pub fn notify_with_decision(&self, conn_handle: u16, mtu: u16, waits: &mut IndicateWait) -> (r:
        SendDecision)
        requires
            self.wf(),
        ensures
            r == send_decision_spec(
                conn_handle,
                flags_of(self.subscribers(), conn_handle),
                self.spec_properties(),
                mtu,
                old(waits).waiting(conn_handle),
            ),
            forall|f: u8|
                has_entry(self.subscribers(), conn_handle, f) ==> r == send_decision_spec(
                    conn_handle,
                    f,
                    self.spec_properties(),
                    mtu,
                    old(waits).waiting(conn_handle),
                ),
            !is_subscribed(self.subscribers(), conn_handle) ==> r == SendDecision::Reject(
                BLE_HS_EINVAL,
            ),
            r == SendDecision::Indicate ==> final(waits).waiting(conn_handle),
            r != SendDecision::Indicate ==> final(waits).spec_slots() == old(waits).spec_slots(),
            forall|g: u16| g != conn_handle ==> (final(waits).waiting(g) == old(waits).waiting(g)),
    {
        proof {
            assert forall|f: u8| has_entry(self.subscribers(), conn_handle, f) implies flags_of(
                self.subscribers(),
                conn_handle,
            ) == f by {
                lemma_flags_of_entry(self.subscribers(), conn_handle, f);
            }
            lemma_flags_of_entry(self.subscribers(), conn_handle, 0);
        }
        match self.position_of(conn_handle) {
            Some(idx) => {
                let flag = self.subscribed_list[idx].1;
                proof {
                    assert(self.subscribers()[idx as int] == (conn_handle, flag));
                    assert(has_entry(self.subscribers(), conn_handle, flag));
                }
                self.send_decision(conn_handle, flag, mtu, waits)
            },
            None => SendDecision::Reject(BLE_HS_EINVAL),
        }
    }

    /// The arguments handed to a write callback for an incoming write of `recv`.
    pub fn write_args(&self, recv: &[u8]) -> (r: OnWriteArgs)
        ensures
            r.spec_current() == self.spec_value(),
            r.spec_recv() == recv@,
            !r.spec_rejected(),
            !r.spec_notify(),
            r.spec_error_code() == 0,
    {
        OnWriteArgs {
            current_data: copy_bytes(self.value.as_slice()),
            recv_data: copy_bytes(recv),
            reject: false,
            error_code: 0,
            notify: false,
        }
    }

    /// Completes a write after the callback ran: a rejected write leaves the value as it
    /// was and yields the callback's error code; otherwise the received bytes are stored
    /// and the status is 0. Returns the status and whether to notify the subscribers.
    pub fn finish_write(&mut self, args: &OnWriteArgs) -> (r: (u32, bool))
        ensures
            args.spec_rejected() ==> final(self).spec_value() == old(self).spec_value() && r
                == (args.spec_error_code() as u32, false),
            !args.spec_rejected() ==> final(self).spec_value() == args.spec_recv() && r == (
                0u32,
                args.spec_notify(),
            ),
            final(self).subscribers() == old(self).subscribers(),
            final(self).spec_properties() == old(self).spec_properties(),
            final(self).spec_uuid() == old(self).spec_uuid(),
    {
        if args.reject {
            return (args.error_code as u32, false);
        }
        self.value.set_value(args.recv_data.as_slice());
        (0, args.notify)
    }

    /// Whether the read callback runs for a read: only when the value is expected to fit
    /// the link's ATT MTU (less the 3-byte header), or when the request buffer already
    /// carries a packet header longer than 8 bytes.
    pub fn read_runs_callback(&self, mtu: u16, pkthdr_len: u8) -> (r: bool)
        ensures
            r == (pkthdr_len > 8 || (mtu >= 3 && self.spec_value().len() <= mtu - 3)),
    {
        pkthdr_len > 8 || (mtu >= 3 && self.value.len() <= (mtu - 3) as usize)
    }
}

/// Every sequence of subscribe events keeps the subscriber list free of entries with
/// empty flags and of duplicate connections; an event that leaves no flags removes the
/// connection's entry.
pub proof fn lemma_subscription_flags(c: BLECharacteristic, conn: u16, f: u8)
    requires
        c.wf(),
    ensures
        has_entry(c.subscribers(), conn, f) ==> f != 0,
{
    if has_entry(c.subscribers(), conn, f) {
        let j = choose|j: int| 0 <= j < c.subscribers().len() && c.subscribers()[j] == (conn, f);
        assert(c.subscribers()[j].1 != 0);
    }
}

} // verus!
