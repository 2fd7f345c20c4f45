use vstd::prelude::*;
use crate::ble_uuid::BleUuid;

verus! {

/// AD type: flags.
pub const ADV_TYPE_FLAGS: u8 = 0x01;
/// AD type: incomplete list of 16-bit service UUIDs.
pub const ADV_TYPE_INCOMP_UUIDS16: u8 = 0x02;
/// AD type: complete list of 16-bit service UUIDs.
pub const ADV_TYPE_COMP_UUIDS16: u8 = 0x03;
/// AD type: incomplete list of 32-bit service UUIDs.
pub const ADV_TYPE_INCOMP_UUIDS32: u8 = 0x04;
/// AD type: complete list of 32-bit service UUIDs.
pub const ADV_TYPE_COMP_UUIDS32: u8 = 0x05;
/// AD type: incomplete list of 128-bit service UUIDs.
pub const ADV_TYPE_INCOMP_UUIDS128: u8 = 0x06;
/// AD type: complete list of 128-bit service UUIDs.
pub const ADV_TYPE_COMP_UUIDS128: u8 = 0x07;
/// AD type: shortened local name.
pub const ADV_TYPE_INCOMP_NAME: u8 = 0x08;
/// AD type: complete local name.
pub const ADV_TYPE_COMP_NAME: u8 = 0x09;
/// AD type: transmit power level.
pub const ADV_TYPE_TX_PWR_LVL: u8 = 0x0a;
/// AD type: service data with a 16-bit UUID.
pub const ADV_TYPE_SVC_DATA_UUID16: u8 = 0x16;
/// AD type: appearance.
pub const ADV_TYPE_APPEARANCE: u8 = 0x19;
/// AD type: service data with a 32-bit UUID.
pub const ADV_TYPE_SVC_DATA_UUID32: u8 = 0x20;
/// AD type: service data with a 128-bit UUID.
pub const ADV_TYPE_SVC_DATA_UUID128: u8 = 0x21;
/// AD type: manufacturer specific data.
pub const ADV_TYPE_MFG_DATA: u8 = 0xff;

/// Bits that the flags record may carry (limited/general discoverable, BR/EDR
/// unsupported, simultaneous controller/host).
pub const ADV_FLAG_MASK: u8 = 0x1f;

/// One AD structure: its type and its payload.
#[derive(Debug)]
pub struct AdData {
    pub ty: u8,
    pub data: Vec<u8>,
}

impl View for AdData {
    type V = (u8, Seq<u8>);

    open spec fn view(&self) -> (u8, Seq<u8>) {
        (self.ty, self.data@)
    }
}

pub open spec fn ad_view(v: Seq<AdData>) -> Seq<(u8, Seq<u8>)> {
    v.map_values(|a: AdData| a@)
}

/// The AD structures of a payload, in order: each is `[len][type][len - 1 bytes]`; a zero
/// length, or a record that runs past the end, ends the sequence.
pub open spec fn ad_records(p: Seq<u8>) -> Seq<(u8, Seq<u8>)>
    decreases p.len(),
{
    if p.len() == 0 {
        Seq::empty()
    } else {
        let len = p[0] as int;
        if len == 0 || 1 + len > p.len() {
            Seq::empty()
        } else {
            seq![(p[1], p.subrange(2, len + 1))] + ad_records(p.subrange(len + 1, p.len() as int))
        }
    }
}

/// The bytes of one AD structure.
pub open spec fn ad_encode_one(ty: u8, data: Seq<u8>) -> Seq<u8> {
    seq![(data.len() + 1) as u8, ty] + data
}

/// The bytes of a sequence of AD structures.
pub open spec fn ad_encode(rs: Seq<(u8, Seq<u8>)>) -> Seq<u8>
    decreases rs.len(),
{
    if rs.len() == 0 {
        Seq::empty()
    } else {
        ad_encode_one(rs[0].0, rs[0].1) + ad_encode(rs.drop_first())
    }
}

/// Every payload fits in one length byte together with its type byte.
pub open spec fn ad_encodable(rs: Seq<(u8, Seq<u8>)>) -> bool {
    forall|i: int| 0 <= i < rs.len() ==> #[trigger] rs[i].1.len() <= 254
}

/// Encoding AD structures and decoding the bytes gives back the same (type, data) pairs
/// in the same order.
pub proof fn lemma_ad_round_trip(rs: Seq<(u8, Seq<u8>)>)
    requires
        ad_encodable(rs),
    ensures
        ad_records(ad_encode(rs)) == rs,
    decreases rs.len(),
{
    if rs.len() > 0 {
        let rest = rs.drop_first();
        assert(ad_encodable(rest)) by {
            assert forall|i: int| 0 <= i < rest.len() implies #[trigger] rest[i].1.len() <= 254 by {
                assert(rest[i] == rs[i + 1]);
            }
        }
        lemma_ad_round_trip(rest);
        let p = ad_encode(rs);
        let d = rs[0].1;
        assert(rs[0].1.len() <= 254);
        let one = ad_encode_one(rs[0].0, d);
        assert(p == one + ad_encode(rest));
        assert(p[0] as int == d.len() + 1);
        assert(p.subrange(2, d.len() as int + 2) =~= d);
        assert(p.subrange(d.len() as int + 2, p.len() as int) =~= ad_encode(rest));
        assert(seq![(p[1], d)] + rest =~= rs);
    }
}

/// A zero length byte ends the decoding, whatever follows it.
pub proof fn lemma_ad_zero_length_stops(prefix: Seq<(u8, Seq<u8>)>, rest: Seq<u8>)
    requires
        ad_encodable(prefix),
    ensures
        ad_records(ad_encode(prefix) + seq![0u8] + rest) == prefix,
    decreases prefix.len(),
{
    let z = seq![0u8] + rest;
    if prefix.len() == 0 {
        assert(ad_encode(prefix) + seq![0u8] + rest =~= z);
    } else {
        let tail = prefix.drop_first();
        assert(ad_encodable(tail)) by {
            assert forall|i: int| 0 <= i < tail.len() implies #[trigger] tail[i].1.len() <= 254 by {
                assert(tail[i] == prefix[i + 1]);
            }
        }
        lemma_ad_zero_length_stops(tail, rest);
        let d = prefix[0].1;
        assert(prefix[0].1.len() <= 254);
        let p = ad_encode(prefix) + seq![0u8] + rest;
        let one = ad_encode_one(prefix[0].0, d);
        assert(p =~= one + (ad_encode(tail) + seq![0u8] + rest));
        assert(p.subrange(2, d.len() as int + 2) =~= d);
        assert(p.subrange(d.len() as int + 2, p.len() as int) =~= ad_encode(tail) + seq![0u8] + rest);
        assert(seq![(p[1], d)] + tail =~= prefix);
    }
}

/// Decodes a payload into its AD structures.
pub fn decode_ad(p: &[u8]) -> (r: Vec<AdData>)
    ensures
        ad_view(r@) == ad_records(p@),
{
    let mut r: Vec<AdData> = Vec::new();
    let mut off: usize = 0;
    let n = p.len();
    proof {
        assert(p@.subrange(0, n as int) =~= p@);
        assert(ad_view(r@) =~= Seq::<(u8, Seq<u8>)>::empty());
        assert(ad_view(r@) + ad_records(p@) =~= ad_records(p@));
    }
    while off < n
        invariant
            n == p@.len(),
            off <= n,
            ad_view(r@) + ad_records(p@.subrange(off as int, n as int)) == ad_records(p@),
        decreases n - off,
    {
        let rest = Ghost(p@.subrange(off as int, n as int));
        let len = p[off] as usize;
        if len == 0 || len > n - off - 1 {
            proof {
                assert(ad_records(rest@) == Seq::<(u8, Seq<u8>)>::empty());
                assert(ad_view(r@) + Seq::<(u8, Seq<u8>)>::empty() =~= ad_view(r@));
            }
            return r;
        }
        let ty = p[off + 1];
        let mut data: Vec<u8> = Vec::new();
        let mut k: usize = off + 2;
        while k < off + len + 1
            invariant
                n == p@.len(),
                off + len + 1 <= n,
                off + 2 <= k <= off + len + 1,
                data@ == p@.subrange(off + 2, k as int),
            decreases off + len + 1 - k,
        {
            data.push(p[k]);
            k = k + 1;
            proof {
                assert(data@ =~= p@.subrange(off + 2, k as int));
            }
        }
        let ghost old_r = r@;
        let item = AdData { ty, data };
        r.push(item);
        proof {
            assert(rest@.subrange(2, len + 1) =~= p@.subrange(off + 2, off + len + 1));
            assert(rest@.subrange(len + 1, rest@.len() as int) =~= p@.subrange(
                off + len + 1,
                n as int,
            ));
            assert(ad_view(r@) =~= ad_view(old_r).push(item@));
            assert(ad_view(r@) + ad_records(p@.subrange(off + len + 1, n as int)) =~= ad_view(old_r)
                + ad_records(rest@));
        }
        off = off + len + 1;
    }
    proof {
        assert(ad_view(r@) + Seq::<(u8, Seq<u8>)>::empty() =~= ad_view(r@));
    }
    r
}

/// The first record whose type is `a` or `b`.
pub open spec fn first_of(rs: Seq<(u8, Seq<u8>)>, a: u8, b: u8) -> Option<(u8, Seq<u8>)>
    decreases rs.len(),
{
    if rs.len() == 0 {
        None
    } else if rs[0].0 == a || rs[0].0 == b {
        Some(rs[0])
    } else {
        first_of(rs.drop_first(), a, b)
    }
}

/// The payload of the first record whose type is `a` or `b` (empty if none).
pub open spec fn first_data(rs: Seq<(u8, Seq<u8>)>, a: u8, b: u8) -> Seq<u8> {
    match first_of(rs, a, b) {
        Some((_, d)) => d,
        None => Seq::empty(),
    }
}

pub open spec fn le16(lo: u8, hi: u8) -> u16 {
    (lo as int + 256 * hi as int) as u16
}

pub open spec fn le32(d: Seq<u8>) -> u32 {
    (d[0] as int + 256 * d[1] as int + 65536 * d[2] as int + 16777216 * d[3] as int) as u32
}

/// 16-bit UUIDs packed two bytes each, least significant first; a trailing odd byte is
/// ignored.
pub open spec fn uuids16_in(d: Seq<u8>) -> Seq<BleUuid>
    decreases d.len(),
{
    if d.len() < 2 {
        Seq::empty()
    } else {
        seq![BleUuid::Uuid16(le16(d[0], d[1]))] + uuids16_in(d.subrange(2, d.len() as int))
    }
}

/// 32-bit UUIDs packed four bytes each; trailing bytes are ignored.
pub open spec fn uuids32_in(d: Seq<u8>) -> Seq<BleUuid>
    decreases d.len(),
{
    if d.len() < 4 {
        Seq::empty()
    } else {
        seq![BleUuid::Uuid32(le32(d))] + uuids32_in(d.subrange(4, d.len() as int))
    }
}

/// 128-bit UUIDs packed sixteen bytes each; trailing bytes are ignored.
pub open spec fn uuids128_in(d: Seq<u8>) -> Seq<BleUuid>
    decreases d.len(),
{
    if d.len() < 16 {
        Seq::empty()
    } else {
        seq![BleUuid::Uuid128(uuid128_of(d.subrange(0, 16)))] + uuids128_in(
            d.subrange(16, d.len() as int),
        )
    }
}

/// The service UUIDs that one record lists.
pub open spec fn uuids_in_record(ty: u8, d: Seq<u8>) -> Seq<BleUuid> {
    if ty == ADV_TYPE_INCOMP_UUIDS16 || ty == ADV_TYPE_COMP_UUIDS16 {
        uuids16_in(d)
    } else if ty == ADV_TYPE_INCOMP_UUIDS32 || ty == ADV_TYPE_COMP_UUIDS32 {
        uuids32_in(d)
    } else if ty == ADV_TYPE_INCOMP_UUIDS128 || ty == ADV_TYPE_COMP_UUIDS128 {
        uuids128_in(d)
    } else {
        Seq::empty()
    }
}

/// The array of a 16-byte sequence.
pub open spec fn uuid128_of(d: Seq<u8>) -> [u8; 16] {
    choose|a: [u8; 16]| a@ == d
}

/// All service UUIDs that the records list, in order.
pub open spec fn service_uuids_of(rs: Seq<(u8, Seq<u8>)>) -> Seq<BleUuid>
    decreases rs.len(),
{
    if rs.len() == 0 {
        Seq::empty()
    } else {
        uuids_in_record(rs[0].0, rs[0].1) + service_uuids_of(rs.drop_first())
    }
}

/// Length of the UUID that a service-data record of type `ty` starts with (0: not one).
pub open spec fn svc_data_uuid_len(ty: u8) -> int {
    if ty == ADV_TYPE_SVC_DATA_UUID16 {
        2
    } else if ty == ADV_TYPE_SVC_DATA_UUID32 {
        4
    } else if ty == ADV_TYPE_SVC_DATA_UUID128 {
        16
    } else {
        0
    }
}

/// The first service-data record long enough to hold its UUID.
pub open spec fn first_service_data(rs: Seq<(u8, Seq<u8>)>) -> Option<(u8, Seq<u8>)>
    decreases rs.len(),
{
    if rs.len() == 0 {
        None
    } else if svc_data_uuid_len(rs[0].0) > 0 && rs[0].1.len() >= svc_data_uuid_len(rs[0].0) {
        Some(rs[0])
    } else {
        first_service_data(rs.drop_first())
    }
}

/// The UUID at the start of a service-data record.
pub open spec fn svc_data_uuid(ty: u8, d: Seq<u8>) -> BleUuid {
    if ty == ADV_TYPE_SVC_DATA_UUID16 {
        BleUuid::Uuid16(le16(d[0], d[1]))
    } else if ty == ADV_TYPE_SVC_DATA_UUID32 {
        BleUuid::Uuid32(le32(d))
    } else {
        BleUuid::Uuid128(uuid128_of(d.subrange(0, 16)))
    }
}

/// Service data found in an advertisement: a UUID and the bytes after it.
#[derive(Debug)]
pub struct BLEServiceData {
    pub uuid: BleUuid,
    pub service_data: Vec<u8>,
}

impl BLEServiceData {
    /// The service UUID.
    pub fn uuid(&self) -> (r: BleUuid)
        ensures
            r == self.uuid,
    {
        self.uuid
    }

    /// The data after the UUID.
    pub fn data(&self) -> (r: &[u8])
        ensures
            r@ == self.service_data@,
    {
        self.service_data.as_slice()
    }
}

/// Manufacturer specific data: a company identifier and the bytes after it.
#[derive(Debug)]
pub struct ManufactureData {
    pub company_identifier: u16,
    pub payload: Vec<u8>,
}

fn copy_range(d: &[u8], from: usize, to: usize) -> (r: Vec<u8>)
    requires
        from <= to <= d@.len(),
    ensures
        r@ == d@.subrange(from as int, to as int),
{
    let mut r: Vec<u8> = Vec::new();
    let mut k: usize = from;
    while k < to
        invariant
            from <= k <= to <= d@.len(),
            r@ == d@.subrange(from as int, k as int),
        decreases to - k,
    {
        r.push(d[k]);
        k = k + 1;
        proof {
            assert(r@ =~= d@.subrange(from as int, k as int));
        }
    }
    r
}

fn array16_at(d: &[u8], from: usize) -> (r: [u8; 16])
    requires
        from + 16 <= d@.len(),
    ensures
        r@ == d@.subrange(from as int, from + 16),
{
    let mut r: [u8; 16] = [0u8; 16];
    let mut k: usize = 0;
    let n = d.len();
    while k < 16
        invariant
            from + 16 <= d@.len(),
            n == d@.len(),
            0 <= k <= 16,
            forall|j: int| 0 <= j < k ==> r@[j] == d@[from + j],
        decreases 16 - k,
    {
        r[k] = d[from + k];
        k = k + 1;
    }
    assert(r@ =~= d@.subrange(from as int, from + 16));
    r
}

fn read_le32(d: &[u8], from: usize) -> (r: u32)
    requires
        from + 4 <= d@.len(),
    ensures
        r == le32(d@.subrange(from as int, from + 4)),
{
    let r = d[from] as u32 + 256 * (d[from + 1] as u32) + 65536 * (d[from + 2] as u32)
        + 16777216 * (d[from + 3] as u32);
    r
}

fn push_record_uuids(out: &mut Vec<BleUuid>, ty: u8, d: &[u8])
    ensures
        final(out)@ == old(out)@ + uuids_in_record(ty, d@),
{
    let n = d.len();
    if ty == ADV_TYPE_INCOMP_UUIDS16 || ty == ADV_TYPE_COMP_UUIDS16 {
        let mut j: usize = 0;
        proof {
            assert(d@.subrange(0, n as int) =~= d@);
        }
        while 2 <= n - j
            invariant
                n == d@.len(),
                j <= n,
                out@ + uuids16_in(d@.subrange(j as int, n as int)) == old(out)@ + uuids16_in(d@),
            decreases n - j,
        {
            let ghost tail = d@.subrange(j as int, n as int);
            let ghost before = out@;
            out.push(BleUuid::Uuid16((d[j] as u16) + 256 * (d[j + 1] as u16)));
            proof {
                assert(tail.subrange(2, tail.len() as int) =~= d@.subrange(j + 2, n as int));
                assert(out@ + uuids16_in(d@.subrange(j + 2, n as int)) =~= before + uuids16_in(tail));
            }
            j = j + 2;
        }
        proof {
            assert(uuids16_in(d@.subrange(j as int, n as int)) =~= Seq::<BleUuid>::empty());
            assert(out@ + Seq::<BleUuid>::empty() =~= out@);
        }
    } else if ty == ADV_TYPE_INCOMP_UUIDS32 || ty == ADV_TYPE_COMP_UUIDS32 {
        let mut j: usize = 0;
        proof {
            assert(d@.subrange(0, n as int) =~= d@);
        }
        while 4 <= n - j
            invariant
                n == d@.len(),
                j <= n,
                out@ + uuids32_in(d@.subrange(j as int, n as int)) == old(out)@ + uuids32_in(d@),
            decreases n - j,
        {
            let ghost tail = d@.subrange(j as int, n as int);
            let ghost before = out@;
            let v = read_le32(d, j);
            proof {
                assert(d@.subrange(j as int, j + 4) =~= tail.subrange(0, 4));
            }
            out.push(BleUuid::Uuid32(v));
            proof {
                assert(tail.subrange(4, tail.len() as int) =~= d@.subrange(j + 4, n as int));
                assert(out@ + uuids32_in(d@.subrange(j + 4, n as int)) =~= before + uuids32_in(tail));
            }
            j = j + 4;
        }
        proof {
            assert(uuids32_in(d@.subrange(j as int, n as int)) =~= Seq::<BleUuid>::empty());
            assert(out@ + Seq::<BleUuid>::empty() =~= out@);
        }
    } else if ty == ADV_TYPE_INCOMP_UUIDS128 || ty == ADV_TYPE_COMP_UUIDS128 {
        let mut j: usize = 0;
        proof {
            assert(d@.subrange(0, n as int) =~= d@);
        }
        while 16 <= n - j
            invariant
                n == d@.len(),
                j <= n,
                out@ + uuids128_in(d@.subrange(j as int, n as int)) == old(out)@ + uuids128_in(d@),
            decreases n - j,
        {
            let ghost tail = d@.subrange(j as int, n as int);
            let ghost before = out@;
            let a = array16_at(d, j);
            proof {
                assert(tail.subrange(0, 16) =~= d@.subrange(j as int, j + 16));
                assert(uuid128_of(tail.subrange(0, 16))@ == tail.subrange(0, 16));
                assert(a@ =~= uuid128_of(tail.subrange(0, 16))@);
                assert(a == uuid128_of(tail.subrange(0, 16)));
            }
            out.push(BleUuid::Uuid128(a));
            proof {
                assert(tail.subrange(16, tail.len() as int) =~= d@.subrange(j + 16, n as int));
                assert(out@ + uuids128_in(d@.subrange(j + 16, n as int)) =~= before + uuids128_in(
                    tail,
                ));
            }
            j = j + 16;
        }
        proof {
            assert(uuids128_in(d@.subrange(j as int, n as int)) =~= Seq::<BleUuid>::empty());
            assert(out@ + Seq::<BleUuid>::empty() =~= out@);
        }
    } else {
        assert(old(out)@ + Seq::<BleUuid>::empty() =~= old(out)@);
    }
}

/// Index of the first record whose type is `a` or `b`.
fn find_first(rs: &Vec<AdData>, a: u8, b: u8) -> (r: Option<usize>)
    ensures
        r is None <==> first_of(ad_view(rs@), a, b) is None,
        r is Some ==> r->0 < rs@.len() && first_of(ad_view(rs@), a, b) == Some(rs@[r->0 as int]@),
{
    let mut i: usize = 0;
    proof {
        lemma_ad_view_full(rs@);
    }
    while i < rs.len()
        invariant
            0 <= i <= rs@.len(),
            first_of(ad_view(rs@), a, b) == first_of(ad_view(rs@).subrange(i as int, rs@.len() as int), a, b),
        decreases rs@.len() - i,
    {
        let ghost tail = ad_view(rs@).subrange(i as int, rs@.len() as int);
        proof {
            assert(tail.drop_first() =~= ad_view(rs@).subrange(i + 1, rs@.len() as int));
        }
        if rs[i].ty == a || rs[i].ty == b {
            return Some(i);
        }
        i = i + 1;
    }
    None
}

proof fn lemma_ad_view_full(rs: Seq<AdData>)
    ensures
        ad_view(rs).subrange(0, rs.len() as int) == ad_view(rs),
{
    assert(ad_view(rs).subrange(0, rs.len() as int) =~= ad_view(rs));
}

/// An advertisement or scan-response payload.
#[derive(Debug)]
pub struct BLEAdvertisedData {
    payload: Vec<u8>,
}

impl BLEAdvertisedData {
    /// The raw payload bytes.
    pub closed spec fn spec_payload(&self) -> Seq<u8> {
        self.payload@
    }

    /// The AD structures of the payload.
    pub open spec fn records(&self) -> Seq<(u8, Seq<u8>)> {
        ad_records(self.spec_payload())
    }

    /// Wraps a payload.
    pub fn new(payload: Vec<u8>) -> (r: BLEAdvertisedData)
        ensures
            r.spec_payload() == payload@,
    {
        BLEAdvertisedData { payload }
    }

    /// The raw payload bytes.
    pub fn payload(&self) -> (r: &[u8])
        ensures
            r@ == self.spec_payload(),
    {
        self.payload.as_slice()
    }

    /// A copy that owns its bytes.
    pub fn clone(&self) -> (r: BLEAdvertisedData)
        ensures
            r.spec_payload() == self.spec_payload(),
    {
        let p = self.payload.as_slice();
        BLEAdvertisedData { payload: copy_range(p, 0, p.len()) }
    }

    /// The AD structures of the payload, in order.
    pub fn decode(&self) -> (r: Vec<AdData>)
        ensures
            ad_view(r@) == self.records(),
    {
        decode_ad(self.payload.as_slice())
    }

    /// The advertisement flags: the first byte of the first flags record, when it holds
    /// only known flag bits.
    pub fn adv_flags(&self) -> (r: Option<u8>)
        ensures
            r == (match first_of(self.records(), ADV_TYPE_FLAGS, ADV_TYPE_FLAGS) {
                Some(rec) => if rec.1.len() > 0 && rec.1[0] <= ADV_FLAG_MASK {
                    Some(rec.1[0])
                } else {
                    None
                },
                None => None,
            }),
    {
        let rs = self.decode();
        match find_first(&rs, ADV_TYPE_FLAGS, ADV_TYPE_FLAGS) {
            Some(i) => {
                let d = &rs[i].data;
                if d.len() > 0 && d[0] <= ADV_FLAG_MASK {
                    Some(d[0])
                } else {
                    None
                }
            },
            None => None,
        }
    }

    /// The local name (complete or shortened), from the first record that holds one.
    pub fn name(&self) -> (r: Option<Vec<u8>>)
        ensures
            r is Some <==> first_of(self.records(), ADV_TYPE_COMP_NAME, ADV_TYPE_INCOMP_NAME) is Some,
            r is Some ==> r->0@ == first_data(self.records(), ADV_TYPE_COMP_NAME, ADV_TYPE_INCOMP_NAME),
    {
        let rs = self.decode();
        match find_first(&rs, ADV_TYPE_COMP_NAME, ADV_TYPE_INCOMP_NAME) {
            Some(i) => {
                let d = rs[i].data.as_slice();
                Some(copy_range(d, 0, d.len()))
            },
            None => None,
        }
    }

    /// The transmit power level: the first byte of the first such record.
    pub fn tx_power(&self) -> (r: Option<u8>)
        ensures
            r == (match first_of(self.records(), ADV_TYPE_TX_PWR_LVL, ADV_TYPE_TX_PWR_LVL) {
                Some(rec) => if rec.1.len() > 0 {
                    Some(rec.1[0])
                } else {
                    None
                },
                None => None,
            }),
    {
        let rs = self.decode();
        match find_first(&rs, ADV_TYPE_TX_PWR_LVL, ADV_TYPE_TX_PWR_LVL) {
            Some(i) => {
                if rs[i].data.len() > 0 {
                    Some(rs[i].data[0])
                } else {
                    None
                }
            },
            None => None,
        }
    }

    /// Manufacturer data from the first manufacturer record, if it holds a company
    /// identifier.
    pub fn manufacture_data(&self) -> (r: Option<ManufactureData>)
        ensures
            r is Some <==> (first_of(self.records(), ADV_TYPE_MFG_DATA, ADV_TYPE_MFG_DATA) is Some
                && first_data(self.records(), ADV_TYPE_MFG_DATA, ADV_TYPE_MFG_DATA).len() >= 2),
            r is Some ==> ({
                let d = first_data(self.records(), ADV_TYPE_MFG_DATA, ADV_TYPE_MFG_DATA);
                &&& r->0.company_identifier == le16(d[0], d[1])
                &&& r->0.payload@ == d.subrange(2, d.len() as int)
            }),
    {
        let rs = self.decode();
        match find_first(&rs, ADV_TYPE_MFG_DATA, ADV_TYPE_MFG_DATA) {
            Some(i) => {
                let d = rs[i].data.as_slice();
                if d.len() < 2 {
                    return None;
                }
                let company_identifier = (d[0] as u16) + 256 * (d[1] as u16);
                Some(ManufactureData { company_identifier, payload: copy_range(d, 2, d.len()) })
            },
            None => None,
        }
    }

    /// Service data from the first service-data record long enough to hold its UUID.
    pub fn service_data(&self) -> (r: Option<BLEServiceData>)
        ensures
            r is Some <==> first_service_data(self.records()) is Some,
            r is Some ==> ({
                let rec = first_service_data(self.records())->0;
                &&& r->0.uuid == svc_data_uuid(rec.0, rec.1)
                &&& r->0.service_data@ == rec.1.subrange(svc_data_uuid_len(rec.0), rec.1.len() as int)
            }),
    {
        let rs = self.decode();
        let mut i: usize = 0;
        proof {
            lemma_ad_view_full(rs@);
        }
        while i < rs.len()
            invariant
                0 <= i <= rs@.len(),
                first_service_data(self.records()) == first_service_data(
                    ad_view(rs@).subrange(i as int, rs@.len() as int),
                ),
            decreases rs@.len() - i,
        {
            let ghost tail = ad_view(rs@).subrange(i as int, rs@.len() as int);
            proof {
                assert(tail.drop_first() =~= ad_view(rs@).subrange(i + 1, rs@.len() as int));
            }
            let ty = rs[i].ty;
            let d = rs[i].data.as_slice();
            if ty == ADV_TYPE_SVC_DATA_UUID16 && d.len() >= 2 {
                let uuid = BleUuid::Uuid16((d[0] as u16) + 256 * (d[1] as u16));
                return Some(BLEServiceData { uuid, service_data: copy_range(d, 2, d.len()) });
            } else if ty == ADV_TYPE_SVC_DATA_UUID32 && d.len() >= 4 {
                let uuid = BleUuid::Uuid32(read_le32(d, 0));
                proof {
                    assert(d@.subrange(0, 4) =~= d@.subrange(0, 4));
                }
                return Some(BLEServiceData { uuid, service_data: copy_range(d, 4, d.len()) });
            } else if ty == ADV_TYPE_SVC_DATA_UUID128 && d.len() >= 16 {
                let a = array16_at(d, 0);
                proof {
                    assert(uuid128_of(d@.subrange(0, 16))@ == d@.subrange(0, 16));
                    assert(a@ == uuid128_of(d@.subrange(0, 16))@);
                    assert(a == uuid128_of(d@.subrange(0, 16)));
                }
                return Some(
                    BLEServiceData { uuid: BleUuid::Uuid128(a), service_data: copy_range(d, 16, d.len()) },
                );
            }
            i = i + 1;
        }
        None
    }

    /// All advertised service UUIDs, in order (16-, 32- and 128-bit forms intermixed).
    pub fn service_uuids(&self) -> (r: Vec<BleUuid>)
        ensures
            r@ == service_uuids_of(self.records()),
    {
        let rs = self.decode();
        let mut out: Vec<BleUuid> = Vec::new();
        let mut i: usize = 0;
        proof {
            lemma_ad_view_full(rs@);
            assert(out@ + service_uuids_of(ad_view(rs@)) =~= service_uuids_of(ad_view(rs@)));
        }
        while i < rs.len()
            invariant
                0 <= i <= rs@.len(),
                ad_view(rs@) == self.records(),
                out@ + service_uuids_of(ad_view(rs@).subrange(i as int, rs@.len() as int))
                    == service_uuids_of(self.records()),
            decreases rs@.len() - i,
        {
            let ghost tail = ad_view(rs@).subrange(i as int, rs@.len() as int);
            proof {
                assert(tail.drop_first() =~= ad_view(rs@).subrange(i + 1, rs@.len() as int));
            }
            let ghost before = out@;
            push_record_uuids(&mut out, rs[i].ty, rs[i].data.as_slice());
            proof {
                assert(out@ + service_uuids_of(tail.drop_first()) =~= before + service_uuids_of(
                    tail,
                ));
            }
            i = i + 1;
        }
        proof {
            assert(ad_view(rs@).subrange(rs@.len() as int, rs@.len() as int) =~= Seq::<
                (u8, Seq<u8>),
            >::empty());
            assert(out@ + Seq::<BleUuid>::empty() =~= out@);
        }
        out
    }

    /// Whether the advertisement lists a service equal to `uuid` (compared in 128-bit form).
    pub fn is_advertising_service(&self, uuid: &BleUuid) -> (r: bool)
        ensures
            r == exists|k: int|
                0 <= k < service_uuids_of(self.records()).len()
                    && (#[trigger] service_uuids_of(self.records())[k]).spec_uuid128()
                    == uuid.spec_uuid128(),
    {
        let all = self.service_uuids();
        let mut k: usize = 0;
        while k < all.len()
            invariant
                0 <= k <= all@.len(),
                all@ == service_uuids_of(self.records()),
                forall|j: int| 0 <= j < k ==> all@[j].spec_uuid128() != uuid.spec_uuid128(),
            decreases all@.len() - k,
        {
            if all[k] == *uuid {
                return true;
            }
            k = k + 1;
        }
        false
    }
}

} // verus!
