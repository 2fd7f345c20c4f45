use vstd::prelude::*;
use vstd::string::StringSliceAdditionalSpecFns;

verus! {

#[verifier::external_type_specification]
#[verifier::external_body]
pub struct ExUuidError(uuid::Error);

/// An ASCII hex digit (either case).
pub open spec fn is_hex_char(c: u8) -> bool {
    (0x30 <= c <= 0x39) || (0x41 <= c <= 0x46) || (0x61 <= c <= 0x66)
}

pub open spec fn hex_char_value(c: u8) -> int {
    if 0x30 <= c <= 0x39 {
        c - 0x30
    } else if 0x41 <= c <= 0x46 {
        c - 0x41 + 10
    } else {
        c - 0x61 + 10
    }
}

/// 32 hex digits as 16 bytes, each from a pair of digits, most significant digit first.
pub open spec fn hex32_bytes(h: Seq<u8>) -> Option<Seq<u8>> {
    if h.len() == 32 && forall|i: int| 0 <= i < 32 ==> #[trigger] is_hex_char(h[i]) {
        Some(
            Seq::new(
                16,
                |j: int| (16 * hex_char_value(h[2 * j]) + hex_char_value(h[2 * j + 1])) as u8,
            ),
        )
    } else {
        None
    }
}

/// The hyphenated form `8-4-4-4-12`: hyphens at 8, 13, 18 and 23, hex digits elsewhere.
pub open spec fn hyphenated_bytes(s: Seq<u8>) -> Option<Seq<u8>> {
    if s.len() == 36 && s[8] == 0x2d && s[13] == 0x2d && s[18] == 0x2d && s[23] == 0x2d {
        hex32_bytes(
            s.subrange(0, 8) + s.subrange(9, 13) + s.subrange(14, 18) + s.subrange(19, 23)
                + s.subrange(24, 36),
        )
    } else {
        None
    }
}

pub open spec fn ascii_lower(c: u8) -> u8 {
    if 0x41 <= c <= 0x5a {
        (c + 32) as u8
    } else {
        c
    }
}

/// The prefix `urn:uuid:`, in either case.
pub open spec fn is_urn_prefix(p: Seq<u8>) -> bool {
    p.len() == 9 && forall|i: int|
        0 <= i < 9 ==> ascii_lower(#[trigger] p[i]) == seq![
            0x75u8,
            0x72,
            0x6e,
            0x3a,
            0x75,
            0x75,
            0x69,
            0x64,
            0x3a,
        ][i]
}

/// The UUID (big-endian bytes) that a text denotes: 32 hex digits; the hyphenated form;
/// the hyphenated form in braces; or the hyphenated form after `urn:uuid:`.
pub open spec fn uuid_text_bytes(b: Seq<u8>) -> Option<Seq<u8>> {
    if b.len() == 32 {
        hex32_bytes(b)
    } else if b.len() == 36 {
        hyphenated_bytes(b)
    } else if b.len() == 38 && b[0] == 0x7b && b[37] == 0x7d {
        hyphenated_bytes(b.subrange(1, 37))
    } else if b.len() == 45 && is_urn_prefix(b.subrange(0, 9)) {
        hyphenated_bytes(b.subrange(9, 45))
    } else {
        None
    }
}

/// Relies on `uuid::Uuid::try_parse` and `Uuid::as_bytes`: accepts exactly the four text
/// shapes of `uuid_text_bytes` and hands back the UUID's bytes in big-endian order.
#[verifier::external_body]
fn try_parse_uuid_text(s: &str) -> (r: Result<[u8; 16], uuid::Error>)
    ensures
        r is Ok <==> uuid_text_bytes(s.spec_bytes()) is Some,
        r is Ok ==> uuid_text_bytes(s.spec_bytes()) == Some(r->Ok_0@),
{
    uuid::Uuid::try_parse(s).map(|u| *u.as_bytes())
}

/// A Bluetooth UUID.
#[derive(Clone, Copy, Debug)]
pub enum BleUuid {
    /// A 16-bit UUID.
    Uuid16(u16),
    /// A 32-bit UUID.
    Uuid32(u32),
    /// A 128-bit UUID, least significant byte first.
    Uuid128([u8; 16]),
}

/// The Bluetooth base UUID, least significant byte first.
pub open spec fn base_uuid() -> Seq<u8> {
    seq![0xfbu8, 0x34, 0x9b, 0x5f, 0x80, 0x00, 0x00, 0x80, 0x00, 0x10, 0x00, 0x00, 0x00, 0x00, 0x00, 0x00]
}

/// The 128-bit expansion of a 16-bit UUID: the base UUID with bytes 12..13 replaced.
pub open spec fn expand16(x: u16) -> Seq<u8> {
    base_uuid().update(12, (x % 256) as u8).update(13, (x / 256) as u8)
}

/// The 128-bit expansion of a 32-bit UUID: the base UUID with bytes 12..15 replaced.
pub open spec fn expand32(x: u32) -> Seq<u8> {
    base_uuid().update(12, (x % 256) as u8).update(13, ((x / 256) % 256) as u8).update(
        14,
        ((x / 65536) % 256) as u8,
    ).update(15, (x / 16777216) as u8)
}

impl BleUuid {
    /// The canonical 128-bit form, least significant byte first.
    pub open spec fn spec_uuid128(self) -> Seq<u8> {
        match self {
            BleUuid::Uuid16(x) => expand16(x),
            BleUuid::Uuid32(x) => expand32(x),
            BleUuid::Uuid128(a) => a@,
        }
    }

    /// Creates a UUID from a 16-bit value.
    pub fn from_uuid16(uuid: u16) -> (r: BleUuid)
        ensures
            r == BleUuid::Uuid16(uuid),
    {
        BleUuid::Uuid16(uuid)
    }

    /// Creates a UUID from a 32-bit value.
    pub fn from_uuid32(uuid: u32) -> (r: BleUuid)
        ensures
            r == BleUuid::Uuid32(uuid),
    {
        BleUuid::Uuid32(uuid)
    }

    /// Creates a UUID from 16 bytes, least significant first.
    pub fn from_uuid128(uuid: [u8; 16]) -> (r: BleUuid)
        ensures
            r == BleUuid::Uuid128(uuid),
    {
        BleUuid::Uuid128(uuid)
    }

    /// Creates a 128-bit UUID from its text form: `xxxxxxxx-xxxx-xxxx-xxxx-xxxxxxxxxxxx`,
    /// 32 plain hex digits, the hyphenated form in braces, or the hyphenated form after
    /// `urn:uuid:`. The text is most significant byte first; the UUID stores the reverse.
    pub fn from_uuid128_string(uuid: &str) -> (r: Result<BleUuid, uuid::Error>)
        ensures
            r is Ok <==> uuid_text_bytes(uuid.spec_bytes()) is Some,
            r is Ok ==> (r->Ok_0 is Uuid128 && r->Ok_0.spec_uuid128() == uuid_text_bytes(
                uuid.spec_bytes(),
            )->0.reverse()),
    {
        match try_parse_uuid_text(uuid) {
            Ok(be) => {
                let mut le: [u8; 16] = [0u8; 16];
                let mut i: usize = 0;
                while i < 16
                    invariant
                        0 <= i <= 16,
                        forall|j: int| 0 <= j < i ==> le@[j] == be@[15 - j],
                    decreases 16 - i,
                {
                    le[i] = be[15 - i];
                    i = i + 1;
                }
                proof {
                    assert(le@ =~= be@.reverse());
                }
                Ok(BleUuid::Uuid128(le))
            },
            Err(e) => Err(e),
        }
    }

    /// The canonical 128-bit form, least significant byte first.
    pub fn as_uuid128_array(&self) -> (r: [u8; 16])
        ensures
            r@ == self.spec_uuid128(),
    {
        let mut r: [u8; 16] = [
            0xfb, 0x34, 0x9b, 0x5f, 0x80, 0x00, 0x00, 0x80, 0x00, 0x10, 0x00, 0x00, 0x00, 0x00, 0x00,
            0x00,
        ];
        assert(r@ =~= base_uuid());
        match self {
            BleUuid::Uuid16(x) => {
                r[12] = (*x % 256) as u8;
                r[13] = (*x / 256) as u8;
                assert(r@ =~= expand16(*x));
            },
            BleUuid::Uuid32(x) => {
                r[12] = (*x % 256) as u8;
                r[13] = ((*x / 256) % 256) as u8;
                r[14] = ((*x / 65536) % 256) as u8;
                r[15] = (*x / 16777216) as u8;
                assert(r@ =~= expand32(*x));
            },
            BleUuid::Uuid128(a) => {
                r = *a;
            },
        }
        r
    }
}

impl PartialEq for BleUuid {
    fn eq(&self, other: &BleUuid) -> (r: bool)
        ensures
            r == (self.spec_uuid128() == other.spec_uuid128()),
    {
        let a = self.as_uuid128_array();
        let b = other.as_uuid128_array();
        let mut i: usize = 0;
        while i < 16
            invariant
                0 <= i <= 16,
                a@ == self.spec_uuid128(),
                b@ == other.spec_uuid128(),
                forall|j: int| 0 <= j < i ==> a@[j] == b@[j],
            decreases 16 - i,
        {
            if a[i] != b[i] {
                return false;
            }
            i = i + 1;
        }
        assert(a@ =~= b@);
        true
    }
}

impl vstd::std_specs::cmp::PartialEqSpecImpl for BleUuid {
    open spec fn obeys_eq_spec() -> bool {
        true
    }

    open spec fn eq_spec(&self, other: &BleUuid) -> bool {
        self.spec_uuid128() == other.spec_uuid128()
    }
}

/// Every 16-bit UUID compares equal to its 128-bit expansion over the Bluetooth base UUID.
pub proof fn lemma_uuid16_equals_expansion(x: u16, a: [u8; 16])
    requires
        a@ == expand16(x),
    ensures
        BleUuid::Uuid16(x).spec_uuid128() == BleUuid::Uuid128(a).spec_uuid128(),
{
}

/// Every 32-bit UUID compares equal to its 128-bit expansion over the Bluetooth base UUID.
pub proof fn lemma_uuid32_equals_expansion(x: u32, a: [u8; 16])
    requires
        a@ == expand32(x),
    ensures
        BleUuid::Uuid32(x).spec_uuid128() == BleUuid::Uuid128(a).spec_uuid128(),
{
}

/// A 16-bit and a 32-bit UUID of the same value are the same UUID.
pub proof fn lemma_uuid16_equals_uuid32(x: u16)
    ensures
        BleUuid::Uuid16(x).spec_uuid128() == BleUuid::Uuid32(x as u32).spec_uuid128(),
{
    assert(expand16(x) =~= expand32(x as u32));
}

} // verus!
