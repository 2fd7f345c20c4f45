use vstd::prelude::*;
use vstd::string::StringSliceAdditionalSpecFns;

verus! {

/// Bluetooth device address type.
#[derive(Clone, Copy, PartialEq, Eq, Structural, Debug)]
pub enum BLEAddressType {
    Public,
    Random,
    PublicID,
    RandomID,
}

/// A 6-byte link-layer address with its type.
///
/// The bytes are kept in wire order (least significant first). Two addresses are equal
/// when both their bytes and their types are equal.
#[derive(Clone, Copy, Debug)]
pub struct BLEAddress {
    val: [u8; 6],
    addr_type: BLEAddressType,
}

/// State of the address text parser after a prefix of the input.
pub struct AddrParseState {
    /// Completed parts, in text order.
    pub done: Seq<u8>,
    /// Value of the current part, capped at 256.
    pub cur: int,
    /// Number of digits in the current part.
    pub digits: nat,
    /// False once the input can no longer be an address.
    pub ok: bool,
}

pub open spec fn is_separator(c: u8) -> bool {
    c == 0x3a || c == 0x2d
}

pub open spec fn is_hex_digit(c: u8) -> bool {
    (0x30 <= c <= 0x39) || (0x41 <= c <= 0x46) || (0x61 <= c <= 0x66)
}

pub open spec fn hex_digit_value(c: u8) -> int {
    if 0x30 <= c <= 0x39 {
        c - 0x30
    } else if 0x41 <= c <= 0x46 {
        c - 0x41 + 10
    } else {
        c - 0x61 + 10
    }
}

pub open spec fn parse_init() -> AddrParseState {
    AddrParseState { done: Seq::empty(), cur: 0, digits: 0, ok: true }
}

/// One character of address text: hex digits build a part, `:` or `-` closes it.
pub open spec fn parse_step(st: AddrParseState, c: u8) -> AddrParseState {
    if !st.ok {
        st
    } else if is_separator(c) {
        if st.digits == 0 || st.cur > 255 || st.done.len() >= 5 {
            AddrParseState { ok: false, ..st }
        } else {
            AddrParseState { done: st.done.push(st.cur as u8), cur: 0, digits: 0, ok: true }
        }
    } else if is_hex_digit(c) {
        let v = st.cur * 16 + hex_digit_value(c);
        AddrParseState { cur: if v > 256 { 256 } else { v }, digits: st.digits + 1, ..st }
    } else {
        AddrParseState { ok: false, ..st }
    }
}

pub open spec fn parse_run(st: AddrParseState, s: Seq<u8>) -> AddrParseState
    decreases s.len(),
{
    if s.len() == 0 {
        st
    } else {
        parse_step(parse_run(st, s.drop_last()), s.last())
    }
}

/// The six address bytes, in text order (most significant first), that a text denotes:
/// six parts of hex digits, each at most `FF`, separated by `:` or `-`.
pub open spec fn parse_text(s: Seq<u8>) -> Option<Seq<u8>> {
    let st = parse_run(parse_init(), s);
    if st.ok && st.digits > 0 && st.cur <= 255 && st.done.len() == 5 {
        Some(st.done.push(st.cur as u8))
    } else {
        None
    }
}

pub open spec fn hex_upper(n: u8) -> u8 {
    if n < 10 {
        (0x30 + n) as u8
    } else {
        (0x41 + n - 10) as u8
    }
}

pub open spec fn hex_pair(b: u8) -> Seq<u8> {
    seq![hex_upper(b / 16), hex_upper(b % 16)]
}

/// Text form of six bytes in text order: `XX:XX:XX:XX:XX:XX`, upper-case hex.
pub open spec fn format_text(be: Seq<u8>) -> Seq<u8> {
    hex_pair(be[0]) + seq![0x3au8] + hex_pair(be[1]) + seq![0x3au8] + hex_pair(be[2]) + seq![
        0x3au8,
    ] + hex_pair(be[3]) + seq![0x3au8] + hex_pair(be[4]) + seq![0x3au8] + hex_pair(be[5])
}

pub proof fn lemma_parse_run_concat(st: AddrParseState, a: Seq<u8>, b: Seq<u8>)
    ensures
        parse_run(st, a + b) == parse_run(parse_run(st, a), b),
    decreases b.len(),
{
    if b.len() == 0 {
        assert(a + b =~= a);
    } else {
        assert((a + b).drop_last() =~= a + b.drop_last());
        lemma_parse_run_concat(st, a, b.drop_last());
    }
}

/// Once the parser has failed, the rest of the input does not matter.
pub proof fn lemma_parse_run_failed(st: AddrParseState, s: Seq<u8>)
    requires
        !st.ok,
    ensures
        parse_run(st, s) == st,
    decreases s.len(),
{
    if s.len() > 0 {
        lemma_parse_run_failed(st, s.drop_last());
    }
}

proof fn lemma_hex_upper(n: u8)
    requires
        n < 16,
    ensures
        is_hex_digit(hex_upper(n)),
        !is_separator(hex_upper(n)),
        hex_digit_value(hex_upper(n)) == n,
{
}

proof fn lemma_parse_pair(st: AddrParseState, b: u8)
    requires
        st.ok,
        st.digits == 0,
        st.cur == 0,
    ensures
        parse_run(st, hex_pair(b)) == (AddrParseState { cur: b as int, digits: 2, ..st }),
{
    lemma_hex_upper(b / 16);
    lemma_hex_upper(b % 16);
    let p = hex_pair(b);
    let e = Seq::<u8>::empty();
    let part1 = seq![hex_upper(b / 16)];
    assert(p.drop_last() =~= part1);
    assert(part1.drop_last() =~= e);
    assert(parse_run(st, e) == st);
    let st1 = parse_step(st, hex_upper(b / 16));
    assert(parse_run(st, part1) == st1);
    assert(st1 == (AddrParseState { cur: (b / 16) as int, digits: 1, ..st }));
    assert((b / 16) * 16 + b % 16 == b);
    assert(parse_run(st, p) == parse_step(st1, hex_upper(b % 16)));
}

proof fn lemma_parse_pair_sep(st: AddrParseState, b: u8)
    requires
        st.ok,
        st.digits == 0,
        st.cur == 0,
        st.done.len() < 5,
    ensures
        parse_run(st, hex_pair(b) + seq![0x3au8]) == (AddrParseState {
            done: st.done.push(b),
            cur: 0,
            digits: 0,
            ok: true,
        }),
{
    let sep = seq![0x3au8];
    lemma_parse_run_concat(st, hex_pair(b), sep);
    lemma_parse_pair(st, b);
    let st2 = parse_run(st, hex_pair(b));
    assert(sep.drop_last() =~= Seq::<u8>::empty());
    assert(parse_run(st2, Seq::<u8>::empty()) == st2);
    assert(parse_run(st2, sep) == parse_step(st2, 0x3au8));
}

/// Formatting six bytes and parsing the text gives the same six bytes back.
pub proof fn lemma_format_parse(be: Seq<u8>)
    requires
        be.len() == 6,
    ensures
        parse_text(format_text(be)) == Some(be),
{
    let sep = seq![0x3au8];
    let part0 = hex_pair(be[0]) + sep;
    let part1 = hex_pair(be[1]) + sep;
    let part2 = hex_pair(be[2]) + sep;
    let part3 = hex_pair(be[3]) + sep;
    let part4 = hex_pair(be[4]) + sep;
    let part5 = hex_pair(be[5]);
    assert(format_text(be) =~= part0 + part1 + part2 + part3 + part4 + part5);
    let s0 = parse_init();
    lemma_parse_pair_sep(s0, be[0]);
    let s1 = parse_run(s0, part0);
    lemma_parse_pair_sep(s1, be[1]);
    let s2 = parse_run(s1, part1);
    lemma_parse_pair_sep(s2, be[2]);
    let s3 = parse_run(s2, part2);
    lemma_parse_pair_sep(s3, be[3]);
    let s4 = parse_run(s3, part3);
    lemma_parse_pair_sep(s4, be[4]);
    let s5 = parse_run(s4, part4);
    lemma_parse_pair(s5, be[5]);
    lemma_parse_run_concat(s0, part0, part1);
    lemma_parse_run_concat(s0, part0 + part1, part2);
    lemma_parse_run_concat(s0, part0 + part1 + part2, part3);
    lemma_parse_run_concat(s0, part0 + part1 + part2 + part3, part4);
    lemma_parse_run_concat(s0, part0 + part1 + part2 + part3 + part4, part5);
    assert(s5.done.push(be[5]) =~= be);
}

proof fn lemma_parse_fails_at(s: Seq<u8>, i: int)
    requires
        0 <= i < s.len(),
        !parse_run(parse_init(), s.subrange(0, i + 1)).ok,
    ensures
        parse_text(s) is None,
{
    let st = parse_run(parse_init(), s.subrange(0, i + 1));
    lemma_parse_run_concat(parse_init(), s.subrange(0, i + 1), s.subrange(i + 1, s.len() as int));
    assert(s.subrange(0, i + 1) + s.subrange(i + 1, s.len() as int) =~= s);
    lemma_parse_run_failed(st, s.subrange(i + 1, s.len() as int));
}

fn hex_value_of(c: u8) -> (r: Option<u8>)
    ensures
        r is Some <==> is_hex_digit(c),
        r is Some ==> r->0 as int == hex_digit_value(c) && r->0 < 16,
{
    if 0x30 <= c && c <= 0x39 {
        Some(c - 0x30)
    } else if 0x41 <= c && c <= 0x46 {
        Some(c - 0x41 + 10)
    } else if 0x61 <= c && c <= 0x66 {
        Some(c - 0x61 + 10)
    } else {
        None
    }
}

fn hex_upper_of(n: u8) -> (r: u8)
    requires
        n < 16,
    ensures
        r == hex_upper(n),
{
    if n < 10 {
        0x30 + n
    } else {
        0x41 + n - 10
    }
}

/// Parses address text into its six bytes in text order.
pub fn parse_address_text(s: &[u8]) -> (r: Option<[u8; 6]>)
    ensures
        r is Some <==> parse_text(s@) is Some,
        r is Some ==> r->0@ == parse_text(s@)->0,
{
    let mut done: [u8; 6] = [0u8; 6];
    let mut ndone: usize = 0;
    let mut cur: u16 = 0;
    let mut digits: usize = 0;
    let mut i: usize = 0;
    while i < s.len()
        invariant
            0 <= i <= s@.len(),
            ({
                let st = parse_run(parse_init(), s@.subrange(0, i as int));
                &&& st.ok
                &&& st.done.len() == ndone
                &&& ndone <= 5
                &&& forall|j: int| 0 <= j < ndone ==> done@[j] == st.done[j]
                &&& st.cur == cur as int
                &&& cur <= 256
                &&& st.digits == digits as nat
                &&& digits <= i
            }),
        decreases s@.len() - i,
    {
        let c = s[i];
        proof {
            assert(s@.subrange(0, i + 1).drop_last() =~= s@.subrange(0, i as int));
        }
        if c == 0x3a || c == 0x2d {
            if digits == 0 || cur > 255 || ndone >= 5 {
                proof {
                    lemma_parse_fails_at(s@, i as int);
                }
                return None;
            }
            done[ndone] = cur as u8;
            ndone = ndone + 1;
            cur = 0;
            digits = 0;
        } else {
            match hex_value_of(c) {
                Some(d) => {
                    let v: u16 = if cur > 16 { 256 } else { cur * 16 + d as u16 };
                    cur = if v > 256 { 256 } else { v };
                    digits = digits + 1;
                },
                None => {
                    proof {
                        lemma_parse_fails_at(s@, i as int);
                    }
                    return None;
                },
            }
        }
        i = i + 1;
    }
    proof {
        assert(s@.subrange(0, s@.len() as int) =~= s@);
    }
    if digits == 0 || cur > 255 || ndone != 5 {
        return None;
    }
    done[5] = cur as u8;
    proof {
        let st = parse_run(parse_init(), s@);
        assert(done@ =~= st.done.push(st.cur as u8));
    }
    Some(done)
}

impl PartialEq for BLEAddress {
    fn eq(&self, other: &BLEAddress) -> (r: bool)
        ensures
            r == (self.le_bytes() == other.le_bytes() && self.spec_addr_type() == other.spec_addr_type()),
    {
        let mut i: usize = 0;
        while i < 6
            invariant
                0 <= i <= 6,
                forall|j: int| 0 <= j < i ==> self.val@[j] == other.val@[j],
            decreases 6 - i,
        {
            if self.val[i] != other.val[i] {
                return false;
            }
            i = i + 1;
        }
        assert(self.val@ =~= other.val@);
        self.addr_type == other.addr_type
    }
}

impl vstd::std_specs::cmp::PartialEqSpecImpl for BLEAddress {
    open spec fn obeys_eq_spec() -> bool {
        true
    }

    open spec fn eq_spec(&self, other: &BLEAddress) -> bool {
        self.le_bytes() == other.le_bytes() && self.spec_addr_type() == other.spec_addr_type()
    }
}

fn push_hex_pair(r: &mut Vec<u8>, b: u8)
    ensures
        final(r)@ == old(r)@ + hex_pair(b),
{
    r.push(hex_upper_of(b / 16));
    r.push(hex_upper_of(b % 16));
    assert(final(r)@ =~= old(r)@ + hex_pair(b));
}

fn reverse6(a: [u8; 6]) -> (r: [u8; 6])
    ensures
        r@ == a@.reverse(),
{
    let r: [u8; 6] = [a[5], a[4], a[3], a[2], a[1], a[0]];
    assert(r@ =~= a@.reverse());
    r
}

impl BLEAddress {
    /// The bytes in wire order (least significant first).
    pub closed spec fn le_bytes(self) -> Seq<u8> {
        self.val@
    }

    /// The address type.
    pub closed spec fn spec_addr_type(self) -> BLEAddressType {
        self.addr_type
    }

    pub proof fn lemma_le_bytes_len(self)
        ensures
            self.le_bytes().len() == 6,
    {
    }

    /// An address from bytes in wire order (least significant first).
    pub fn from_le_bytes(val: [u8; 6], addr_type: BLEAddressType) -> (r: BLEAddress)
        ensures
            r.le_bytes() == val@,
            r.spec_addr_type() == addr_type,
    {
        BLEAddress { val, addr_type }
    }

    /// An address from bytes in text order (most significant first).
    pub fn from_be_bytes(val: [u8; 6], addr_type: BLEAddressType) -> (r: BLEAddress)
        ensures
            r.le_bytes() == val@.reverse(),
            r.spec_addr_type() == addr_type,
    {
        Self::from_le_bytes(reverse6(val), addr_type)
    }

    /// Parses `XX:XX:XX:XX:XX:XX` (or with `-`), most significant byte first.
    pub fn from_str(input: &str, addr_type: BLEAddressType) -> (r: Option<BLEAddress>)
        ensures
            r is Some <==> parse_text(input.spec_bytes()) is Some,
            r is Some ==> r->0.le_bytes() == parse_text(input.spec_bytes())->0.reverse()
                && r->0.spec_addr_type() == addr_type,
    {
        Self::from_text_bytes(input.as_bytes(), addr_type)
    }

    /// Parses address text given as bytes; see `from_str`.
    pub fn from_text_bytes(input: &[u8], addr_type: BLEAddressType) -> (r: Option<BLEAddress>)
        ensures
            r is Some <==> parse_text(input@) is Some,
            r is Some ==> r->0.le_bytes() == parse_text(input@)->0.reverse()
                && r->0.spec_addr_type() == addr_type,
    {
        match parse_address_text(input) {
            Some(be) => Some(Self::from_be_bytes(be, addr_type)),
            None => None,
        }
    }

    /// The bytes in wire order (least significant first).
    pub fn as_le_bytes(&self) -> (r: [u8; 6])
        ensures
            r@ == self.le_bytes(),
    {
        self.val
    }

    /// The bytes in text order (most significant first).
    pub fn as_be_bytes(&self) -> (r: [u8; 6])
        ensures
            r@ == self.le_bytes().reverse(),
    {
        reverse6(self.val)
    }

    /// The address type.
    pub fn addr_type(&self) -> (r: BLEAddressType)
        ensures
            r == self.spec_addr_type(),
    {
        self.addr_type
    }

    /// The text form `XX:XX:XX:XX:XX:XX`, most significant byte first, as ASCII bytes.
    pub fn to_text_bytes(&self) -> (r: Vec<u8>)
        ensures
            r@ == format_text(self.le_bytes().reverse()),
    {
        let be = reverse6(self.val);
        let mut r: Vec<u8> = Vec::new();
        push_hex_pair(&mut r, be[0]);
        r.push(0x3a);
        push_hex_pair(&mut r, be[1]);
        r.push(0x3a);
        push_hex_pair(&mut r, be[2]);
        r.push(0x3a);
        push_hex_pair(&mut r, be[3]);
        r.push(0x3a);
        push_hex_pair(&mut r, be[4]);
        r.push(0x3a);
        push_hex_pair(&mut r, be[5]);
        assert(r@ =~= format_text(be@));
        r
    }
}

/// Formatting an address and parsing the text gives back the same bytes; the text puts
/// the most significant byte (the last in wire order) first.
pub proof fn lemma_address_round_trip(a: BLEAddress, t: BLEAddressType)
    ensures
        parse_text(format_text(a.le_bytes().reverse())) == Some(a.le_bytes().reverse()),
        parse_text(format_text(a.le_bytes().reverse()))->0.reverse() == a.le_bytes(),
{
    a.lemma_le_bytes_len();
    lemma_format_parse(a.le_bytes().reverse());
    assert(a.le_bytes().reverse().reverse() =~= a.le_bytes());
}

/// Building an address from bytes in text order and reading them back in text order gives
/// the same bytes; the wire order is their reverse.
pub proof fn lemma_be_bytes_round_trip(val: [u8; 6])
    ensures
        val@.reverse().reverse() == val@,
        val@.reverse().len() == 6,
        val@.reverse()[0] == val@[5],
        val@.reverse()[5] == val@[0],
{
    assert(val@.reverse().reverse() =~= val@);
}

} // verus!
