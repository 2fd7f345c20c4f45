use vstd::prelude::*;
use crate::ext_advertisement::le_bytes16;

verus! {

/// Value formats of the characteristic presentation format descriptor.
#[derive(Clone, Copy, PartialEq, Eq, Structural, Debug)]
#[allow(non_camel_case_types)]
pub enum BLE2904Format {
    BOOLEAN,
    UINT2,
    UINT4,
    UINT8,
    UINT12,
    UINT16,
    UINT24,
    UINT32,
    UINT48,
    UINT64,
    UINT128,
    SINT8,
    SINT12,
    SINT16,
    SINT24,
    SINT32,
    SINT48,
    SINT64,
    SINT128,
    FLOAT32,
    FLOAT64,
    SFLOAT16,
    SFLOAT32,
    IEEE20601,
    UTF8,
    UTF16,
    OPAQUE,
}

/// The assigned number of each format.
pub open spec fn format_code(f: BLE2904Format) -> u8 {
    match f {
        BLE2904Format::BOOLEAN => 1,
        BLE2904Format::UINT2 => 2,
        BLE2904Format::UINT4 => 3,
        BLE2904Format::UINT8 => 4,
        BLE2904Format::UINT12 => 5,
        BLE2904Format::UINT16 => 6,
        BLE2904Format::UINT24 => 7,
        BLE2904Format::UINT32 => 8,
        BLE2904Format::UINT48 => 9,
        BLE2904Format::UINT64 => 10,
        BLE2904Format::UINT128 => 11,
        BLE2904Format::SINT8 => 12,
        BLE2904Format::SINT12 => 13,
        BLE2904Format::SINT16 => 14,
        BLE2904Format::SINT24 => 15,
        BLE2904Format::SINT32 => 16,
        BLE2904Format::SINT48 => 17,
        BLE2904Format::SINT64 => 18,
        BLE2904Format::SINT128 => 19,
        BLE2904Format::FLOAT32 => 20,
        BLE2904Format::FLOAT64 => 21,
        BLE2904Format::SFLOAT16 => 22,
        BLE2904Format::SFLOAT32 => 23,
        BLE2904Format::IEEE20601 => 24,
        BLE2904Format::UTF8 => 25,
        BLE2904Format::UTF16 => 26,
        BLE2904Format::OPAQUE => 27,
    }
}

impl BLE2904Format {
    /// The assigned number of the format.
    pub fn code(&self) -> (r: u8)
        ensures
            r == format_code(*self),
    {
        match self {
            BLE2904Format::BOOLEAN => 1,
            BLE2904Format::UINT2 => 2,
            BLE2904Format::UINT4 => 3,
            BLE2904Format::UINT8 => 4,
            BLE2904Format::UINT12 => 5,
            BLE2904Format::UINT16 => 6,
            BLE2904Format::UINT24 => 7,
            BLE2904Format::UINT32 => 8,
            BLE2904Format::UINT48 => 9,
            BLE2904Format::UINT64 => 10,
            BLE2904Format::UINT128 => 11,
            BLE2904Format::SINT8 => 12,
            BLE2904Format::SINT12 => 13,
            BLE2904Format::SINT16 => 14,
            BLE2904Format::SINT24 => 15,
            BLE2904Format::SINT32 => 16,
            BLE2904Format::SINT48 => 17,
            BLE2904Format::SINT64 => 18,
            BLE2904Format::SINT128 => 19,
            BLE2904Format::FLOAT32 => 20,
            BLE2904Format::FLOAT64 => 21,
            BLE2904Format::SFLOAT16 => 22,
            BLE2904Format::SFLOAT32 => 23,
            BLE2904Format::IEEE20601 => 24,
            BLE2904Format::UTF8 => 25,
            BLE2904Format::UTF16 => 26,
            BLE2904Format::OPAQUE => 27,
        }
    }
}

/// The characteristic presentation format descriptor (UUID 0x2904).
#[derive(Clone, Copy, Debug)]
pub struct BLE2904 {
    pub format: BLE2904Format,
    pub exponent: u8,
    pub unit: u16,
    pub namespace: u8,
    pub description: u16,
}

/// The 7-byte value: format, exponent, unit, namespace, description (multi-byte fields
/// least significant byte first).
pub open spec fn presentation_bytes(p: BLE2904) -> Seq<u8> {
    seq![format_code(p.format), p.exponent] + le_bytes16(p.unit) + seq![p.namespace]
        + le_bytes16(p.description)
}

impl BLE2904 {
    /// Opaque format, no exponent or unit, Bluetooth SIG namespace.
    pub fn new() -> (r: BLE2904)
        ensures
            r.format == BLE2904Format::OPAQUE,
            r.exponent == 0 && r.unit == 0 && r.namespace == 1 && r.description == 0,
    {
        BLE2904 { format: BLE2904Format::OPAQUE, exponent: 0, unit: 0, namespace: 1, description: 0 }
    }

    pub fn format(&mut self, value: BLE2904Format)
        ensures
            *final(self) == (BLE2904 { format: value, ..*old(self) }),
    {
        self.format = value;
    }

    pub fn exponent(&mut self, value: u8)
        ensures
            *final(self) == (BLE2904 { exponent: value, ..*old(self) }),
    {
        self.exponent = value;
    }

    pub fn unit(&mut self, value: u16)
        ensures
            *final(self) == (BLE2904 { unit: value, ..*old(self) }),
    {
        self.unit = value;
    }

    pub fn namespace(&mut self, value: u8)
        ensures
            *final(self) == (BLE2904 { namespace: value, ..*old(self) }),
    {
        self.namespace = value;
    }

    pub fn description(&mut self, value: u16)
        ensures
            *final(self) == (BLE2904 { description: value, ..*old(self) }),
    {
        self.description = value;
    }

    /// The descriptor value.
    pub fn as_bytes(&self) -> (r: Vec<u8>)
        ensures
            r@ == presentation_bytes(*self),
    {
        let mut r: Vec<u8> = Vec::new();
        r.push(self.format.code());
        r.push(self.exponent);
        r.push((self.unit % 256) as u8);
        r.push((self.unit / 256) as u8);
        r.push(self.namespace);
        r.push((self.description % 256) as u8);
        r.push((self.description / 256) as u8);
        assert(r@ =~= presentation_bytes(*self));
        r
    }
}

} // verus!
