//! Sensor keys and raw sensor payloads.
use vstd::prelude::*;

verus! {

/// The key that four bytes name: the bytes read as a big-endian 32-bit integer.
pub open spec fn key_value(b: Seq<u8>) -> int
    recommends
        b.len() == 4,
{
    (b[0] as int) * 0x1000000 + (b[1] as int) * 0x10000 + (b[2] as int) * 0x100 + (b[3] as int)
}

/// Packs a four-character code into a sensor key, first byte most significant.
pub fn fourcc_to_u32(s: &[u8; 4]) -> (r: u32)
    ensures
        r as int == key_value(s@),
{
    let a = s[0];
    let b = s[1];
    let c = s[2];
    let d = s[3];
    let r = ((a as u32) << 24) | ((b as u32) << 16) | ((c as u32) << 8) | (d as u32);
    assert(r == (a as int) * 0x1000000 + (b as int) * 0x10000 + (c as int) * 0x100 + (d as int))
        by (bit_vector)
        requires
            r == ((a as u32) << 24) | ((b as u32) << 16) | ((c as u32) << 8) | (d as u32),
    ;
    r
}

/// Two four-byte codes give the same key exactly when they are the same code:
/// packing is deterministic and injective.
pub proof fn lemma_key_value_injective(a: Seq<u8>, b: Seq<u8>)
    requires
        a.len() == 4,
        b.len() == 4,
    ensures
        key_value(a) == key_value(b) <==> a == b,
{
    let (a0, a1, a2, a3) = (a[0], a[1], a[2], a[3]);
    let (b0, b1, b2, b3) = (b[0], b[1], b[2], b[3]);
    if key_value(a) == key_value(b) {
        assert(a0 == b0 && a1 == b1 && a2 == b2 && a3 == b3) by (bit_vector)
            requires
                (a0 as int) * 0x1000000 + (a1 as int) * 0x10000 + (a2 as int) * 0x100 + (a3 as int)
                    == (b0 as int) * 0x1000000 + (b1 as int) * 0x10000 + (b2 as int) * 0x100
                    + (b3 as int),
        ;
        assert(a =~= b);
    }
}


/// Metadata that the first phase of a sensor query returns for a key; the
/// second phase must send it back unchanged.
#[derive(Clone, Copy, PartialEq, Eq, Debug, Structural)]
pub struct SmcKeyInfoData {
    pub data_size: u32,
    pub data_type: u32,
    pub data_attributes: u8,
}

impl SmcKeyInfoData {
    /// Metadata with every field zero.
    pub fn zeroed() -> (r: Self)
        ensures
            r.data_size == 0,
            r.data_type == 0,
            r.data_attributes == 0,
    {
        SmcKeyInfoData { data_size: 0, data_type: 0, data_attributes: 0 }
    }
}

/// The record exchanged with the sensor-management service, field for field.
#[derive(Clone, Copy, Debug)]
pub struct SmcKeyData {
    pub key: u32,
    pub vers: [u8; 6],
    pub p_limit_data: [u8; 16],
    pub key_info: SmcKeyInfoData,
    pub result: u8,
    pub status: u8,
    pub data8: u8,
    pub data32: u32,
    pub bytes: [u8; 32],
}

/// Every field of the record is zero.
pub open spec fn is_zeroed(d: SmcKeyData) -> bool {
    &&& d.key == 0
    &&& d.vers@ == Seq::new(6, |i: int| 0u8)
    &&& d.p_limit_data@ == Seq::new(16, |i: int| 0u8)
    &&& d.key_info == SmcKeyInfoData { data_size: 0, data_type: 0, data_attributes: 0 }
    &&& d.result == 0
    &&& d.status == 0
    &&& d.data8 == 0
    &&& d.data32 == 0
    &&& d.bytes@ == Seq::new(32, |i: int| 0u8)
}

impl Default for SmcKeyData {
    fn default() -> (r: Self)
        ensures
            is_zeroed(r),
    {
        let r = SmcKeyData {
            key: 0,
            vers: [0u8; 6],
            p_limit_data: [0u8; 16],
            key_info: SmcKeyInfoData::zeroed(),
            result: 0,
            status: 0,
            data8: 0,
            data32: 0,
            bytes: [0u8; 32],
        };
        assert(r.vers@ =~= Seq::new(6, |i: int| 0u8));
        assert(r.p_limit_data@ =~= Seq::new(16, |i: int| 0u8));
        assert(r.bytes@ =~= Seq::new(32, |i: int| 0u8));
        r
    }
}


/// Wire type "sp78": a signed 7.8 fixed-point number.
pub open spec fn sp78_type() -> int {
    key_value(seq![0x73u8, 0x70u8, 0x37u8, 0x38u8])
}

/// Wire type "flt ": a 32-bit IEEE float.
pub open spec fn flt_type() -> int {
    key_value(seq![0x66u8, 0x6cu8, 0x74u8, 0x20u8])
}

/// A sensor value as the payload encodes it, before any unit conversion.
#[derive(Clone, Copy, PartialEq, Eq, Debug, Structural)]
pub enum Reading {
    /// Degrees times 256 (signed 7.8 fixed point).
    FixedPoint(i16),
    /// The bit pattern of an IEEE single-precision float, in degrees.
    Float(u32),
    /// A whole number of degrees, from a payload of an undocumented type.
    Byte(u8),
}

/// Two bytes read as a big-endian two's-complement 16-bit integer.
pub open spec fn be_i16(hi: u8, lo: u8) -> int {
    if hi < 128 {
        (hi as int) * 256 + (lo as int)
    } else {
        (hi as int) * 256 + (lo as int) - 0x10000
    }
}

/// What a payload holds under a given wire type: fixed point and float are
/// taken as they are; any other type falls back to the first byte, kept only
/// below 150.
pub open spec fn decode_spec(wire_type: u32, bytes: Seq<u8>) -> Option<Reading>
    recommends
        bytes.len() >= 4,
{
    if wire_type == sp78_type() {
        Some(Reading::FixedPoint(be_i16(bytes[0], bytes[1]) as i16))
    } else if wire_type == flt_type() {
        Some(Reading::Float(key_value(bytes.subrange(0, 4)) as u32))
    } else if bytes[0] < 150 {
        Some(Reading::Byte(bytes[0]))
    } else {
        None
    }
}

/// Decodes a sensor payload according to its declared wire type.
pub fn decode_value(bytes: &[u8; 32], wire_type: u32) -> (r: Option<Reading>)
    ensures
        r == decode_spec(wire_type, bytes@),
{
    // "sp78" and "flt " in ASCII
    let sp78 = fourcc_to_u32(&[0x73u8, 0x70, 0x37, 0x38]);
    let flt = fourcc_to_u32(&[0x66u8, 0x6c, 0x74, 0x20]);
    if wire_type == sp78 {
        let hi = bytes[0];
        let lo = bytes[1];
        let raw: i32 = if hi < 128 {
            (hi as i32) * 256 + (lo as i32)
        } else {
            (hi as i32) * 256 + (lo as i32) - 0x10000
        };
        Some(Reading::FixedPoint(raw as i16))
    } else if wire_type == flt {
        let word = [bytes[0], bytes[1], bytes[2], bytes[3]];
        assert(word@ =~= bytes@.subrange(0, 4));
        Some(Reading::Float(fourcc_to_u32(&word)))
    } else if bytes[0] < 150 {
        Some(Reading::Byte(bytes[0]))
    } else {
        None
    }
}

} // verus!
