use rusty_notepad::codec::{decode_value, fourcc_to_u32, Reading, SmcKeyData};

fn payload(prefix: &[u8]) -> [u8; 32] {
    let mut b = [0u8; 32];
    b[..prefix.len()].copy_from_slice(prefix);
    b
}

fn sp78() -> u32 {
    fourcc_to_u32(b"sp78")
}

fn flt() -> u32 {
    fourcc_to_u32(b"flt ")
}

#[test]
fn pack_key_is_big_endian() {
    assert_eq!(fourcc_to_u32(b"Tp09"), 0x5470_3039);
    assert_eq!(fourcc_to_u32(b"sp78"), 0x7370_3738);
    assert_eq!(fourcc_to_u32(b"flt "), 0x666c_7420);
    assert_eq!(fourcc_to_u32(&[0, 0, 0, 1]), 1);
    assert_eq!(fourcc_to_u32(&[0xff, 0xff, 0xff, 0xff]), u32::MAX);
}

#[test]
fn pack_key_is_injective_and_deterministic() {
    let codes: [&[u8; 4]; 16] = [
        b"Tp09", b"Tp01", b"Tp05", b"Tp0D", b"Tp0H", b"Tp0L", b"Tp0P", b"Tp0X", b"Tp0b", b"TC0P",
        b"TC0C", b"TC1C", b"TC0D", b"TCXC", b"sp78", b"flt ",
    ];
    let keys: Vec<u32> = codes.iter().map(|c| fourcc_to_u32(c)).collect();
    for i in 0..codes.len() {
        assert_eq!(keys[i], fourcc_to_u32(codes[i]));
        for j in 0..codes.len() {
            if i != j {
                assert_ne!(keys[i], keys[j]);
            }
        }
    }
}

#[test]
fn sp78_decodes_to_fixed_point() {
    let r = decode_value(&payload(&[0x19, 0x00]), sp78());
    assert_eq!(r, Some(Reading::FixedPoint(6400)));
    if let Some(Reading::FixedPoint(v)) = r {
        assert_eq!(v as f32 / 256.0, 25.0);
    }
    let r = decode_value(&payload(&[0x19, 0x80]), sp78());
    assert_eq!(r, Some(Reading::FixedPoint(0x1980)));
    if let Some(Reading::FixedPoint(v)) = r {
        assert_eq!(v as f32 / 256.0, 25.5);
    }
    assert_eq!(decode_value(&payload(&[0x80, 0x00]), sp78()), Some(Reading::FixedPoint(i16::MIN)));
    let r = decode_value(&payload(&[0xFF, 0x00]), sp78());
    assert_eq!(r, Some(Reading::FixedPoint(-256)));
    if let Some(Reading::FixedPoint(v)) = r {
        assert_eq!(v as f32 / 256.0, -1.0);
    }
}

#[test]
fn flt_decodes_big_endian_float() {
    let r = decode_value(&payload(&42.5f32.to_be_bytes()), flt());
    assert_eq!(r, Some(Reading::Float(42.5f32.to_bits())));
    if let Some(Reading::Float(bits)) = r {
        assert_eq!(f32::from_bits(bits), 42.5);
    }
}

#[test]
fn unknown_type_falls_back_to_first_byte() {
    assert_eq!(decode_value(&payload(&[0]), 0), Some(Reading::Byte(0)));
    assert_eq!(decode_value(&payload(&[45, 7]), fourcc_to_u32(b"ui8 ")), Some(Reading::Byte(45)));
    assert_eq!(decode_value(&payload(&[149]), 0), Some(Reading::Byte(149)));
    assert_eq!(decode_value(&payload(&[150]), 0), None);
    assert_eq!(decode_value(&payload(&[255]), 0), None);
}

#[test]
fn default_key_data_is_zeroed() {
    let d = SmcKeyData::default();
    assert_eq!(d.key, 0);
    assert_eq!(d.data8, 0);
    assert_eq!(d.key_info.data_type, 0);
    assert_eq!(d.bytes, [0u8; 32]);
    assert_eq!(d.vers, [0u8; 6]);
    assert_eq!(d.p_limit_data, [0u8; 16]);
}
