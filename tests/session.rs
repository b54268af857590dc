use rusty_notepad::codec::{fourcc_to_u32, SmcKeyData, SmcKeyInfoData};
use rusty_notepad::smc::{
    key_info_request, read_bytes_request, temperature_keys, SmcStep, TemperatureScan,
    SMC_CMD_READ_BYTES, SMC_CMD_READ_KEYINFO,
};
use rusty_notepad::temperature::UNITS_PER_DEGREE;

fn info_reply(data_type: u32) -> SmcKeyData {
    let mut d = SmcKeyData::default();
    d.key_info = SmcKeyInfoData { data_size: 2, data_type, data_attributes: 0x80 };
    d
}

fn bytes_reply(prefix: &[u8]) -> SmcKeyData {
    let mut d = SmcKeyData::default();
    d.bytes[..prefix.len()].copy_from_slice(prefix);
    d
}

#[test]
fn candidate_keys_in_order() {
    let keys = temperature_keys();
    let codes: [&[u8; 4]; 14] = [
        b"Tp09", b"Tp01", b"Tp05", b"Tp0D", b"Tp0H", b"Tp0L", b"Tp0P", b"Tp0X", b"Tp0b", b"TC0P",
        b"TC0C", b"TC1C", b"TC0D", b"TCXC",
    ];
    assert_eq!(keys.len(), codes.len());
    for (k, c) in keys.iter().zip(codes.iter()) {
        assert_eq!(*k, fourcc_to_u32(c));
    }
}

#[test]
fn requests_carry_key_and_command() {
    let r = key_info_request(0x5470_3039);
    assert_eq!(r.key, 0x5470_3039);
    assert_eq!(r.data8, SMC_CMD_READ_KEYINFO);
    assert_eq!(r.key_info, SmcKeyInfoData { data_size: 0, data_type: 0, data_attributes: 0 });
    let info = SmcKeyInfoData { data_size: 2, data_type: fourcc_to_u32(b"sp78"), data_attributes: 0xd4 };
    let r = read_bytes_request(0x5470_3039, info);
    assert_eq!(r.key, 0x5470_3039);
    assert_eq!(r.data8, SMC_CMD_READ_BYTES);
    assert_eq!(r.key_info, info);
    assert_eq!(r.bytes, [0u8; 32]);
}

#[test]
fn fourth_key_succeeds_after_three_info_failures() {
    let keys = temperature_keys();
    let mut scan = TemperatureScan::new();
    let mut closes = 0;
    let mut requests = 0;
    let mut result = None;
    for step in 0.. {
        match scan.next_step() {
            SmcStep::ReadKeyInfo(req) => {
                requests += 1;
                assert_eq!(req.data8, SMC_CMD_READ_KEYINFO);
                let index = keys.iter().position(|k| *k == req.key).unwrap();
                if index == 3 {
                    scan.on_reply(Some(info_reply(fourcc_to_u32(b"sp78"))));
                } else {
                    scan.on_reply(None);
                }
            }
            SmcStep::ReadBytes(req) => {
                requests += 1;
                assert_eq!(req.key, keys[3]);
                assert_eq!(req.data8, SMC_CMD_READ_BYTES);
                assert_eq!(req.key_info.data_type, fourcc_to_u32(b"sp78"));
                scan.on_reply(Some(bytes_reply(&[0x2d, 0x80])));
            }
            SmcStep::Close(mean) => {
                closes += 1;
                result = mean;
                break;
            }
        }
        assert!(step < 100);
    }
    assert_eq!(closes, 1);
    assert_eq!(requests, keys.len() + 1);
    let m = result.unwrap();
    assert_eq!(m.count, 1);
    assert_eq!(m.total as f64 / UNITS_PER_DEGREE as f64, 45.5);
}

#[test]
fn every_key_failing_gives_no_temperature() {
    let mut scan = TemperatureScan::new();
    let mut calls = 0;
    loop {
        match scan.next_step() {
            SmcStep::Close(mean) => {
                assert_eq!(mean, None);
                break;
            }
            _ => {
                calls += 1;
                scan.on_reply(None);
            }
        }
    }
    assert_eq!(calls, 14);
}

#[test]
fn implausible_and_undecodable_readings_are_dropped() {
    let mut scan = TemperatureScan::new();
    let mut index = 0;
    let mut result = None;
    loop {
        match scan.next_step() {
            SmcStep::ReadKeyInfo(_) => {
                let t = if index % 2 == 0 { fourcc_to_u32(b"flt ") } else { fourcc_to_u32(b"ui8 ") };
                scan.on_reply(Some(info_reply(t)));
            }
            SmcStep::ReadBytes(req) => {
                let reply = if req.key_info.data_type == fourcc_to_u32(b"flt ") {
                    let v: f32 = if index < 4 { 50.0 + index as f32 } else { 5.0 };
                    bytes_reply(&v.to_be_bytes())
                } else {
                    bytes_reply(&[200])
                };
                scan.on_reply(Some(reply));
                index += 1;
            }
            SmcStep::Close(mean) => {
                result = mean;
                break;
            }
        }
    }
    let m = result.unwrap();
    assert_eq!(m.count, 2);
    assert_eq!(m.total as f64 / m.count as f64 / UNITS_PER_DEGREE as f64, 51.0);
}

#[test]
fn metadata_reply_moves_to_bytes_phase() {
    let mut scan = TemperatureScan::new();
    let info = info_reply(fourcc_to_u32(b"sp78"));
    scan.on_reply(Some(info));
    match scan.next_step() {
        SmcStep::ReadBytes(req) => assert_eq!(req.key_info, info.key_info),
        _ => panic!("expected a bytes request"),
    }
}
