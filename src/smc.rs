//! The sensor-management session: a two-phase query per candidate temperature
//! key (read the key's metadata, then its bytes), decoding and averaging.
//!
//! The session is a state machine. Whoever owns the connection asks it for the
//! next step, performs that call, and hands the reply back; the last step is
//! always a single `Close` that carries the result.
use vstd::prelude::*;
use crate::codec::{
    decode_spec,
    decode_value,
    fourcc_to_u32,
    key_value,
    Reading,
    SmcKeyData,
    SmcKeyInfoData,
};
use crate::temperature::{mean_of_plausible, mean_spec, TemperatureMean};

verus! {

/// Selector of the struct method through which the service is queried.
pub const KERNEL_INDEX_SMC: u32 = 2;

/// Command byte: read a key's metadata.
pub const SMC_CMD_READ_KEYINFO: u8 = 9;

/// Command byte: read a key's bytes.
pub const SMC_CMD_READ_BYTES: u8 = 5;

/// The candidate temperature keys as four-byte codes, in probing order:
/// "Tp09", "Tp01", "Tp05", "Tp0D", "Tp0H", "Tp0L", "Tp0P", "Tp0X", "Tp0b"
/// (Apple silicon), then "TC0P", "TC0C", "TC1C", "TC0D", "TCXC" (Intel).
pub open spec fn temperature_key_codes() -> Seq<Seq<u8>> {
    seq![
        seq![0x54u8, 0x70u8, 0x30u8, 0x39u8],
        seq![0x54u8, 0x70u8, 0x30u8, 0x31u8],
        seq![0x54u8, 0x70u8, 0x30u8, 0x35u8],
        seq![0x54u8, 0x70u8, 0x30u8, 0x44u8],
        seq![0x54u8, 0x70u8, 0x30u8, 0x48u8],
        seq![0x54u8, 0x70u8, 0x30u8, 0x4cu8],
        seq![0x54u8, 0x70u8, 0x30u8, 0x50u8],
        seq![0x54u8, 0x70u8, 0x30u8, 0x58u8],
        seq![0x54u8, 0x70u8, 0x30u8, 0x62u8],
        seq![0x54u8, 0x43u8, 0x30u8, 0x50u8],
        seq![0x54u8, 0x43u8, 0x30u8, 0x43u8],
        seq![0x54u8, 0x43u8, 0x31u8, 0x43u8],
        seq![0x54u8, 0x43u8, 0x30u8, 0x44u8],
        seq![0x54u8, 0x43u8, 0x58u8, 0x43u8],
    ]
}

/// The candidate temperature keys, packed.
pub open spec fn temperature_keys_spec() -> Seq<u32> {
    temperature_key_codes().map_values(|c: Seq<u8>| key_value(c) as u32)
}

fn key_of(a: u8, b: u8, c: u8, d: u8) -> (r: u32)
    ensures
        r == key_value(seq![a, b, c, d]),
{
    let code = [a, b, c, d];
    assert(code@ =~= seq![a, b, c, d]);
    fourcc_to_u32(&code)
}

/// The packed candidate temperature keys, in probing order.
pub fn temperature_keys() -> (r: Vec<u32>)
    ensures
        r@ == temperature_keys_spec(),
{
    let mut v: Vec<u32> = Vec::new();
    v.push(key_of(0x54, 0x70, 0x30, 0x39));
    v.push(key_of(0x54, 0x70, 0x30, 0x31));
    v.push(key_of(0x54, 0x70, 0x30, 0x35));
    v.push(key_of(0x54, 0x70, 0x30, 0x44));
    v.push(key_of(0x54, 0x70, 0x30, 0x48));
    v.push(key_of(0x54, 0x70, 0x30, 0x4c));
    v.push(key_of(0x54, 0x70, 0x30, 0x50));
    v.push(key_of(0x54, 0x70, 0x30, 0x58));
    v.push(key_of(0x54, 0x70, 0x30, 0x62));
    v.push(key_of(0x54, 0x43, 0x30, 0x50));
    v.push(key_of(0x54, 0x43, 0x30, 0x43));
    v.push(key_of(0x54, 0x43, 0x31, 0x43));
    v.push(key_of(0x54, 0x43, 0x30, 0x44));
    v.push(key_of(0x54, 0x43, 0x58, 0x43));
    assert(v@ =~= temperature_keys_spec());
    v
}


/// A request record: the given key, metadata and command byte, every other
/// field zero.
pub open spec fn is_request(d: SmcKeyData, key: u32, info: SmcKeyInfoData, command: u8) -> bool {
    &&& d.key == key
    &&& d.vers@ == Seq::new(6, |i: int| 0u8)
    &&& d.p_limit_data@ == Seq::new(16, |i: int| 0u8)
    &&& d.key_info == info
    &&& d.result == 0
    &&& d.status == 0
    &&& d.data8 == command
    &&& d.data32 == 0
    &&& d.bytes@ == Seq::new(32, |i: int| 0u8)
}

/// Metadata with every field zero, as a first-phase request carries it.
pub open spec fn no_info() -> SmcKeyInfoData {
    SmcKeyInfoData { data_size: 0, data_type: 0, data_attributes: 0 }
}

/// The first-phase request for a key: read its metadata.
pub fn key_info_request(key: u32) -> (d: SmcKeyData)
    ensures
        is_request(d, key, no_info(), SMC_CMD_READ_KEYINFO),
{
    let mut d = SmcKeyData::default();
    d.key = key;
    d.data8 = SMC_CMD_READ_KEYINFO;
    d
}

/// The second-phase request for a key: read its bytes, sending back the
/// metadata that the first phase returned.
pub fn read_bytes_request(key: u32, info: SmcKeyInfoData) -> (d: SmcKeyData)
    ensures
        is_request(d, key, info, SMC_CMD_READ_BYTES),
{
    let mut d = SmcKeyData::default();
    d.key = key;
    d.key_info = info;
    d.data8 = SMC_CMD_READ_BYTES;
    d
}

/// Which reply the session waits for on the current key.
#[derive(Clone, Copy, PartialEq, Eq, Debug, Structural)]
pub enum ScanPhase {
    /// The key's metadata.
    AwaitInfo,
    /// The key's bytes, to be decoded under this metadata.
    AwaitBytes(SmcKeyInfoData),
}

/// What the owner of the connection does next.
#[derive(Clone, Copy, Debug)]
pub enum SmcStep {
    /// Send this first-phase request and hand back the reply.
    ReadKeyInfo(SmcKeyData),
    /// Send this second-phase request and hand back the reply.
    ReadBytes(SmcKeyData),
    /// Close the connection; the temperature is this mean, if any.
    Close(Option<TemperatureMean>),
}

/// The abstract state of a scan: the index of the current key, the phase on
/// it, and the readings decoded so far.
pub struct ScanView {
    pub next: nat,
    pub phase: ScanPhase,
    pub readings: Seq<Reading>,
}

/// A scan over the candidate temperature keys.
pub struct TemperatureScan {
    keys: Vec<u32>,
    next: usize,
    phase: ScanPhase,
    readings: Vec<Reading>,
}

impl View for TemperatureScan {
    type V = ScanView;

    closed spec fn view(&self) -> ScanView {
        ScanView { next: self.next as nat, phase: self.phase, readings: self.readings@ }
    }
}

/// Readings after the reply to a second-phase request: the payload decoded
/// under the first phase's wire type is added when it decodes.
pub open spec fn readings_after_bytes(
    readings: Seq<Reading>,
    info: SmcKeyInfoData,
    reply: Option<SmcKeyData>,
) -> Seq<Reading> {
    match reply {
        Some(d) => match decode_spec(info.data_type, d.bytes@) {
            Some(r) => readings.push(r),
            None => readings,
        },
        None => readings,
    }
}

impl TemperatureScan {
    /// The scan's internal state agrees with its view.
    pub closed spec fn wf(&self) -> bool {
        &&& self.keys@ == temperature_keys_spec()
        &&& self.next <= self.keys.len()
        &&& self.next == self.keys.len() ==> self.phase == ScanPhase::AwaitInfo
    }

    /// The scan has run through every key.
    pub open spec fn finished(&self) -> bool {
        self@.next >= temperature_keys_spec().len()
    }

    /// Replies still to come before the scan closes.
    pub open spec fn remaining(&self) -> nat {
        let left = (temperature_keys_spec().len() - self@.next) as nat;
        match self@.phase {
            ScanPhase::AwaitInfo => 2 * left,
            ScanPhase::AwaitBytes(_) => (2 * left - 1) as nat,
        }
    }

    /// A scan that starts at the first key with nothing read.
    pub fn new() -> (s: Self)
        ensures
            s.wf(),
            s@.next == 0,
            s@.phase == ScanPhase::AwaitInfo,
            s@.readings == Seq::<Reading>::empty(),
    {
        TemperatureScan {
            keys: temperature_keys(),
            next: 0,
            phase: ScanPhase::AwaitInfo,
            readings: Vec::new(),
        }
    }

    /// The step to perform now: a request on the current key in the current
    /// phase, or, once every key is done, closing with the mean of the
    /// plausible readings.
    pub fn next_step(&self) -> (r: SmcStep)
        requires
            self.wf(),
        ensures
            match r {
                SmcStep::ReadKeyInfo(d) => !self.finished() && self@.phase == ScanPhase::AwaitInfo
                    && is_request(
                    d,
                    temperature_keys_spec()[self@.next as int],
                    no_info(),
                    SMC_CMD_READ_KEYINFO,
                ),
                SmcStep::ReadBytes(d) => !self.finished() && (match self@.phase {
                    ScanPhase::AwaitBytes(info) => is_request(
                        d,
                        temperature_keys_spec()[self@.next as int],
                        info,
                        SMC_CMD_READ_BYTES,
                    ),
                    ScanPhase::AwaitInfo => false,
                }),
                SmcStep::Close(m) => self.finished() && m == mean_spec(self@.readings),
            },
    {
        if self.next >= self.keys.len() {
            SmcStep::Close(mean_of_plausible(&self.readings))
        } else {
            let key = self.keys[self.next];
            match self.phase {
                ScanPhase::AwaitInfo => SmcStep::ReadKeyInfo(key_info_request(key)),
                ScanPhase::AwaitBytes(info) => SmcStep::ReadBytes(read_bytes_request(key, info)),
            }
        }
    }

    /// Takes the reply to the step just performed (`None` when the call
    /// failed). A failed call skips the key; a metadata reply moves on to
    /// reading the key's bytes; a bytes reply is decoded under the metadata's
    /// wire type and the scan moves to the next key.
    pub fn on_reply(&mut self, reply: Option<SmcKeyData>)
        requires
            old(self).wf(),
            !old(self).finished(),
        ensures
            final(self).wf(),
            final(self).remaining() < old(self).remaining(),
            match (old(self)@.phase, reply) {
                (ScanPhase::AwaitInfo, Some(d)) => final(self)@ == (ScanView {
                    next: old(self)@.next,
                    phase: ScanPhase::AwaitBytes(d.key_info),
                    readings: old(self)@.readings,
                }),
                (ScanPhase::AwaitInfo, None) => final(self)@ == (ScanView {
                    next: old(self)@.next + 1,
                    phase: ScanPhase::AwaitInfo,
                    readings: old(self)@.readings,
                }),
                (ScanPhase::AwaitBytes(info), _) => final(self)@ == (ScanView {
                    next: old(self)@.next + 1,
                    phase: ScanPhase::AwaitInfo,
                    readings: readings_after_bytes(old(self)@.readings, info, reply),
                }),
            },
    {
        match self.phase {
            ScanPhase::AwaitInfo => match reply {
                Some(d) => {
                    self.phase = ScanPhase::AwaitBytes(d.key_info);
                },
                None => {
                    self.next = self.next + 1;
                },
            },
            ScanPhase::AwaitBytes(info) => {
                if let Some(d) = reply {
                    if let Some(r) = decode_value(&d.bytes, info.data_type) {
                        self.readings.push(r);
                    }
                }
                self.next = self.next + 1;
                self.phase = ScanPhase::AwaitInfo;
            },
        }
    }
}

} // verus!
