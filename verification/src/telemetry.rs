//! Telemetry record types and the decoder for the device's response payload.
//!
//! The payload is a sequence of key/value fields. A key is a varint holding
//! `field_number * 8 + wire_type`; wire type 0 is a varint scalar, wire type 2
//! a length-delimited chunk (text or an embedded sub-record), wire types 1 and
//! 5 are fixed-width chunks of 8 and 4 bytes. Unknown fields are skipped, and
//! a later occurrence of a scalar field overwrites an earlier one. Embedded
//! sub-records describe one micro-inverter or one DC input port each.

use vstd::prelude::*;
use crate::failure::Failure;

verus! {

/// Per-micro-inverter telemetry: grid voltage in tenths of a volt, grid
/// frequency in hundredths of a hertz, temperature in tenths of a degree.
#[derive(Clone, Copy, Debug, PartialEq, Eq, Structural)]
pub struct InverterState {
    pub inv_id: u32,
    pub grid_voltage: u32,
    pub grid_freq: u32,
    pub temperature: i32,
}

/// Per-DC-input-port telemetry: voltage in tenths of a volt, current in
/// hundredths of an ampere, power in tenths of a watt, energy figures in
/// whole units.
#[derive(Clone, Copy, Debug, PartialEq, Eq, Structural)]
pub struct PortState {
    pub pv_port: u32,
    pub pv_vol: u32,
    pub pv_cur: u32,
    pub pv_power: u32,
    pub pv_energy_total: u32,
    pub pv_daily_yield: u32,
}

/// One decoded telemetry record: device serial, epoch timestamp, aggregate
/// figures, and the per-micro-inverter and per-port sub-records.
#[derive(Clone, Debug)]
pub struct HMSStateResponse {
    pub dtu_sn: String,
    pub time: u64,
    pub pv_current_power: u32,
    pub pv_daily_yield: u32,
    pub inverter_state: Vec<InverterState>,
    pub port_state: Vec<PortState>,
}

/// Mathematical model of a telemetry record.
pub ghost struct HMSStateResponseView {
    pub dtu_sn: Seq<char>,
    pub time: u64,
    pub pv_current_power: u32,
    pub pv_daily_yield: u32,
    pub inverter_state: Seq<InverterState>,
    pub port_state: Seq<PortState>,
}

impl View for HMSStateResponse {
    type V = HMSStateResponseView;

    open spec fn view(&self) -> HMSStateResponseView {
        HMSStateResponseView {
            dtu_sn: self.dtu_sn@,
            time: self.time,
            pv_current_power: self.pv_current_power,
            pv_daily_yield: self.pv_daily_yield,
            inverter_state: self.inverter_state@,
            port_state: self.port_state@,
        }
    }
}

impl InverterState {
    /// The all-zero sub-record every decode starts from.
    pub open spec fn spec_default() -> InverterState {
        InverterState { inv_id: 0, grid_voltage: 0, grid_freq: 0, temperature: 0 }
    }
}

impl Default for InverterState {
    fn default() -> (r: Self)
        ensures
            r == InverterState::spec_default(),
    {
        InverterState { inv_id: 0, grid_voltage: 0, grid_freq: 0, temperature: 0 }
    }
}

impl PortState {
    /// The all-zero sub-record every decode starts from.
    pub open spec fn spec_default() -> PortState {
        PortState { pv_port: 0, pv_vol: 0, pv_cur: 0, pv_power: 0, pv_energy_total: 0, pv_daily_yield: 0 }
    }
}

impl Default for PortState {
    fn default() -> (r: Self)
        ensures
            r == PortState::spec_default(),
    {
        PortState { pv_port: 0, pv_vol: 0, pv_cur: 0, pv_power: 0, pv_energy_total: 0, pv_daily_yield: 0 }
    }
}

impl HMSStateResponse {
    /// The empty record every decode starts from: empty serial, zero values,
    /// no sub-records.
    pub open spec fn spec_default() -> HMSStateResponseView {
        HMSStateResponseView {
            dtu_sn: Seq::empty(),
            time: 0,
            pv_current_power: 0,
            pv_daily_yield: 0,
            inverter_state: Seq::empty(),
            port_state: Seq::empty(),
        }
    }
}

impl Default for HMSStateResponse {
    fn default() -> (r: Self)
        ensures
            r@ == HMSStateResponse::spec_default(),
    {
        let r = HMSStateResponse {
            dtu_sn: String::new(),
            time: 0,
            pv_current_power: 0,
            pv_daily_yield: 0,
            inverter_state: Vec::new(),
            port_state: Vec::new(),
        };
        assert(r@ =~= HMSStateResponse::spec_default());
        r
    }
}

/// Value and end position of the varint starting at `pos`, if one is there
/// and its value fits in 64 bits. Varints store seven low bits per byte,
/// least significant first; the high bit marks continuation.
pub open spec fn spec_varint(bytes: Seq<u8>, pos: int) -> Option<(u64, int)>
    decreases bytes.len() - pos,
{
    if pos < 0 || pos >= bytes.len() {
        None
    } else if bytes[pos] < 128 {
        Some((bytes[pos] as u64, pos + 1))
    } else {
        match spec_varint(bytes, pos + 1) {
            None => None,
            Some((rest, end)) => {
                let low = (bytes[pos] - 128) as u64;
                if rest <= (u64::MAX - low) / 128 {
                    Some(((low + 128 * rest) as u64, end))
                } else {
                    None
                }
            },
        }
    }
}

/// Reads the varint starting at `pos`.
fn read_varint(bytes: &Vec<u8>, pos: usize) -> (r: Option<(u64, usize)>)
    ensures
        match r {
            Some(p) => spec_varint(bytes@, pos as int) == Some((p.0, p.1 as int)) && pos < p.1
                <= bytes@.len(),
            None => spec_varint(bytes@, pos as int) is None,
        },
    decreases bytes@.len() - pos,
{
    if pos >= bytes.len() {
        return None;
    }
    let b = bytes[pos];
    if b < 128 {
        Some((b as u64, pos + 1))
    } else {
        match read_varint(bytes, pos + 1) {
            None => None,
            Some((rest, end)) => {
                let low = (b - 128) as u64;
                if rest <= (u64::MAX - low) / 128 {
                    Some((low + 128 * rest, end))
                } else {
                    None
                }
            },
        }
    }
}

/// The low 32 bits of a scalar, as unsigned.
pub open spec fn low32(v: u64) -> u32 {
    (v % 0x1_0000_0000) as u32
}

/// The low 32 bits of a scalar, read as a two's-complement signed value.
pub open spec fn low32_signed(v: u64) -> i32 {
    if v % 0x1_0000_0000 >= 0x8000_0000 {
        (v % 0x1_0000_0000 - 0x1_0000_0000) as i32
    } else {
        (v % 0x1_0000_0000) as i32
    }
}

/// End position after skipping one value of the given wire type at `pos`,
/// if it lies entirely inside `[pos, end)`.
pub open spec fn spec_skip(bytes: Seq<u8>, pos: int, end: int, wire_type: u64) -> Option<int> {
    if wire_type == 0 {
        match spec_varint(bytes, pos) {
            None => None,
            Some((v, p)) => if p <= end {
                Some(p)
            } else {
                None
            },
        }
    } else if wire_type == 1 {
        if pos + 8 <= end {
            Some(pos + 8)
        } else {
            None
        }
    } else if wire_type == 2 {
        match spec_varint(bytes, pos) {
            None => None,
            Some((len, p)) => if p <= end && len <= end - p {
                Some(p + len)
            } else {
                None
            },
        }
    } else if wire_type == 5 {
        if pos + 4 <= end {
            Some(pos + 4)
        } else {
            None
        }
    } else {
        None
    }
}

/// Skips one value of the given wire type at `pos`.
fn skip_field(bytes: &Vec<u8>, pos: usize, end: usize, wire_type: u64) -> (r: Option<usize>)
    requires
        end <= bytes@.len(),
    ensures
        match r {
            Some(p) => spec_skip(bytes@, pos as int, end as int, wire_type) == Some(p as int) && p
                <= end,
            None => spec_skip(bytes@, pos as int, end as int, wire_type) is None,
        },
{
    if wire_type == 0 {
        match read_varint(bytes, pos) {
            None => None,
            Some((_v, p)) => if p <= end {
                Some(p)
            } else {
                None
            },
        }
    } else if wire_type == 1 {
        if pos <= end && end - pos >= 8 {
            Some(pos + 8)
        } else {
            None
        }
    } else if wire_type == 2 {
        match read_varint(bytes, pos) {
            None => None,
            Some((len, p)) => if p <= end && len <= (end - p) as u64 {
                Some(p + len as usize)
            } else {
                None
            },
        }
    } else if wire_type == 5 {
        if pos <= end && end - pos >= 4 {
            Some(pos + 4)
        } else {
            None
        }
    } else {
        None
    }
}

/// Whether every byte in `[from, to)` is ASCII.
pub open spec fn ascii_ok(bytes: Seq<u8>, from: int, to: int) -> bool {
    forall|i: int| from <= i < to ==> bytes[i] < 128
}

/// The bytes in `[from, to)` read as a character sequence.
pub open spec fn char_seq(bytes: Seq<u8>, from: int, to: int) -> Seq<char> {
    Seq::new((to - from) as nat, |i: int| bytes[from + i] as char)
}

/// Relies on `String::from_utf8`: ASCII bytes decode to exactly those
/// characters.
#[verifier::external_body]
fn ascii_to_string(b: Vec<u8>) -> (r: String)
    requires
        forall|i: int| 0 <= i < b@.len() ==> b@[i] < 128,
    ensures
        r@ == Seq::new(b@.len(), |i: int| b@[i] as char),
{
    match String::from_utf8(b) {
        Ok(s) => s,
        Err(_) => String::new(),
    }
}

/// Parses the fields of one micro-inverter sub-record occupying
/// `[pos, end)`, over the partial sub-record `acc`.
pub open spec fn spec_parse_inverter_fields(
    bytes: Seq<u8>,
    pos: int,
    end: int,
    acc: InverterState,
) -> Option<InverterState>
    decreases end - pos,
{
    if pos < 0 || end > bytes.len() {
        None
    } else if pos == end {
        Some(acc)
    } else if pos > end {
        None
    } else {
        match spec_varint(bytes, pos) {
            None => None,
            Some((key, p1)) => {
                if p1 <= pos || p1 > end {
                    None
                } else {
                    let field = key / 8;
                    let wt = key % 8;
                    if wt == 0 {
                        match spec_varint(bytes, p1) {
                            None => None,
                            Some((v, p2)) => {
                                if p2 <= p1 || p2 > end {
                                    None
                                } else {
                                    let acc2 = if field == 1 {
                                        InverterState { inv_id: low32(v), ..acc }
                                    } else if field == 2 {
                                        InverterState { grid_voltage: low32(v), ..acc }
                                    } else if field == 3 {
                                        InverterState { grid_freq: low32(v), ..acc }
                                    } else if field == 4 {
                                        InverterState { temperature: low32_signed(v), ..acc }
                                    } else {
                                        acc
                                    };
                                    spec_parse_inverter_fields(bytes, p2, end, acc2)
                                }
                            },
                        }
                    } else {
                        match spec_skip(bytes, p1, end, wt) {
                            None => None,
                            Some(p2) => if p2 <= pos {
                                None
                            } else {
                                spec_parse_inverter_fields(bytes, p2, end, acc)
                            },
                        }
                    }
                }
            },
        }
    }
}

/// Parses one micro-inverter sub-record occupying `[pos, end)`.
fn parse_inverter_fields(bytes: &Vec<u8>, pos: usize, end: usize, acc: InverterState) -> (r: Option<
    InverterState,
>)
    requires
        end <= bytes@.len(),
    ensures
        r == spec_parse_inverter_fields(bytes@, pos as int, end as int, acc),
    decreases end - pos,
{
    if pos == end {
        return Some(acc);
    }
    if pos > end {
        return None;
    }
    match read_varint(bytes, pos) {
        None => None,
        Some((key, p1)) => {
            if p1 > end {
                None
            } else {
                let field = key / 8;
                let wt = key % 8;
                if wt == 0 {
                    match read_varint(bytes, p1) {
                        None => None,
                        Some((v, p2)) => {
                            if p2 > end {
                                None
                            } else {
                                let acc2 = if field == 1 {
                                    InverterState { inv_id: unsigned32_of(v), ..acc }
                                } else if field == 2 {
                                    InverterState { grid_voltage: unsigned32_of(v), ..acc }
                                } else if field == 3 {
                                    InverterState { grid_freq: unsigned32_of(v), ..acc }
                                } else if field == 4 {
                                    InverterState { temperature: signed32_of(v), ..acc }
                                } else {
                                    acc
                                };
                                parse_inverter_fields(bytes, p2, end, acc2)
                            }
                        },
                    }
                } else {
                    match skip_field(bytes, p1, end, wt) {
                        None => None,
                        Some(p2) => if p2 <= pos {
                            None
                        } else {
                            parse_inverter_fields(bytes, p2, end, acc)
                        },
                    }
                }
            }
        },
    }
}

/// Parses the fields of one DC input port sub-record occupying
/// `[pos, end)`, over the partial sub-record `acc`.
pub open spec fn spec_parse_port_fields(
    bytes: Seq<u8>,
    pos: int,
    end: int,
    acc: PortState,
) -> Option<PortState>
    decreases end - pos,
{
    if pos < 0 || end > bytes.len() {
        None
    } else if pos == end {
        Some(acc)
    } else if pos > end {
        None
    } else {
        match spec_varint(bytes, pos) {
            None => None,
            Some((key, p1)) => {
                if p1 <= pos || p1 > end {
                    None
                } else {
                    let field = key / 8;
                    let wt = key % 8;
                    if wt == 0 {
                        match spec_varint(bytes, p1) {
                            None => None,
                            Some((v, p2)) => {
                                if p2 <= p1 || p2 > end {
                                    None
                                } else {
                                    let acc2 = if field == 1 {
                                        PortState { pv_port: low32(v), ..acc }
                                    } else if field == 2 {
                                        PortState { pv_vol: low32(v), ..acc }
                                    } else if field == 3 {
                                        PortState { pv_cur: low32(v), ..acc }
                                    } else if field == 4 {
                                        PortState { pv_power: low32(v), ..acc }
                                    } else if field == 5 {
                                        PortState { pv_energy_total: low32(v), ..acc }
                                    } else if field == 6 {
                                        PortState { pv_daily_yield: low32(v), ..acc }
                                    } else {
                                        acc
                                    };
                                    spec_parse_port_fields(bytes, p2, end, acc2)
                                }
                            },
                        }
                    } else {
                        match spec_skip(bytes, p1, end, wt) {
                            None => None,
                            Some(p2) => if p2 <= pos {
                                None
                            } else {
                                spec_parse_port_fields(bytes, p2, end, acc)
                            },
                        }
                    }
                }
            },
        }
    }
}

/// Parses one DC input port sub-record occupying `[pos, end)`.
fn parse_port_fields(bytes: &Vec<u8>, pos: usize, end: usize, acc: PortState) -> (r: Option<
    PortState,
>)
    requires
        end <= bytes@.len(),
    ensures
        r == spec_parse_port_fields(bytes@, pos as int, end as int, acc),
    decreases end - pos,
{
    if pos == end {
        return Some(acc);
    }
    if pos > end {
        return None;
    }
    match read_varint(bytes, pos) {
        None => None,
        Some((key, p1)) => {
            if p1 > end {
                None
            } else {
                let field = key / 8;
                let wt = key % 8;
                if wt == 0 {
                    match read_varint(bytes, p1) {
                        None => None,
                        Some((v, p2)) => {
                            if p2 > end {
                                None
                            } else {
                                let acc2 = if field == 1 {
                                    PortState { pv_port: unsigned32_of(v), ..acc }
                                } else if field == 2 {
                                    PortState { pv_vol: unsigned32_of(v), ..acc }
                                } else if field == 3 {
                                    PortState { pv_cur: unsigned32_of(v), ..acc }
                                } else if field == 4 {
                                    PortState { pv_power: unsigned32_of(v), ..acc }
                                } else if field == 5 {
                                    PortState { pv_energy_total: unsigned32_of(v), ..acc }
                                } else if field == 6 {
                                    PortState { pv_daily_yield: unsigned32_of(v), ..acc }
                                } else {
                                    acc
                                };
                                parse_port_fields(bytes, p2, end, acc2)
                            }
                        },
                    }
                } else {
                    match skip_field(bytes, p1, end, wt) {
                        None => None,
                        Some(p2) => if p2 <= pos {
                            None
                        } else {
                            parse_port_fields(bytes, p2, end, acc)
                        },
                    }
                }
            }
        },
    }
}

/// The low 32 bits of a decoded scalar, as unsigned.
fn unsigned32_of(v: u64) -> (r: u32)
    ensures
        r == low32(v),
{
    (v % 0x1_0000_0000) as u32
}

/// The low 32 bits of a decoded scalar, as two's-complement signed.
fn signed32_of(v: u64) -> (r: i32)
    ensures
        r == low32_signed(v),
{
    let m: u64 = v % 0x1_0000_0000;
    if m >= 0x8000_0000 {
        ((m as i64) - 0x1_0000_0000i64) as i32
    } else {
        m as i32
    }
}

/// Parses the fields of one telemetry record occupying `[pos, end)`, over
/// the partial record `acc`. Scalar fields are the epoch timestamp, the
/// aggregate current power and the aggregate daily yield; length-delimited
/// fields are the device serial and the embedded micro-inverter and port
/// sub-records, which append in wire order.
pub open spec fn spec_parse_record_fields(
    bytes: Seq<u8>,
    pos: int,
    end: int,
    acc: HMSStateResponseView,
) -> Option<HMSStateResponseView>
    decreases end - pos,
{
    if pos < 0 || end > bytes.len() {
        None
    } else if pos == end {
        Some(acc)
    } else if pos > end {
        None
    } else {
        match spec_varint(bytes, pos) {
            None => None,
            Some((key, p1)) => {
                if p1 <= pos || p1 > end {
                    None
                } else {
                    let field = key / 8;
                    let wt = key % 8;
                    if wt == 0 {
                        match spec_varint(bytes, p1) {
                            None => None,
                            Some((v, p2)) => {
                                if p2 <= p1 || p2 > end {
                                    None
                                } else {
                                    let acc2 = if field == 2 {
                                        HMSStateResponseView { time: v, ..acc }
                                    } else if field == 3 {
                                        HMSStateResponseView { pv_current_power: low32(v), ..acc }
                                    } else if field == 4 {
                                        HMSStateResponseView { pv_daily_yield: low32(v), ..acc }
                                    } else {
                                        acc
                                    };
                                    spec_parse_record_fields(bytes, p2, end, acc2)
                                }
                            },
                        }
                    } else if wt == 2 {
                        match spec_varint(bytes, p1) {
                            None => None,
                            Some((len, p2)) => {
                                if p2 <= p1 || p2 > end || len > end - p2 {
                                    None
                                } else {
                                    let chunk_end = p2 + len;
                                    if field == 1 {
                                        if ascii_ok(bytes, p2, chunk_end) {
                                            spec_parse_record_fields(
                                                bytes,
                                                chunk_end,
                                                end,
                                                HMSStateResponseView {
                                                    dtu_sn: char_seq(bytes, p2, chunk_end),
                                                    ..acc
                                                },
                                            )
                                        } else {
                                            None
                                        }
                                    } else if field == 5 {
                                        match spec_parse_inverter_fields(
                                            bytes,
                                            p2,
                                            chunk_end,
                                            InverterState::spec_default(),
                                        ) {
                                            None => None,
                                            Some(sub) => spec_parse_record_fields(
                                                bytes,
                                                chunk_end,
                                                end,
                                                HMSStateResponseView {
                                                    inverter_state: acc.inverter_state.push(sub),
                                                    ..acc
                                                },
                                            ),
                                        }
                                    } else if field == 6 {
                                        match spec_parse_port_fields(
                                            bytes,
                                            p2,
                                            chunk_end,
                                            PortState::spec_default(),
                                        ) {
                                            None => None,
                                            Some(sub) => spec_parse_record_fields(
                                                bytes,
                                                chunk_end,
                                                end,
                                                HMSStateResponseView {
                                                    port_state: acc.port_state.push(sub),
                                                    ..acc
                                                },
                                            ),
                                        }
                                    } else {
                                        spec_parse_record_fields(bytes, chunk_end, end, acc)
                                    }
                                }
                            },
                        }
                    } else {
                        match spec_skip(bytes, p1, end, wt) {
                            None => None,
                            Some(p2) => if p2 <= pos {
                                None
                            } else {
                                spec_parse_record_fields(bytes, p2, end, acc)
                            },
                        }
                    }
                }
            },
        }
    }
}

/// Parses one telemetry record occupying `[pos, end)`.
fn parse_record_fields(bytes: &Vec<u8>, pos: usize, end: usize, acc: HMSStateResponse) -> (r:
    Option<HMSStateResponse>)
    requires
        end <= bytes@.len(),
    ensures
        match r {
            Some(rec) => spec_parse_record_fields(bytes@, pos as int, end as int, acc@) == Some(
                rec@,
            ),
            None => spec_parse_record_fields(bytes@, pos as int, end as int, acc@) is None,
        },
    decreases end - pos,
{
    let mut acc = acc;
    if pos == end {
        return Some(acc);
    }
    if pos > end {
        return None;
    }
    match read_varint(bytes, pos) {
        None => None,
        Some((key, p1)) => {
            if p1 > end {
                None
            } else {
                let field = key / 8;
                let wt = key % 8;
                if wt == 0 {
                    match read_varint(bytes, p1) {
                        None => None,
                        Some((v, p2)) => {
                            if p2 > end {
                                None
                            } else {
                                if field == 2 {
                                    acc.time = v;
                                } else if field == 3 {
                                    acc.pv_current_power = unsigned32_of(v);
                                } else if field == 4 {
                                    acc.pv_daily_yield = unsigned32_of(v);
                                }
                                parse_record_fields(bytes, p2, end, acc)
                            }
                        },
                    }
                } else if wt == 2 {
                    match read_varint(bytes, p1) {
                        None => None,
                        Some((len, p2)) => {
                            if p2 > end || len > (end - p2) as u64 {
                                None
                            } else {
                                let chunk_end: usize = p2 + len as usize;
                                if field == 1 {
                                    match read_ascii_chunk(bytes, p2, chunk_end) {
                                        None => None,
                                        Some(s) => {
                                            acc.dtu_sn = s;
                                            parse_record_fields(bytes, chunk_end, end, acc)
                                        },
                                    }
                                } else if field == 5 {
                                    match parse_inverter_fields(
                                        bytes,
                                        p2,
                                        chunk_end,
                                        InverterState::default(),
                                    ) {
                                        None => None,
                                        Some(sub) => {
                                            acc.inverter_state.push(sub);
                                            parse_record_fields(bytes, chunk_end, end, acc)
                                        },
                                    }
                                } else if field == 6 {
                                    match parse_port_fields(
                                        bytes,
                                        p2,
                                        chunk_end,
                                        PortState::default(),
                                    ) {
                                        None => None,
                                        Some(sub) => {
                                            acc.port_state.push(sub);
                                            parse_record_fields(bytes, chunk_end, end, acc)
                                        },
                                    }
                                } else {
                                    parse_record_fields(bytes, chunk_end, end, acc)
                                }
                            }
                        },
                    }
                } else {
                    match skip_field(bytes, p1, end, wt) {
                        None => None,
                        Some(p2) => if p2 <= pos {
                            None
                        } else {
                            parse_record_fields(bytes, p2, end, acc)
                        },
                    }
                }
            }
        },
    }
}

/// Reads the bytes in `[from, to)` as ASCII text, or nothing if one of them
/// is not ASCII.
fn read_ascii_chunk(bytes: &Vec<u8>, from: usize, to: usize) -> (r: Option<String>)
    requires
        from <= to <= bytes@.len(),
    ensures
        match r {
            Some(s) => ascii_ok(bytes@, from as int, to as int) && s@ == char_seq(
                bytes@,
                from as int,
                to as int,
            ),
            None => !ascii_ok(bytes@, from as int, to as int),
        },
{
    let mut chunk: Vec<u8> = Vec::new();
    let mut i: usize = from;
    while i < to
        invariant
            from <= i <= to <= bytes@.len(),
            chunk@.len() == i - from,
            forall|j: int| 0 <= j < chunk@.len() ==> chunk@[j] == bytes@[from + j] && chunk@[j]
                < 128,
        decreases to - i,
    {
        let b = bytes[i];
        if b >= 128 {
            return None;
        }
        chunk.push(b);
        i += 1;
    }
    assert forall|k: int| from <= k < to implies bytes@[k] < 128 by {
        assert(chunk@[k - from] == bytes@[k]);
    }
    let s = ascii_to_string(chunk);
    assert forall|j: int| 0 <= j < s@.len() implies s@[j] == char_seq(
        bytes@,
        from as int,
        to as int,
    )[j] by {
        assert(chunk@[j] == bytes@[from + j]);
    }
    assert(s@ =~= char_seq(bytes@, from as int, to as int));
    Some(s)
}

/// The record described by a complete response payload, if it is well
/// formed.
pub open spec fn spec_decode(payload: Seq<u8>) -> Option<HMSStateResponseView> {
    spec_parse_record_fields(payload, 0, payload.len() as int, HMSStateResponse::spec_default())
}

/// Decodes a complete response payload into a telemetry record. A malformed
/// payload is an explicit decode failure, never a crash.
pub fn decode_response(payload: &Vec<u8>) -> (r: Result<HMSStateResponse, Failure>)
    ensures
        match r {
            Ok(rec) => spec_decode(payload@) == Some(rec@),
            Err(f) => f == Failure::Decode && spec_decode(payload@) is None,
        },
{
    let empty = HMSStateResponse::default();
    match parse_record_fields(payload, 0, payload.len(), empty) {
        Some(rec) => Ok(rec),
        None => Err(Failure::Decode),
    }
}

} // verus!
