//! Metric projection: flattens one decoded telemetry record into metric
//! paths and fixed-point values.
//!
//! Every wire value is an integer with a field-specific divisor (tenths,
//! hundredths, or whole units); the projection never re-derives divisors
//! from payload metadata. Paths are hierarchical:
//! `[prefix/]dtu/<device>/...` with per-micro-inverter values under
//! `inverter/<id>/` and per-port values under `port/<id>/`. The device
//! segment is the serial's alias when the lookup holds one, else the serial.

use vstd::prelude::*;
use crate::config::{resolve_serial, spec_resolved_serial, SerialAlias};
use crate::telemetry::{HMSStateResponse, HMSStateResponseView, InverterState, PortState};

verus! {

/// Divisor of fields carried in whole units.
pub const WHOLE: u32 = 1;

/// Divisor of fields carried in tenths.
pub const TENTHS: u32 = 10;

/// Divisor of fields carried in hundredths.
pub const HUNDREDTHS: u32 = 100;

/// One projected value: the raw wire integer and the fixed-point divisor to
/// apply to it. The represented quantity is `raw / divisor`.
#[derive(Clone, Copy, Debug, PartialEq, Eq, Structural)]
pub struct Metric {
    pub raw: i128,
    pub divisor: u32,
}

/// The character of one decimal digit.
pub open spec fn digit_char(d: nat) -> char {
    if d == 0 {
        '0'
    } else if d == 1 {
        '1'
    } else if d == 2 {
        '2'
    } else if d == 3 {
        '3'
    } else if d == 4 {
        '4'
    } else if d == 5 {
        '5'
    } else if d == 6 {
        '6'
    } else if d == 7 {
        '7'
    } else if d == 8 {
        '8'
    } else {
        '9'
    }
}

/// The decimal digits of `n`, most significant first.
pub open spec fn spec_udec(n: nat) -> Seq<char>
    decreases n,
{
    if n < 10 {
        seq![digit_char(n)]
    } else {
        spec_udec(n / 10) + seq![digit_char(n % 10)]
    }
}

/// The one-character text of a decimal digit.
fn digit_str(d: u32) -> (r: &'static str)
    requires
        d < 10,
    ensures
        r@ == seq![digit_char(d as nat)],
{
    proof {
        reveal_strlit("0");
        reveal_strlit("1");
        reveal_strlit("2");
        reveal_strlit("3");
        reveal_strlit("4");
        reveal_strlit("5");
        reveal_strlit("6");
        reveal_strlit("7");
        reveal_strlit("8");
        reveal_strlit("9");
    }
    let r = match d {
        0 => "0",
        1 => "1",
        2 => "2",
        3 => "3",
        4 => "4",
        5 => "5",
        6 => "6",
        7 => "7",
        8 => "8",
        _ => "9",
    };
    assert(r@ =~= seq![digit_char(d as nat)]);
    r
}

/// The decimal text of `n`.
fn udec_string(n: u32) -> (r: String)
    ensures
        r@ == spec_udec(n as nat),
    decreases n,
{
    if n < 10 {
        String::from_str(digit_str(n))
    } else {
        let mut r = udec_string(n / 10);
        r.append(digit_str(n % 10));
        r
    }
}

/// Joins a path and a suffix.
fn path_join(base: &String, suffix: &str) -> (r: String)
    ensures
        r@ == base@ + suffix@,
{
    let mut r = base.clone();
    r.append(suffix);
    r
}

/// The view of an optional prefix.
pub open spec fn prefix_view(prefix: Option<&str>) -> Option<Seq<char>> {
    match prefix {
        Some(p) => Some(p@),
        None => None,
    }
}

/// The paths of the projected entries, with each `String` read as its
/// character sequence.
pub open spec fn topics_view(entries: Seq<(String, Metric)>) -> Seq<(Seq<char>, Metric)> {
    entries.map(|_i: int, e: (String, Metric)| (e.0@, e.1))
}

/// The root path segment shared by every metric of one record.
pub open spec fn spec_base_topic(prefix: Option<Seq<char>>, device: Seq<char>) -> Seq<char> {
    match prefix {
        Some(p) => p + "/dtu/"@ + device,
        None => "dtu/"@ + device,
    }
}

/// The record-level entries: local time unscaled, current power in tenths,
/// daily yield unscaled.
pub open spec fn spec_head_entries(base: Seq<char>, r: HMSStateResponseView) -> Seq<
    (Seq<char>, Metric),
> {
    seq![
        (base + "/inverter_local_time"@, Metric { raw: r.time as i128, divisor: WHOLE }),
        (base + "/current_power"@, Metric { raw: r.pv_current_power as i128, divisor: TENTHS }),
        (base + "/daily_yield"@, Metric { raw: r.pv_daily_yield as i128, divisor: WHOLE }),
    ]
}

/// The entries of one micro-inverter sub-record, keyed by its own id.
pub open spec fn spec_inverter_entries_one(base: Seq<char>, s: InverterState) -> Seq<
    (Seq<char>, Metric),
> {
    let sub = base + "/inverter/"@ + spec_udec(s.inv_id as nat);
    seq![
        (sub + "/grid_voltage"@, Metric { raw: s.grid_voltage as i128, divisor: TENTHS }),
        (sub + "/grid_freq"@, Metric { raw: s.grid_freq as i128, divisor: HUNDREDTHS }),
        (sub + "/temperature"@, Metric { raw: s.temperature as i128, divisor: TENTHS }),
    ]
}

/// The entries of the micro-inverter sub-records, in record order.
pub open spec fn spec_inverter_entries(base: Seq<char>, subs: Seq<InverterState>) -> Seq<
    (Seq<char>, Metric),
>
    decreases subs.len(),
{
    if subs.len() == 0 {
        Seq::empty()
    } else {
        spec_inverter_entries(base, subs.drop_last()) + spec_inverter_entries_one(
            base,
            subs.last(),
        )
    }
}

/// The entries of one DC input port sub-record, keyed by its port id.
pub open spec fn spec_port_entries_one(base: Seq<char>, p: PortState) -> Seq<(Seq<char>, Metric)> {
    let sub = base + "/port/"@ + spec_udec(p.pv_port as nat);
    seq![
        (sub + "/voltage"@, Metric { raw: p.pv_vol as i128, divisor: TENTHS }),
        (sub + "/curr"@, Metric { raw: p.pv_cur as i128, divisor: HUNDREDTHS }),
        (sub + "/power"@, Metric { raw: p.pv_power as i128, divisor: TENTHS }),
        (sub + "/energy"@, Metric { raw: p.pv_energy_total as i128, divisor: WHOLE }),
        (sub + "/daily_yield"@, Metric { raw: p.pv_daily_yield as i128, divisor: WHOLE }),
    ]
}

/// The entries of the port sub-records, in record order.
pub open spec fn spec_port_entries(base: Seq<char>, subs: Seq<PortState>) -> Seq<
    (Seq<char>, Metric),
>
    decreases subs.len(),
{
    if subs.len() == 0 {
        Seq::empty()
    } else {
        spec_port_entries(base, subs.drop_last()) + spec_port_entries_one(base, subs.last())
    }
}

/// The full projection of one record: the record-level entries, then every
/// micro-inverter sub-record's entries, then every port sub-record's.
pub open spec fn spec_topics(
    r: HMSStateResponseView,
    prefix: Option<Seq<char>>,
    aliases: Seq<SerialAlias>,
) -> Seq<(Seq<char>, Metric)> {
    let base = spec_base_topic(prefix, spec_resolved_serial(aliases, r.dtu_sn));
    spec_head_entries(base, r) + spec_inverter_entries(base, r.inverter_state)
        + spec_port_entries(base, r.port_state)
}

impl HMSStateResponse {
    /// Projects this record into metric-path/value pairs, under an optional
    /// topic prefix and with the device segment resolved through the alias
    /// lookup.
    pub fn get_topics(&self, prefix: Option<&str>, aliases: &Vec<SerialAlias>) -> (r: Vec<
        (String, Metric),
    >)
        ensures
            topics_view(r@) == spec_topics(self@, prefix_view(prefix), aliases@),
    {
        let device = resolve_serial(aliases, &self.dtu_sn);
        let mut base = String::new();
        match prefix {
            Some(p) => {
                base.append(p);
                base.append("/dtu/");
            },
            None => {
                base.append("dtu/");
            },
        }
        base.append(device.as_str());
        proof {
            assert(base@ =~= spec_base_topic(
                prefix_view(prefix),
                spec_resolved_serial(aliases@, self.dtu_sn@),
            ));
        }

        let mut out: Vec<(String, Metric)> = Vec::new();
        out.push(
            (
                path_join(&base, "/inverter_local_time"),
                Metric { raw: self.time as i128, divisor: WHOLE },
            ),
        );
        out.push(
            (
                path_join(&base, "/current_power"),
                Metric { raw: self.pv_current_power as i128, divisor: TENTHS },
            ),
        );
        out.push(
            (
                path_join(&base, "/daily_yield"),
                Metric { raw: self.pv_daily_yield as i128, divisor: WHOLE },
            ),
        );
        proof {
            assert(topics_view(out@) =~~= spec_head_entries(base@, self@));
        }

        let mut i: usize = 0;
        while i < self.inverter_state.len()
            invariant
                i <= self.inverter_state@.len(),
                base@ == spec_base_topic(
                    prefix_view(prefix),
                    spec_resolved_serial(aliases@, self.dtu_sn@),
                ),
                topics_view(out@) =~~= spec_head_entries(base@, self@) + spec_inverter_entries(
                    base@,
                    self.inverter_state@.take(i as int),
                ),
            decreases self.inverter_state@.len() - i,
        {
            let ghost t0 = topics_view(out@);
            let s = self.inverter_state[i];
            let mut sub = path_join(&base, "/inverter/");
            let id_text = udec_string(s.inv_id);
            sub.append(id_text.as_str());
            out.push(
                (
                    path_join(&sub, "/grid_voltage"),
                    Metric { raw: s.grid_voltage as i128, divisor: TENTHS },
                ),
            );
            out.push(
                (
                    path_join(&sub, "/grid_freq"),
                    Metric { raw: s.grid_freq as i128, divisor: HUNDREDTHS },
                ),
            );
            out.push(
                (
                    path_join(&sub, "/temperature"),
                    Metric { raw: s.temperature as i128, divisor: TENTHS },
                ),
            );
            proof {
                let subs = self.inverter_state@;
                let one = spec_inverter_entries_one(base@, subs[i as int]);
                assert(topics_view(out@) =~~= t0 + one);
                assert(subs.take(i as int + 1).drop_last() =~= subs.take(i as int));
                assert(subs.take(i as int + 1).last() == subs[i as int]);
                assert(spec_inverter_entries(base@, subs.take(i as int + 1))
                    == spec_inverter_entries(base@, subs.take(i as int)) + one);
                assert((spec_head_entries(base@, self@) + spec_inverter_entries(
                    base@,
                    subs.take(i as int),
                )) + one =~= spec_head_entries(base@, self@) + (spec_inverter_entries(
                    base@,
                    subs.take(i as int),
                ) + one));
            }
            i += 1;
        }
        proof {
            assert(self.inverter_state@.take(self.inverter_state@.len() as int)
                =~= self.inverter_state@);
        }

        let mut j: usize = 0;
        while j < self.port_state.len()
            invariant
                j <= self.port_state@.len(),
                base@ == spec_base_topic(
                    prefix_view(prefix),
                    spec_resolved_serial(aliases@, self.dtu_sn@),
                ),
                topics_view(out@) =~~= spec_head_entries(base@, self@) + spec_inverter_entries(
                    base@,
                    self.inverter_state@,
                ) + spec_port_entries(base@, self.port_state@.take(j as int)),
            decreases self.port_state@.len() - j,
        {
            let ghost t0 = topics_view(out@);
            let p = self.port_state[j];
            let mut sub = path_join(&base, "/port/");
            let id_text = udec_string(p.pv_port);
            sub.append(id_text.as_str());
            out.push(
                (path_join(&sub, "/voltage"), Metric { raw: p.pv_vol as i128, divisor: TENTHS }),
            );
            out.push(
                (path_join(&sub, "/curr"), Metric { raw: p.pv_cur as i128, divisor: HUNDREDTHS }),
            );
            out.push(
                (path_join(&sub, "/power"), Metric { raw: p.pv_power as i128, divisor: TENTHS }),
            );
            out.push(
                (
                    path_join(&sub, "/energy"),
                    Metric { raw: p.pv_energy_total as i128, divisor: WHOLE },
                ),
            );
            out.push(
                (
                    path_join(&sub, "/daily_yield"),
                    Metric { raw: p.pv_daily_yield as i128, divisor: WHOLE },
                ),
            );
            proof {
                let subs = self.port_state@;
                let head = spec_head_entries(base@, self@) + spec_inverter_entries(
                    base@,
                    self.inverter_state@,
                );
                let one = spec_port_entries_one(base@, subs[j as int]);
                assert(topics_view(out@) =~~= t0 + one);
                assert(subs.take(j as int + 1).drop_last() =~= subs.take(j as int));
                assert(subs.take(j as int + 1).last() == subs[j as int]);
                assert(spec_port_entries(base@, subs.take(j as int + 1)) == spec_port_entries(
                    base@,
                    subs.take(j as int),
                ) + one);
                assert((head + spec_port_entries(base@, subs.take(j as int))) + one =~= head + (
                spec_port_entries(base@, subs.take(j as int)) + one));
            }
            j += 1;
        }
        proof {
            assert(self.port_state@.take(self.port_state@.len() as int) =~= self.port_state@);
            assert(topics_view(out@) =~~= spec_topics(self@, prefix_view(prefix), aliases@));
        }
        out
    }
}

} // verus!
