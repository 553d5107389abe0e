//! Plain configuration values the core receives from its surroundings, and
//! the serial-to-alias lookup used by the metric projection.

use vstd::prelude::*;

verus! {

/// One serial-to-alias entry: telemetry for the device with this serial is
/// published under the alias instead.
#[derive(Clone, Debug)]
pub struct SerialAlias {
    pub serial: String,
    pub alias: String,
}

/// Connection settings for one message-bus consumer. The core reads only
/// the base topic and the alias table; the rest is carried through to the
/// transport.
#[derive(Clone, Debug)]
pub struct MqttConfig {
    pub host: String,
    pub port: Option<u16>,
    pub username: Option<String>,
    pub password: Option<String>,
    pub tls: Option<bool>,
    pub base_topic: String,
    pub client_id: String,
    pub serial_aliases: Vec<SerialAlias>,
}

/// The base topic used when the configuration names none.
pub fn default_topic() -> (r: String)
    ensures
        r@ == "hms800wt2"@,
{
    String::from_str("hms800wt2")
}

/// The poll cadence in milliseconds used when the configuration names none.
pub fn default_update_interval() -> (r: u64)
    ensures
        r == 30500,
{
    30500
}

/// Whether a character is an ASCII letter or digit.
pub open spec fn is_ascii_alphanumeric_char(c: char) -> bool {
    (48 <= c as u32 && c as u32 <= 57) || (65 <= c as u32 && c as u32 <= 90) || (97 <= c as u32
        && c as u32 <= 122)
}

/// Relies on rand's `Alphanumeric` distribution: `sample_string` returns
/// exactly `len` characters, each an ASCII letter or digit.
#[verifier::external_body]
fn random_alphanumeric(len: usize) -> (r: String)
    ensures
        r@.len() == len,
        forall|i: int| 0 <= i < r@.len() ==> is_ascii_alphanumeric_char(r@[i]),
{
    rand::distr::SampleString::sample_string(&rand::distr::Alphanumeric, &mut rand::rng(), len)
}

/// The client identifier used when the configuration names none: a fixed
/// prefix followed by five random alphanumeric characters, so that two
/// instances do not collide on the broker.
pub fn default_client_id() -> (r: String)
    ensures
        r@.len() == 14,
        r@.subrange(0, 9) == "hms-mqtt-"@,
        forall|i: int| 9 <= i < r@.len() ==> is_ascii_alphanumeric_char(r@[i]),
{
    proof {
        reveal_strlit("hms-mqtt-");
    }
    let mut r = String::from_str("hms-mqtt-");
    let suffix = random_alphanumeric(5);
    r.append(suffix.as_str());
    assert(r@.subrange(0, 9) =~= "hms-mqtt-"@);
    r
}

/// The alias recorded for `serial`, if the table holds one: a later entry
/// for the same serial overrides an earlier one.
pub open spec fn spec_alias_of(aliases: Seq<SerialAlias>, serial: Seq<char>) -> Option<Seq<char>>
    decreases aliases.len(),
{
    if aliases.len() == 0 {
        None
    } else if aliases.last().serial@ == serial {
        Some(aliases.last().alias@)
    } else {
        spec_alias_of(aliases.drop_last(), serial)
    }
}

/// The device path segment for `serial`: its alias if the table holds one,
/// else the serial itself.
pub open spec fn spec_resolved_serial(aliases: Seq<SerialAlias>, serial: Seq<char>) -> Seq<char> {
    match spec_alias_of(aliases, serial) {
        Some(alias) => alias,
        None => serial,
    }
}

/// Resolves the device path segment for `serial` against the alias table.
pub fn resolve_serial(aliases: &Vec<SerialAlias>, serial: &String) -> (r: String)
    ensures
        r@ == spec_resolved_serial(aliases@, serial@),
{
    let mut i: usize = aliases.len();
    proof {
        assert(aliases@.subrange(0, aliases@.len() as int) =~= aliases@);
    }
    while i > 0
        invariant
            i <= aliases@.len(),
            spec_alias_of(aliases@, serial@) == spec_alias_of(
                aliases@.subrange(0, i as int),
                serial@,
            ),
        decreases i,
    {
        i = i - 1;
        let entry = &aliases[i];
        if entry.serial.eq(serial) {
            proof {
                assert(aliases@.subrange(0, i as int + 1).last() == aliases@[i as int]);
            }
            return entry.alias.clone();
        }
        proof {
            assert(aliases@.subrange(0, i as int + 1).drop_last() =~= aliases@.subrange(
                0,
                i as int,
            ));
            assert(aliases@.subrange(0, i as int + 1).last() == aliases@[i as int]);
        }
    }
    proof {
        assert(aliases@.subrange(0, 0) =~= Seq::<SerialAlias>::empty());
    }
    serial.clone()
}

} // verus!
