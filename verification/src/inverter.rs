//! The inverter client: request preparation, response handling, and the
//! device-availability state machine.
//!
//! One client owns one device. A request attempt has two halves: the client
//! advances its sequence counter and frames the request, the caller carries
//! the frame over the wire, and the client then consumes the transport
//! outcome, decoding the raw response and driving its reachability state.

use vstd::prelude::*;
use crate::codec::{encode_request, extract_payload, frame_bytes};
use crate::failure::Failure;
use crate::telemetry::{decode_response, spec_decode, HMSStateResponse, HMSStateResponseView};

verus! {

/// Reachability of one device as last observed after a request attempt.
/// `Unknown` holds only before the first attempt; every attempt ends in
/// `Online` or `Offline`.
#[derive(Clone, Copy, Debug, PartialEq, Eq, PartialOrd, Ord, Structural)]
pub enum NetworkState {
    Unknown,
    Online,
    Offline,
}

/// A request body that knows its protocol command opcode.
pub trait InverterRequest {
    /// The two command opcode bytes this request is framed under.
    fn get_cmd(&self) -> (u8, u8);
}

/// The (currently payload-less) "read real-time data" request body.
pub struct RealDataResDTO {}

impl RealDataResDTO {
    /// The serialized request body: this request carries no payload.
    pub fn to_bytes(&self) -> (r: Vec<u8>)
        ensures
            r@ == Seq::<u8>::empty(),
    {
        let r: Vec<u8> = Vec::new();
        assert(r@ =~= Seq::<u8>::empty());
        r
    }
}

impl InverterRequest for RealDataResDTO {
    fn get_cmd(&self) -> (u8, u8) {
        (crate::codec::CMD_GET_DATA_0, crate::codec::CMD_GET_DATA_1)
    }
}

/// A pollable device: record reachability, and turn one transport outcome
/// into a telemetry record if there is one.
pub trait Inverter {
    /// Records the new reachability and reports whether it differs from the
    /// stored one; a transition is worth logging only when it does.
    fn set_state(&mut self, new_state: NetworkState) -> bool;

    /// Consumes the transport outcome of one request attempt and returns the
    /// decoded telemetry record, if the attempt succeeded.
    fn update_state(&mut self, outcome: Result<Vec<u8>, Failure>) -> Option<HMSStateResponse>;
}

/// The sequence counter value after one request attempt: it advances by one
/// and wraps at 65536.
pub open spec fn next_sequence(s: u16) -> u16 {
    ((s + 1) % 0x10000) as u16
}

/// The sequence counter value after `n` request attempts.
pub open spec fn sequence_after(s: u16, n: nat) -> u16
    decreases n,
{
    if n == 0 {
        s
    } else {
        next_sequence(sequence_after(s, (n - 1) as nat))
    }
}

/// The client for one physical device: host, last observed reachability,
/// and the per-instance sequence counter.
pub struct HMSInverter<'a> {
    host: &'a str,
    state: NetworkState,
    sequence: u16,
}

impl<'a> HMSInverter<'a> {
    /// The device host this client was created for.
    pub closed spec fn spec_host(&self) -> Seq<char> {
        self.host@
    }

    /// The last observed reachability.
    pub closed spec fn spec_state(&self) -> NetworkState {
        self.state
    }

    /// The current sequence counter value.
    pub closed spec fn spec_sequence(&self) -> u16 {
        self.sequence
    }

    /// A fresh client: reachability unknown, sequence counter at zero.
    pub fn new(host: &'a str) -> (r: Self)
        ensures
            r.spec_host() == host@,
            r.spec_state() == NetworkState::Unknown,
            r.spec_sequence() == 0,
    {
        HMSInverter { host, state: NetworkState::Unknown, sequence: 0u16 }
    }

    /// The last observed reachability.
    pub fn state(&self) -> (r: NetworkState)
        ensures
            r == self.spec_state(),
    {
        self.state
    }

    /// Records the new reachability and reports whether it changed: repeated
    /// identical states are silent, so a caller logs a transition exactly
    /// when this returns true.
    pub fn set_state(&mut self, new_state: NetworkState) -> (changed: bool)
        ensures
            final(self).spec_state() == new_state,
            final(self).spec_sequence() == old(self).spec_sequence(),
            final(self).spec_host() == old(self).spec_host(),
            changed == (old(self).spec_state() != new_state),
    {
        if self.state != new_state {
            self.state = new_state;
            true
        } else {
            false
        }
    }

    /// Begins one request attempt: advances the sequence counter (wrapping)
    /// and frames the payload-less "read real-time data" request under the
    /// new counter value.
    pub fn prepare_request(&mut self) -> (frame: Vec<u8>)
        ensures
            final(self).spec_sequence() == next_sequence(old(self).spec_sequence()),
            final(self).spec_state() == old(self).spec_state(),
            final(self).spec_host() == old(self).spec_host(),
            frame@ == frame_bytes(Seq::<u8>::empty(), final(self).spec_sequence()),
    {
        self.sequence = self.sequence.wrapping_add(1);
        let request = RealDataResDTO {};
        let payload = request.to_bytes();
        encode_request(&payload, self.sequence)
    }

    /// Completes one request attempt from its transport outcome. Any
    /// transport failure, a response too short to hold the header, or a
    /// malformed payload ends the attempt `Offline` with no record; a decoded
    /// payload ends it `Online` with the record. `Unknown` is never
    /// re-entered.
    pub fn update_state(&mut self, outcome: Result<Vec<u8>, Failure>) -> (r: Option<
        HMSStateResponse,
    >)
        ensures
            final(self).spec_sequence() == old(self).spec_sequence(),
            final(self).spec_host() == old(self).spec_host(),
            final(self).spec_state() != NetworkState::Unknown,
            match outcome {
                Err(_) => r is None && final(self).spec_state() == NetworkState::Offline,
                Ok(raw) => if raw@.len() < 10 {
                    r is None && final(self).spec_state() == NetworkState::Offline
                } else {
                    match spec_decode(raw@.subrange(10, raw@.len() as int)) {
                        Some(record) => match r {
                            Some(rec) => rec@ == record && final(self).spec_state()
                                == NetworkState::Online,
                            None => false,
                        },
                        None => r is None && final(self).spec_state() == NetworkState::Offline,
                    }
                },
            },
    {
        match outcome {
            Err(_) => {
                self.set_state(NetworkState::Offline);
                None
            },
            Ok(raw) => {
                match extract_payload(&raw) {
                    Err(_) => {
                        self.set_state(NetworkState::Offline);
                        None
                    },
                    Ok(payload) => {
                        match decode_response(&payload) {
                            Ok(record) => {
                                self.set_state(NetworkState::Online);
                                Some(record)
                            },
                            Err(_) => {
                                self.set_state(NetworkState::Offline);
                                None
                            },
                        }
                    },
                }
            },
        }
    }
}

impl<'a> Inverter for HMSInverter<'a> {
    fn set_state(&mut self, new_state: NetworkState) -> bool {
        HMSInverter::set_state(self, new_state)
    }

    fn update_state(&mut self, outcome: Result<Vec<u8>, Failure>) -> Option<HMSStateResponse> {
        HMSInverter::update_state(self, outcome)
    }
}

/// A test double: answers every attempt with a synthetic record carrying
/// only its configured serial, and has no reachability state to change.
pub struct FakeInverter {
    pub sn: String,
}

impl FakeInverter {
    /// The synthetic record: the configured serial, default values
    /// everywhere else.
    pub fn update_state(&mut self, _outcome: Result<Vec<u8>, Failure>) -> (r: Option<
        HMSStateResponse,
    >)
        ensures
            final(self).sn == old(self).sn,
            match r {
                Some(rec) => rec@ == (HMSStateResponseView {
                    dtu_sn: old(self).sn@,
                    ..HMSStateResponse::spec_default()
                }),
                None => false,
            },
    {
        let mut record = HMSStateResponse::default();
        record.dtu_sn = self.sn.clone();
        Some(record)
    }
}

impl Inverter for FakeInverter {
    fn set_state(&mut self, _new_state: NetworkState) -> bool {
        false
    }

    fn update_state(&mut self, outcome: Result<Vec<u8>, Failure>) -> Option<HMSStateResponse> {
        FakeInverter::update_state(self, outcome)
    }
}

/// The sequence counter returns to its first value after 65536 request
/// attempts, for every starting value: advancing wraps and never overflows.
pub proof fn lemma_sequence_wraps(s: u16)
    ensures
        sequence_after(s, 65536) == s,
{
    lemma_sequence_after_mod(s, 65536);
    assert((s + 65536) % 0x10000 == s) by {
        vstd::arithmetic::div_mod::lemma_add_mod_noop(s as int, 65536int, 0x10000int);
        vstd::arithmetic::div_mod::lemma_small_mod(s as nat, 0x10000nat);
        vstd::arithmetic::div_mod::lemma_mod_self_0(0x10000int);
    };
}

/// After `n` attempts the counter holds its start plus `n`, modulo 65536.
proof fn lemma_sequence_after_mod(s: u16, n: nat)
    ensures
        sequence_after(s, n) == ((s + n) % 0x10000) as u16,
    decreases n,
{
    if n == 0 {
        vstd::arithmetic::div_mod::lemma_small_mod(s as nat, 0x10000nat);
    } else {
        lemma_sequence_after_mod(s, (n - 1) as nat);
        vstd::arithmetic::div_mod::lemma_add_mod_noop((s + n - 1) as int, 1int, 0x10000int);
        vstd::arithmetic::div_mod::lemma_mod_twice((s + n - 1) as int, 0x10000int);
        vstd::arithmetic::div_mod::lemma_small_mod(1nat, 0x10000nat);
    }
}

} // verus!
