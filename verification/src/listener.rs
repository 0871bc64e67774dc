//! Data channel listener: the decision core of the telemetry receive loop.
//!
//! The host owns the socket and calls [`Listener::poll_step`] once per loop
//! iteration with the current clock reading and what the poll returned: a
//! datagram, nothing, or a hard socket error.  The step records liveness,
//! decodes the datagram under the configured framing, and returns the events
//! to publish together with a teardown flag.  Teardown — on a hard socket
//! error or on heartbeat staleness — tells the host to clear the shared
//! session and return from its loop, which is the sole trigger for the
//! connection manager to retry.

use vstd::prelude::*;

use crate::bus::{Topic, Value};
use crate::codec::{
    decode, decode_legacy, spec_decode, spec_decode_legacy, Packet,
};
use crate::heartbeat::HeartbeatMonitor;

verus! {

/// Which data-channel framing is active.  Protocol generations disagree;
/// one connection uses one framing throughout.
#[derive(Clone, Copy, Debug, PartialEq, Eq, Structural)]
pub enum Framing {
    /// Tagged packets, one [`Packet`] per datagram.
    Tagged,
    /// Fixed-length fanout datagrams of big-endian 16-bit samples where
    /// position encodes the channel.
    Legacy,
}

/// What one poll of the data-channel socket returned.
pub enum PollEvent {
    /// A datagram arrived.
    Datagram(Vec<u8>),
    /// Nothing to read (the poll would have blocked).
    Empty,
    /// A hard socket error, fatal to the receive loop.
    SocketError,
}

/// What one listener step asks the host to do: feed each entry of
/// `publishes` to the dispatch bus in order and, when `teardown` is set,
/// clear the shared session and return from the receive loop.
pub struct StepOutput {
    pub publishes: Vec<(Topic, Value)>,
    pub teardown: bool,
}

/// The typed events one decoded packet fans out to: a status report or a
/// sample on its topic; a beats-per-minute sample additionally yields the
/// derived inter-beat-interval event.
pub open spec fn spec_events_of_packet(p: Packet) -> Seq<(Topic, Value)> {
    match p {
        Packet::Status(s) => seq![(Topic::Status, Value::Status(s))],
        Packet::RawSample(bits) => seq![(Topic::RawSample, Value::SampleBits(bits))],
        Packet::BeatsPerMinute(bits) => seq![
            (Topic::Bpm, Value::SampleBits(bits)),
            (Topic::InterBeatInterval, Value::IbiFromBpmBits(bits)),
        ],
        Packet::FilteredSample(bits) => seq![(Topic::FilteredSample, Value::SampleBits(bits))],
    }
}

/// The typed events one legacy fanout datagram fans out to: the sample at
/// position zero is the beats-per-minute value, position one the inter-beat
/// interval, and every later position one filtered heartbeat sample, in
/// position order.
pub open spec fn spec_events_of_legacy(vals: Seq<u16>) -> Seq<(Topic, Value)>
    recommends
        vals.len() >= 2,
{
    seq![
        (Topic::Bpm, Value::LegacySample(vals[0])),
        (Topic::InterBeatInterval, Value::LegacySample(vals[1])),
    ] + Seq::new((vals.len() - 2) as nat, |i: int| (Topic::FilteredSample, Value::LegacySample(vals[i + 2])))
}

/// The events one datagram yields under a framing: the fanout of what it
/// decodes to, or nothing when it is malformed (a malformed datagram is
/// dropped, never fatal).
pub open spec fn spec_datagram_events(framing: Framing, b: Seq<u8>) -> Seq<(Topic, Value)> {
    match framing {
        Framing::Tagged => match spec_decode(b) {
            Some(p) => spec_events_of_packet(p),
            None => Seq::empty(),
        },
        Framing::Legacy => match spec_decode_legacy(b) {
            Some(vals) => spec_events_of_legacy(vals),
            None => Seq::empty(),
        },
    }
}

/// Fans one decoded packet out to its typed events.
pub fn events_of_packet(p: &Packet) -> (r: Vec<(Topic, Value)>)
    ensures
        r@ == spec_events_of_packet(*p),
{
    let mut r: Vec<(Topic, Value)> = Vec::new();
    match p {
        Packet::Status(s) => {
            r.push((Topic::Status, Value::Status(*s)));
        },
        Packet::RawSample(bits) => {
            r.push((Topic::RawSample, Value::SampleBits(*bits)));
        },
        Packet::BeatsPerMinute(bits) => {
            r.push((Topic::Bpm, Value::SampleBits(*bits)));
            r.push((Topic::InterBeatInterval, Value::IbiFromBpmBits(*bits)));
        },
        Packet::FilteredSample(bits) => {
            r.push((Topic::FilteredSample, Value::SampleBits(*bits)));
        },
    }
    proof {
        assert(r@ =~= spec_events_of_packet(*p));
    }
    r
}

/// Fans one legacy fanout datagram out to its typed events, in position
/// order.
pub fn events_of_legacy(vals: &Vec<u16>) -> (r: Vec<(Topic, Value)>)
    requires
        vals@.len() >= 2,
    ensures
        r@ == spec_events_of_legacy(vals@),
{
    let mut r: Vec<(Topic, Value)> = Vec::new();
    r.push((Topic::Bpm, Value::LegacySample(vals[0])));
    r.push((Topic::InterBeatInterval, Value::LegacySample(vals[1])));
    let mut i: usize = 2;
    while i < vals.len()
        invariant
            2 <= i <= vals@.len(),
            r@.len() == i,
            r@[0] == (Topic::Bpm, Value::LegacySample(vals@[0])),
            r@[1] == (Topic::InterBeatInterval, Value::LegacySample(vals@[1])),
            forall|j: int|
                2 <= j < i ==> r@[j] == (Topic::FilteredSample, Value::LegacySample(vals@[j])),
        decreases vals@.len() - i,
    {
        r.push((Topic::FilteredSample, Value::LegacySample(vals[i])));
        i += 1;
    }
    proof {
        assert(r@ =~= spec_events_of_legacy(vals@));
    }
    r
}

/// Fans one line of a file-replay producer out to its typed events: the
/// raw, filtered, beats-per-minute and inter-beat-interval samples it
/// holds, in that order.  Replay lines carry the interval directly, so no
/// derivation is needed.
pub fn events_of_replay(raw_bits: u32, filtered_bits: u32, bpm_bits: u32, ibi_bits: u32) -> (r:
    Vec<(Topic, Value)>)
    ensures
        r@ == seq![
            (Topic::RawSample, Value::SampleBits(raw_bits)),
            (Topic::FilteredSample, Value::SampleBits(filtered_bits)),
            (Topic::Bpm, Value::SampleBits(bpm_bits)),
            (Topic::InterBeatInterval, Value::SampleBits(ibi_bits)),
        ],
{
    let mut r: Vec<(Topic, Value)> = Vec::new();
    r.push((Topic::RawSample, Value::SampleBits(raw_bits)));
    r.push((Topic::FilteredSample, Value::SampleBits(filtered_bits)));
    r.push((Topic::Bpm, Value::SampleBits(bpm_bits)));
    r.push((Topic::InterBeatInterval, Value::SampleBits(ibi_bits)));
    proof {
        assert(r@ =~= seq![
            (Topic::RawSample, Value::SampleBits(raw_bits)),
            (Topic::FilteredSample, Value::SampleBits(filtered_bits)),
            (Topic::Bpm, Value::SampleBits(bpm_bits)),
            (Topic::InterBeatInterval, Value::SampleBits(ibi_bits)),
        ]);
    }
    r
}

/// Per-session listener state: the heartbeat monitor, the configured
/// staleness timeout, the active framing, and whether the transition to
/// connected has been announced yet.
pub struct Listener {
    pub monitor: HeartbeatMonitor,
    pub timeout_ms: u64,
    pub framing: Framing,
    pub announced: bool,
}

impl Listener {
    /// A fresh listener for a new session: nothing announced yet, and the
    /// heartbeat clock starting at the moment of construction.
    pub fn new(now_ms: u64, timeout_ms: u64, framing: Framing) -> (r: Listener)
        ensures
            r.monitor.last_arrival_ms == now_ms,
            r.timeout_ms == timeout_ms,
            r.framing == framing,
            !r.announced,
    {
        Listener {
            monitor: HeartbeatMonitor::new(now_ms),
            timeout_ms,
            framing,
            announced: false,
        }
    }

    /// One iteration of the receive loop.
    ///
    /// A datagram arrival records liveness (arrival alone counts, decodable
    /// or not), announces the transition to connected exactly once, and
    /// fans the decoded datagram out; it never tears the session down.  An
    /// empty poll tears down exactly when the heartbeat has gone stale; a
    /// hard socket error always tears down.  Teardown publishes the
    /// disconnected flag and resets the announcement for the next session.
    pub fn poll_step(&mut self, now_ms: u64, ev: PollEvent) -> (out: StepOutput)
        ensures
            final(self).timeout_ms == old(self).timeout_ms,
            final(self).framing == old(self).framing,
            (ev matches PollEvent::Datagram(b) ==> {
                &&& final(self).monitor.last_arrival_ms == now_ms
                &&& final(self).announced
                &&& !out.teardown
                &&& out.publishes@ == (if old(self).announced {
                    Seq::<(Topic, Value)>::empty()
                } else {
                    seq![(Topic::Connection, Value::Flag(true))]
                }) + spec_datagram_events(old(self).framing, b@)
            }),
            (ev matches PollEvent::Empty ==> {
                &&& final(self).monitor == old(self).monitor
                &&& out.teardown == old(self).monitor.spec_is_stale(now_ms, old(self).timeout_ms)
                &&& (out.teardown ==> out.publishes@ == seq![
                    (Topic::Connection, Value::Flag(false)),
                ] && !final(self).announced)
                &&& (!out.teardown ==> out.publishes@ == Seq::<(Topic, Value)>::empty()
                    && final(self).announced == old(self).announced)
            }),
            (ev matches PollEvent::SocketError ==> {
                &&& final(self).monitor == old(self).monitor
                &&& out.teardown
                &&& out.publishes@ == seq![(Topic::Connection, Value::Flag(false))]
                &&& !final(self).announced
            }),
    {
        match ev {
            PollEvent::Datagram(buf) => {
                self.monitor.record_arrival(now_ms);
                let mut publishes: Vec<(Topic, Value)> = Vec::new();
                if !self.announced {
                    publishes.push((Topic::Connection, Value::Flag(true)));
                    self.announced = true;
                }
                let ghost head = publishes@;
                let events: Vec<(Topic, Value)> = match self.framing {
                    Framing::Tagged => {
                        match decode(&buf) {
                            Ok(p) => events_of_packet(&p),
                            Err(_) => Vec::new(),
                        }
                    },
                    Framing::Legacy => {
                        match decode_legacy(&buf) {
                            Ok(vals) => events_of_legacy(&vals),
                            Err(_) => Vec::new(),
                        }
                    },
                };
                proof {
                    assert(events@ =~= spec_datagram_events(self.framing, buf@));
                }
                let mut i: usize = 0;
                while i < events.len()
                    invariant
                        i <= events@.len(),
                        publishes@ == head + events@.take(i as int),
                    decreases events@.len() - i,
                {
                    proof {
                        assert((head + events@.take(i as int)).push(events@[i as int]) =~= head
                            + events@.take(i as int + 1));
                    }
                    publishes.push(events[i]);
                    i += 1;
                }
                proof {
                    assert(events@.take(events@.len() as int) =~= events@);
                }
                StepOutput { publishes, teardown: false }
            },
            PollEvent::Empty => {
                if self.monitor.is_stale(now_ms, self.timeout_ms) {
                    self.announced = false;
                    let mut publishes: Vec<(Topic, Value)> = Vec::new();
                    publishes.push((Topic::Connection, Value::Flag(false)));
                    proof {
                        assert(publishes@ =~= seq![(Topic::Connection, Value::Flag(false))]);
                    }
                    StepOutput { publishes, teardown: true }
                } else {
                    StepOutput { publishes: Vec::new(), teardown: false }
                }
            },
            PollEvent::SocketError => {
                self.announced = false;
                let mut publishes: Vec<(Topic, Value)> = Vec::new();
                publishes.push((Topic::Connection, Value::Flag(false)));
                proof {
                    assert(publishes@ =~= seq![(Topic::Connection, Value::Flag(false))]);
                }
                StepOutput { publishes, teardown: true }
            },
        }
    }
}

} // verus!
