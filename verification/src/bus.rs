//! Dispatch bus: a named-topic publish/subscribe register.
//!
//! Publishing delivers synchronously to all current subscribers of the
//! topic, in subscriber-registration order, each exactly once.  There is no
//! buffering or replay: a subscriber registered after a publish never
//! receives it.  The bus computes the delivery list; the host hands each
//! entry to the subscriber's callback (a slow or failing callback is the
//! host's concern and never aborts the publish).

use vstd::prelude::*;

use crate::codec::SensorStatus;

verus! {

/// The named topics decoded values are republished on.
#[derive(Clone, Copy, Debug, PartialEq, Eq, Structural)]
pub enum Topic {
    /// Connectivity boolean, one event per transition.
    Connection,
    /// One decoded device self-report per status datum.
    Status,
    /// Unfiltered heartbeat sample.
    RawSample,
    /// Filtered heartbeat sample.
    FilteredSample,
    /// Beats-per-minute sample.
    Bpm,
    /// Inter-beat interval derived from a beats-per-minute sample.
    InterBeatInterval,
}

/// The payload of one published event.  Floating-point samples are carried
/// by their IEEE 754 single-precision bit patterns.
#[derive(Clone, Copy, Debug, PartialEq, Eq, Structural)]
pub enum Value {
    /// A connectivity flag.
    Flag(bool),
    /// A decoded device self-report.
    Status(SensorStatus),
    /// A sample, as the bit pattern of a single-precision number.
    SampleBits(u32),
    /// A legacy 16-bit integer sample.
    LegacySample(u16),
    /// The inter-beat interval derived from the beats-per-minute sample
    /// with this bit pattern: sixty thousand divided by that sample.  The
    /// division is floating-point work and is carried out by the consumer;
    /// the bit pattern here is never a single-precision zero.
    IbiFromBpmBits(u32),
}

/// The register of subscriptions.  A subscriber is named by the index at
/// which it registered, so registration order is index order.
pub struct Bus {
    pub subs: Vec<Topic>,
}

impl Bus {
    /// An empty register.
    pub fn new() -> (r: Bus)
        ensures
            r.subs@ =~= Seq::<Topic>::empty(),
    {
        Bus { subs: Vec::new() }
    }

    /// Registers a subscriber for one topic and returns its identifier.
    /// Identifiers grow with registration order, so a subscriber registered
    /// after a publish has an identifier no delivery of that publish names.
    pub fn subscribe(&mut self, t: Topic) -> (id: usize)
        ensures
            final(self).subs@ == old(self).subs@.push(t),
            id == old(self).subs@.len(),
    {
        let id = self.subs.len();
        self.subs.push(t);
        id
    }

    /// Number of registered subscribers.
    pub fn subscriber_count(&self) -> (n: usize)
        ensures
            n == self.subs@.len(),
    {
        self.subs.len()
    }

    /// Computes the deliveries of one published event: one entry per
    /// current subscriber of the topic, in registration order.
    ///
    /// The contract pins the list down completely: every entry carries the
    /// published value and names a subscriber of the topic; entries are in
    /// strictly increasing identifier order, so no subscriber appears
    /// twice; every current subscriber of the topic appears; and no
    /// identifier at or beyond the current register size appears, so a
    /// subscriber registered later never receives the event.
    pub fn publish(&self, t: Topic, v: Value) -> (deliveries: Vec<(usize, Value)>)
        ensures
            forall|k: int|
                0 <= k < deliveries@.len() ==> (#[trigger] deliveries@[k]).1 == v,
            forall|k: int|
                0 <= k < deliveries@.len() ==> (#[trigger] deliveries@[k]).0 < self.subs@.len()
                    && self.subs@[deliveries@[k].0 as int] == t,
            forall|k1: int, k2: int|
                0 <= k1 < k2 < deliveries@.len() ==> (deliveries@[k1]).0 < (deliveries@[k2]).0,
            forall|j: int|
                0 <= j < self.subs@.len() && self.subs@[j] == t ==> exists|k: int|
                    0 <= k < deliveries@.len() && (#[trigger] deliveries@[k]).0 == j,
    {
        let mut deliveries: Vec<(usize, Value)> = Vec::new();
        let mut i: usize = 0;
        while i < self.subs.len()
            invariant
                i <= self.subs@.len(),
                forall|k: int|
                    0 <= k < deliveries@.len() ==> (#[trigger] deliveries@[k]).1 == v,
                forall|k: int|
                    0 <= k < deliveries@.len() ==> (#[trigger] deliveries@[k]).0 < i
                        && self.subs@[deliveries@[k].0 as int] == t,
                forall|k1: int, k2: int|
                    0 <= k1 < k2 < deliveries@.len() ==> (deliveries@[k1]).0 < (deliveries@[k2]).0,
                forall|j: int|
                    0 <= j < i && self.subs@[j] == t ==> exists|k: int|
                        0 <= k < deliveries@.len() && (#[trigger] deliveries@[k]).0 == j,
            decreases self.subs@.len() - i,
        {
            if self.subs[i] == t {
                let ghost prev = deliveries@;
                deliveries.push((i, v));
                proof {
                    assert(forall|j: int|
                        0 <= j < i && self.subs@[j] == t ==> exists|k: int|
                            0 <= k < deliveries@.len() && (#[trigger] deliveries@[k]).0 == j) by {
                        assert forall|j: int|
                            0 <= j < i && self.subs@[j] == t implies exists|k: int|
                            0 <= k < deliveries@.len() && (#[trigger] deliveries@[k]).0 == j by {
                            let k0 = choose|k: int|
                                0 <= k < prev.len() && (#[trigger] prev[k]).0 == j;
                            assert(deliveries@[k0].0 == j);
                        }
                    }
                    assert(deliveries@[deliveries@.len() - 1].0 == i);
                }
            }
            i += 1;
        }
        deliveries
    }
}

} // verus!
