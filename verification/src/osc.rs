//! OSC relay: encodes selected dispatch-bus events as Open Sound Control
//! messages for an external real-time application.
//!
//! Each relayed event becomes one OSC 1.0 message with a single
//! single-precision argument: the address string padded with NULs to a
//! four-byte boundary, the type-tag string `,f` padded likewise, and the
//! four big-endian bytes of the argument's bit pattern.  The host sends the
//! encoded datagram over its outbound socket, best-effort: a send failure is
//! logged and otherwise ignored.

use vstd::prelude::*;

use crate::bus::Topic;

verus! {

/// An OSC string: the bytes followed by one to four NULs, to the next
/// four-byte boundary.
pub open spec fn spec_osc_string(s: Seq<u8>) -> Seq<u8> {
    s + Seq::new((4 - s.len() % 4) as nat, |i: int| 0u8)
}

/// The four big-endian bytes of a 32-bit value.
pub open spec fn spec_be32_bytes(v: u32) -> Seq<u8> {
    seq![
        ((v / 0x1000000) % 0x100) as u8,
        ((v / 0x10000) % 0x100) as u8,
        ((v / 0x100) % 0x100) as u8,
        (v % 0x100) as u8,
    ]
}

/// An OSC message with one single-precision argument: padded address,
/// the type-tag string `,f` with its own padding, then the argument's bit
/// pattern in big-endian order.
pub open spec fn spec_osc_float_message(addr: Seq<u8>, bits: u32) -> Seq<u8> {
    spec_osc_string(addr) + seq![0x2Cu8, 0x66u8, 0u8, 0u8] + spec_be32_bytes(bits)
}

/// The fixed address path a topic is relayed to, if any: the relay forwards
/// the filtered-sample, beats-per-minute and inter-beat-interval channels
/// and nothing else.
pub open spec fn spec_osc_address(t: Topic) -> Option<Seq<u8>> {
    match t {
        // "/heartbeat_signal"
        Topic::FilteredSample => Some(
            seq![
                47u8, 104u8, 101u8, 97u8, 114u8, 116u8, 98u8, 101u8, 97u8, 116u8, 95u8, 115u8,
                105u8, 103u8, 110u8, 97u8, 108u8,
            ],
        ),
        // "/bpm"
        Topic::Bpm => Some(seq![47u8, 98u8, 112u8, 109u8]),
        // "/ibi"
        Topic::InterBeatInterval => Some(seq![47u8, 105u8, 98u8, 105u8]),
        _ => None,
    }
}

/// The address path a topic is relayed to, if any.
pub fn osc_address(t: Topic) -> (r: Option<Vec<u8>>)
    ensures
        (match spec_osc_address(t) {
            Some(addr) => r is Some && r->0@ == addr,
            None => r is None,
        }),
{
    match t {
        Topic::FilteredSample => {
            let addr: Vec<u8> = vec![
                47u8, 104u8, 101u8, 97u8, 114u8, 116u8, 98u8, 101u8, 97u8, 116u8, 95u8, 115u8,
                105u8, 103u8, 110u8, 97u8, 108u8,
            ];
            proof {
                assert(addr@ =~= spec_osc_address(t)->0);
            }
            Some(addr)
        },
        Topic::Bpm => {
            let addr: Vec<u8> = vec![47u8, 98u8, 112u8, 109u8];
            proof {
                assert(addr@ =~= spec_osc_address(t)->0);
            }
            Some(addr)
        },
        Topic::InterBeatInterval => {
            let addr: Vec<u8> = vec![47u8, 105u8, 98u8, 105u8];
            proof {
                assert(addr@ =~= spec_osc_address(t)->0);
            }
            Some(addr)
        },
        _ => None,
    }
}

/// Encodes one OSC message with a single single-precision argument, given
/// by its bit pattern.
pub fn encode_osc_float(addr: &Vec<u8>, bits: u32) -> (r: Vec<u8>)
    ensures
        r@ == spec_osc_float_message(addr@, bits),
{
    let mut r: Vec<u8> = Vec::new();
    let mut i: usize = 0;
    while i < addr.len()
        invariant
            i <= addr@.len(),
            r@ == addr@.take(i as int),
        decreases addr@.len() - i,
    {
        r.push(addr[i]);
        i += 1;
    }
    proof {
        assert(addr@.take(addr@.len() as int) =~= addr@);
    }
    let pad = 4 - addr.len() % 4;
    let mut p: usize = 0;
    while p < pad
        invariant
            p <= pad,
            pad == 4 - addr@.len() % 4,
            r@ == addr@ + Seq::new(p as nat, |k: int| 0u8),
        decreases pad - p,
    {
        proof {
            assert((addr@ + Seq::new(p as nat, |k: int| 0u8)).push(0u8) =~= addr@ + Seq::new(
                (p + 1) as nat,
                |k: int| 0u8,
            ));
        }
        r.push(0u8);
        p += 1;
    }
    r.push(0x2C);
    r.push(0x66);
    r.push(0);
    r.push(0);
    r.push(((bits / 0x1000000) % 0x100) as u8);
    r.push(((bits / 0x10000) % 0x100) as u8);
    r.push(((bits / 0x100) % 0x100) as u8);
    r.push((bits % 0x100) as u8);
    proof {
        assert(r@ =~= spec_osc_float_message(addr@, bits));
    }
    r
}

/// The datagram to send for one event on a relayed topic, or nothing for a
/// topic the relay does not forward.  The argument's bit pattern is handed
/// in by the host, which resolves each event value to a single-precision
/// number first.
pub fn relay_datagram(t: Topic, bits: u32) -> (r: Option<Vec<u8>>)
    ensures
        (match spec_osc_address(t) {
            Some(addr) => r is Some && r->0@ == spec_osc_float_message(addr, bits),
            None => r is None,
        }),
{
    match osc_address(t) {
        Some(addr) => Some(encode_osc_float(&addr, bits)),
        None => None,
    }
}

} // verus!
