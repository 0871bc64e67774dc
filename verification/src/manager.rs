//! Control channel manager: the reconnection state machine.
//!
//! The host runs the outer loop: it reads the device address from its
//! configuration collaborator, performs the bounded-timeout connect, writes
//! frames, and sleeps between retries.  Every decision — whether to attempt
//! a connect, what the handshake frame holds, when the session enters the
//! shared slot, how repeated failures are throttled in the log, and when a
//! cleared session sends the machine back to connecting — is made here,
//! under contract.

use vstd::prelude::*;

use crate::session::SessionSlot;

verus! {

/// A connect failure is logged only while the failure count, this failure
/// included, stays below this threshold — so only the first four of a run
/// of consecutive failures log, and an unreachable device does not flood
/// the log.  Retries continue regardless.
pub const LOG_SUPPRESS_THRESHOLD: u8 = 5;

/// The manager's two states.  A session is present exactly while the
/// machine is connected.
#[derive(Clone, Copy, Debug, PartialEq, Eq, Structural)]
pub enum ManagerPhase {
    Disconnected,
    Connected,
}

/// The reconnection state machine: current phase and the consecutive-failure
/// counter that throttles log noise.
#[derive(Clone, Copy, Debug, PartialEq, Eq, Structural)]
pub struct Manager {
    pub phase: ManagerPhase,
    pub consecutive_failures: u8,
}

impl Manager {
    /// A manager that has never connected.
    pub fn new() -> (r: Manager)
        ensures
            r.phase is Disconnected,
            r.consecutive_failures == 0,
    {
        Manager { phase: ManagerPhase::Disconnected, consecutive_failures: 0 }
    }

    /// Whether to attempt a connect now: only while disconnected, and only
    /// once the data-channel port is known (the handshake needs it) and no
    /// session lingers in the slot.
    pub fn should_attempt_connect(&self, slot: &SessionSlot) -> (r: bool)
        ensures
            r == (self.phase is Disconnected && slot.listen_port is Some
                && !slot.session_present),
    {
        match self.phase {
            ManagerPhase::Disconnected => {
                match slot.listen_port {
                    Some(_) => !slot.session_present,
                    None => false,
                }
            },
            ManagerPhase::Connected => false,
        }
    }

    /// A failed attempt: missing configuration, no port yet, or a connect
    /// failure.  The phase is unchanged, the failure counter grows
    /// (saturating), and the result says whether this failure should still
    /// be logged: only while the count, this failure included, stays below
    /// the threshold.
    pub fn on_connect_failure(&mut self) -> (log: bool)
        ensures
            final(self).phase == old(self).phase,
            log == (old(self).consecutive_failures + 1 < LOG_SUPPRESS_THRESHOLD),
            final(self).consecutive_failures == (if old(self).consecutive_failures == u8::MAX {
                u8::MAX as int
            } else {
                old(self).consecutive_failures + 1
            }),
    {
        let log = self.consecutive_failures < LOG_SUPPRESS_THRESHOLD - 1;
        if self.consecutive_failures < u8::MAX {
            self.consecutive_failures = self.consecutive_failures + 1;
        }
        log
    }

    /// A successful connect whose handshake frame — built by the codec
    /// from the local data-channel port — has been written: the machine
    /// enters the connected phase, the failure counter resets, and the
    /// session enters the shared slot.
    pub fn on_connected(&mut self, slot: &mut SessionSlot, port: u16)
        requires
            old(self).phase is Disconnected,
            old(slot).wf(),
            old(slot).listen_port == Some(port),
            !old(slot).session_present,
        ensures
            final(self).phase is Connected,
            final(self).consecutive_failures == 0,
            final(slot).session_present,
            final(slot).listen_port == Some(port),
            final(slot).wf(),
    {
        slot.set_session();
        self.phase = ManagerPhase::Connected;
        self.consecutive_failures = 0;
    }

    /// One idle poll of the shared slot while connected.  The manager never
    /// detects faults itself: it only notices that the listener cleared the
    /// session, and loops back to connecting.
    pub fn poll_session(&mut self, slot: &SessionSlot)
        ensures
            final(self).consecutive_failures == old(self).consecutive_failures,
            final(self).phase == (if slot.session_present {
                old(self).phase
            } else {
                ManagerPhase::Disconnected
            }),
    {
        if !slot.is_connected() {
            self.phase = ManagerPhase::Disconnected;
        }
    }
}

} // verus!
