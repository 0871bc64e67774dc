//! Connection session state: the shared record that coordinates the
//! listener, the connection manager, and the command path.
//!
//! The host keeps one `SessionSlot` behind a lock; the open byte stream
//! itself stays with the host.  The slot records the two facts the core's
//! decisions depend on: the local data-channel port, assigned once at
//! startup, and whether a control-channel session is present — the system's
//! sole connectivity indicator.  Exactly one component sets the session (the
//! connection manager) and exactly one clears it (the listener); the
//! contracts here spell that discipline out.

use vstd::prelude::*;

use crate::codec::{encode_command, COMMAND_SET_AMPLITUDE};

verus! {

/// The shared, lock-guarded record: data-channel port and session presence.
#[derive(Clone, Copy, Debug, PartialEq, Eq, Structural)]
pub struct SessionSlot {
    pub listen_port: Option<u16>,
    pub session_present: bool,
}

impl SessionSlot {
    /// The slot's invariant: the data-channel port is known before any
    /// session exists, because the handshake transmits it to the device.
    pub open spec fn wf(self) -> bool {
        self.session_present ==> self.listen_port is Some
    }

    /// The startup state: no port assigned, no session.
    pub fn new() -> (r: SessionSlot)
        ensures
            r.listen_port is None,
            !r.session_present,
            r.wf(),
    {
        SessionSlot { listen_port: None, session_present: false }
    }

    /// Records the port the data-channel socket was bound to.  The port is
    /// assigned once, before any session, and is stable afterwards.
    pub fn publish_port(&mut self, port: u16)
        requires
            old(self).wf(),
            old(self).listen_port is None,
        ensures
            final(self).listen_port == Some(port),
            final(self).session_present == old(self).session_present,
            final(self).wf(),
    {
        self.listen_port = Some(port);
    }

    /// The connection manager's transition: marks the session present.
    /// Only callable once the port is known and no session exists.
    pub fn set_session(&mut self)
        requires
            old(self).wf(),
            old(self).listen_port is Some,
            !old(self).session_present,
        ensures
            final(self).session_present,
            final(self).listen_port == old(self).listen_port,
            final(self).wf(),
    {
        self.session_present = true;
    }

    /// The listener's transition: clears the session on heartbeat timeout
    /// or socket fault.  The port survives; the listener never rebinds.
    pub fn clear_session(&mut self)
        ensures
            !final(self).session_present,
            final(self).listen_port == old(self).listen_port,
            final(self).wf(),
    {
        self.session_present = false;
    }

    /// Whether a session is present: the sole signal that "connected" is
    /// true.
    pub fn is_connected(&self) -> (r: bool)
        ensures
            r == self.session_present,
    {
        self.session_present
    }

    /// The local data-channel port, if assigned yet.
    pub fn port(&self) -> (r: Option<u16>)
        ensures
            r == self.listen_port,
    {
        self.listen_port
    }

    /// The command path: the frame to write for an outbound command, or
    /// nothing.  While connected this is the command frame
    /// `[command_id] ++ payload`; while disconnected the command is a
    /// no-op — no frame, and no error surfaced to the caller.
    pub fn command_frame(&self, command_id: u8, payload: &Vec<u8>) -> (r: Option<Vec<u8>>)
        ensures
            self.session_present ==> r is Some && r->0@ == seq![command_id] + payload@,
            !self.session_present ==> r is None,
    {
        if self.session_present {
            Some(encode_command(command_id, payload))
        } else {
            None
        }
    }

    /// The frame to write for a set-output-amplitude command, or nothing
    /// while disconnected: the amplitude command identifier with the
    /// one-byte amplitude payload.
    pub fn amplitude_frame(&self, amplitude: u8) -> (r: Option<Vec<u8>>)
        ensures
            self.session_present ==> r is Some && r->0@ == seq![COMMAND_SET_AMPLITUDE, amplitude],
            !self.session_present ==> r is None,
    {
        let payload: Vec<u8> = vec![amplitude];
        let r = self.command_frame(COMMAND_SET_AMPLITUDE, &payload);
        proof {
            if self.session_present {
                assert(r->0@ =~= seq![COMMAND_SET_AMPLITUDE, amplitude]);
            }
        }
        r
    }
}

} // verus!
