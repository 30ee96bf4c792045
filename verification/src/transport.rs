//! Transport state machines for the TCP link.
//!
//! The sockets themselves live outside this crate; the loops around
//! them are driven by the two step functions here.  Each step takes
//! what just happened on the socket (or channel) and answers with the
//! next thing to do, so every decision of the connect/accept/retry
//! logic is made — and checked — in one place.
//!
//! Server: bind once, accept one client at a time; on accept, discard
//! every event queued before the connection existed, so a new client
//! never sees stale history; a write failure drops the connection and
//! returns to waiting.  Client: connect with a fixed timeout, sleep and
//! retry forever on failure; once connected, read exact 4-byte frames
//! and inject them; any read failure discards the partial frame with
//! the connection and re-enters the reconnect loop.

use vstd::prelude::*;

use crate::data::spec_decode;
use crate::data::KeyEvent;

verus! {

/// Seconds a client connect attempt may take before it counts as
/// failed.
pub const CONNECT_TIMEOUT_SECS: u64 = 2;

/// Seconds the client sleeps after a failed connect attempt before the
/// next one.
pub const RETRY_DELAY_SECS: u64 = 1;

/// What just happened on the server's side of the link.
#[derive(Copy, Clone, Debug, PartialEq, Eq, Structural)]
pub enum ServerIo {
    /// The listener accepted a client.
    Accepted,
    /// The event channel handed over a key event to forward.
    Event(KeyEvent),
    /// The last frame was written to the client in full.
    WriteOk,
    /// Writing to the client failed.
    WriteFailed,
}

/// What the server loop must do next.
#[derive(Copy, Clone, Debug, PartialEq, Eq, Structural)]
pub enum ServerDirective {
    /// Drain the event channel and discard everything queued: events
    /// from before this connection existed are stale history the new
    /// client must never receive.
    DiscardQueued,
    /// Write the 4-byte encoding of this event to the client.
    Transmit(KeyEvent),
    /// Block on the event channel for the next event.
    AwaitEvent,
    /// Drop the connection and block on the listener for a new client.
    AwaitClient,
}

/// The server loop's answer to one piece of socket or channel news:
/// the next connected state and the next thing to do.
pub open spec fn spec_server_step(connected: bool, io: ServerIo) -> (bool, ServerDirective)
    recommends
        connected <==> !(io is Accepted),
{
    match io {
        ServerIo::Accepted => (true, ServerDirective::DiscardQueued),
        ServerIo::Event(e) => (true, ServerDirective::Transmit(e)),
        ServerIo::WriteOk => (true, ServerDirective::AwaitEvent),
        ServerIo::WriteFailed => (false, ServerDirective::AwaitClient),
    }
}

/// The server's side of the link: whether a client is currently
/// connected.  The connection handle itself stays with the caller.
#[derive(Copy, Clone, Debug, PartialEq, Eq, Structural)]
pub struct ServerTransport {
    pub connected: bool,
}

impl ServerTransport {
    /// A server starts with no client connected, waiting to accept.
    pub fn new() -> (s: ServerTransport)
        ensures
            !s.connected,
    {
        ServerTransport { connected: false }
    }

    /// One step of the server loop.  Accepting connects and orders the
    /// stale queue discarded; an event while connected is transmitted;
    /// a failed write drops the connection and re-enters waiting — the
    /// process never has to restart.
    pub fn step(&mut self, io: ServerIo) -> (d: ServerDirective)
        requires
            old(self).connected <==> !(io is Accepted),
        ensures
            final(self).connected == spec_server_step(old(self).connected, io).0,
            d == spec_server_step(old(self).connected, io).1,
    {
        match io {
            ServerIo::Accepted => {
                self.connected = true;
                ServerDirective::DiscardQueued
            },
            ServerIo::Event(e) => ServerDirective::Transmit(e),
            ServerIo::WriteOk => ServerDirective::AwaitEvent,
            ServerIo::WriteFailed => {
                self.connected = false;
                ServerDirective::AwaitClient
            },
        }
    }

}

/// Law: the connection lifecycle of the server.  Whatever queued while
/// no client was connected is ordered discarded at accept time, so a
/// newly connected client never receives pre-connection history; and a
/// write failure on a live connection leads back to waiting, from
/// where the very next accept reaches the connected state again —
/// within the same process.
pub proof fn lemma_server_connection_lifecycle()
    ensures
        spec_server_step(false, ServerIo::Accepted) == (true, ServerDirective::DiscardQueued),
        spec_server_step(true, ServerIo::WriteFailed) == (false, ServerDirective::AwaitClient),
        spec_server_step(
            spec_server_step(true, ServerIo::WriteFailed).0,
            ServerIo::Accepted,
        ) == (true, ServerDirective::DiscardQueued),
{
}

/// What just happened on the client's side of the link.
#[derive(Copy, Clone, Debug)]
pub enum ClientIo {
    /// A connect attempt reached the server.
    ConnectSucceeded,
    /// A connect attempt failed or timed out.
    ConnectFailed,
    /// A full 4-byte frame was read from the server.
    Frame([u8; 4]),
    /// Reading from the server failed; whatever partial frame was in
    /// flight is lost with it.
    ReadFailed,
}

/// What the client loop must do next.
#[derive(Copy, Clone, Debug, PartialEq, Eq, Structural)]
pub enum ClientDirective {
    /// Attempt to connect, with a timeout of `CONNECT_TIMEOUT_SECS`.
    Connect,
    /// Sleep this many seconds, then attempt to connect again.  The
    /// retry goes on indefinitely; a failed attempt never ends the
    /// process.
    RetryAfterDelay(u64),
    /// Block reading the next exact 4-byte frame.
    ReadFrame,
    /// Inject this event as local synthetic input, then read on.
    Inject(KeyEvent),
}

/// The client loop's answer to one piece of socket news: the next
/// connected state and the next thing to do.  A frame that does not
/// decode tears the connection down like a read failure: with no
/// framing beyond the fixed size there is no way back into step with a
/// corrupt stream.
pub open spec fn spec_client_step(connected: bool, io: ClientIo) -> (bool, ClientDirective)
    recommends
        connected <==> (io is Frame || io is ReadFailed),
{
    match io {
        ClientIo::ConnectSucceeded => (true, ClientDirective::ReadFrame),
        ClientIo::ConnectFailed => (false, ClientDirective::RetryAfterDelay(RETRY_DELAY_SECS)),
        ClientIo::Frame(b) => {
            match spec_decode(b@) {
                Ok(e) => (true, ClientDirective::Inject(e)),
                Err(_) => (false, ClientDirective::Connect),
            }
        },
        ClientIo::ReadFailed => (false, ClientDirective::Connect),
    }
}

/// The client's side of the link: whether the server is currently
/// reachable through a live stream.  The stream handle itself stays
/// with the caller.
#[derive(Copy, Clone, Debug, PartialEq, Eq, Structural)]
pub struct ClientTransport {
    pub connected: bool,
}

impl ClientTransport {
    /// A client starts disconnected, about to make its first connect
    /// attempt.
    pub fn new() -> (c: ClientTransport)
        ensures
            !c.connected,
    {
        ClientTransport { connected: false }
    }

    /// One step of the client loop.  A failed connect orders a delayed
    /// retry and never terminates; a read failure or an undecodable
    /// frame drops the connection — discarding any partial frame with
    /// it — and restarts the reconnect loop.
    pub fn step(&mut self, io: ClientIo) -> (d: ClientDirective)
        requires
            old(self).connected <==> (io is Frame || io is ReadFailed),
        ensures
            final(self).connected == spec_client_step(old(self).connected, io).0,
            d == spec_client_step(old(self).connected, io).1,
    {
        match io {
            ClientIo::ConnectSucceeded => {
                self.connected = true;
                ClientDirective::ReadFrame
            },
            ClientIo::ConnectFailed => ClientDirective::RetryAfterDelay(RETRY_DELAY_SECS),
            ClientIo::Frame(b) => {
                match KeyEvent::from_bytes(b) {
                    Ok(e) => ClientDirective::Inject(e),
                    Err(_) => {
                        self.connected = false;
                        ClientDirective::Connect
                    },
                }
            },
            ClientIo::ReadFailed => {
                self.connected = false;
                ClientDirective::Connect
            },
        }
    }
}

/// Law: the client's reconnect behaviour.  A failed connect attempt
/// leaves the client in the reconnect loop with a delayed retry — it
/// never terminates the process; a mid-stream read failure discards
/// the partial frame by dropping the connection and restarts the
/// reconnect loop at once.
pub proof fn lemma_client_reconnect()
    ensures
        spec_client_step(false, ClientIo::ConnectFailed) == (
            false,
            ClientDirective::RetryAfterDelay(RETRY_DELAY_SECS),
        ),
        RETRY_DELAY_SECS > 0,
        spec_client_step(true, ClientIo::ReadFailed) == (false, ClientDirective::Connect),
{
}

} // verus!
