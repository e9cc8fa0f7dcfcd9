//! The socket transport: one client for the lifetime of the process.
//!
//! The listening socket and the stream belong to the surrounding program.
//! This module holds the transport's state and decides, from what the
//! program reports of each accept and each write, what happens next.

use vstd::prelude::*;
use vstd::string::*;
use crate::event_buffer::EventBuffer;
use crate::sdl_event::SdlEvent;
use crate::shutdown::ShutdownToken;
use crate::transport::{
    all_one_line, error_text, records_of, serialize_all, texts_of, WriteOutcome,
};

verus! {

/// Where the socket transport stands.
#[derive(Clone, Copy, Debug, PartialEq, Eq, Structural)]
pub enum ConnectionState {
    /// No client has connected yet.
    WaitingForClient,
    /// The one client is connected.
    Connected,
    /// The client is gone. Nothing leads out of this state.
    Closed,
}

/// The error for handing events to a transport that has no client.
pub open spec fn no_client_message() -> Seq<char> {
    "Attempted to write events without a client."@
}

/// The error for a client that took no bytes, and for a transport that is
/// closed.
pub open spec fn closed_message() -> Seq<char> {
    "TCP writer was closed."@
}

/// The error for a write that failed.
pub open spec fn write_failed_message() -> Seq<char> {
    "Failed to write to TCP writer."@
}

/// The error for a flush that failed.
pub open spec fn flush_failed_message() -> Seq<char> {
    "Failed to flush TCP writer."@
}

/// What precedes the listener's own words when accepting failed.
pub open spec fn accept_failed_prefix() -> Seq<char> {
    "Failed to accept client: "@
}

/// The error for accepting when a client was accepted before.
pub open spec fn already_accepted_message() -> Seq<char> {
    "A client was already accepted."@
}

/// The state after an accept that ended with `outcome`: a waiting
/// transport becomes connected on success; nothing else changes.
pub open spec fn after_accept(state: ConnectionState, outcome: Result<(), String>) -> ConnectionState {
    if state == ConnectionState::WaitingForClient && outcome is Ok {
        ConnectionState::Connected
    } else {
        state
    }
}

/// The error that an accept gives, if any: a refusal where a client was
/// accepted before, else the listener's failure behind a prefix.
pub open spec fn accept_error(state: ConnectionState, outcome: Result<(), String>) -> Option<
    Seq<char>,
> {
    if state != ConnectionState::WaitingForClient {
        Some(already_accepted_message())
    } else {
        match outcome {
            Ok(_) => None,
            Err(detail) => Some(accept_failed_prefix() + detail@),
        }
    }
}

/// The error with which a transport in `state` refuses to take events, if
/// it refuses.
pub open spec fn refusal(state: ConnectionState) -> Option<Seq<char>> {
    match state {
        ConnectionState::WaitingForClient => Some(no_client_message()),
        ConnectionState::Connected => None,
        ConnectionState::Closed => Some(closed_message()),
    }
}

/// Whether a write outcome leaves the connection usable: some bytes were
/// taken and the flush went through.
pub open spec fn delivered(outcome: WriteOutcome) -> bool {
    outcome matches WriteOutcome::Written(count) && count > 0
}

/// The state after a write that ended with `outcome`: a connected
/// transport closes unless the record was delivered; nothing else changes.
pub open spec fn after_write(state: ConnectionState, outcome: WriteOutcome) -> ConnectionState {
    if state == ConnectionState::Connected && !delivered(outcome) {
        ConnectionState::Closed
    } else {
        state
    }
}

/// The error that a reported write gives, if any.
pub open spec fn write_error(state: ConnectionState, outcome: WriteOutcome) -> Option<Seq<char>> {
    match state {
        ConnectionState::WaitingForClient => Some(no_client_message()),
        ConnectionState::Closed => Some(closed_message()),
        ConnectionState::Connected => match outcome {
            WriteOutcome::Written(count) => if count > 0 {
                None
            } else {
                Some(closed_message())
            },
            WriteOutcome::WriteFailed => Some(write_failed_message()),
            WriteOutcome::FlushFailed => Some(flush_failed_message()),
        },
    }
}

/// The socket transport's state machine.
#[derive(Debug)]
pub struct TcpWriter {
    state: ConnectionState,
}

impl TcpWriter {
    /// The state the transport is in.
    pub closed spec fn state(&self) -> ConnectionState {
        self.state
    }

    /// A transport that waits for its client.
    pub fn new() -> (writer: TcpWriter)
        ensures
            writer.state() == ConnectionState::WaitingForClient,
    {
        TcpWriter { state: ConnectionState::WaitingForClient }
    }

    /// Reads the state.
    pub fn connection_state(&self) -> (state: ConnectionState)
        ensures
            state == self.state(),
    {
        self.state
    }

    /// Takes in how the listener's one accept ended: `Ok` when a client
    /// connected, `Err` with the listener's own words when it failed.
    ///
    /// A waiting transport becomes connected on success and stays waiting
    /// on failure, which is returned behind a prefix. A transport that had
    /// its client already refuses and stays as it is.
    pub fn accept(&mut self, outcome: Result<(), String>) -> (result: Result<(), String>)
        ensures
            final(self).state() == after_accept(old(self).state(), outcome),
            error_text(result) == accept_error(old(self).state(), outcome),
    {
        match self.state {
            ConnectionState::WaitingForClient => match outcome {
                Ok(_) => {
                    self.state = ConnectionState::Connected;
                    Ok(())
                },
                Err(detail) => {
                    let message = "Failed to accept client: ".to_owned().concat(detail.as_str());
                    Err(message)
                },
            },
            _ => Err("A client was already accepted.".to_owned()),
        }
    }

    /// Takes everything pending out of `events` and returns its records,
    /// oldest first, for the client.
    ///
    /// Only a connected transport does so. Any other refuses and leaves
    /// `events` as it is.
    pub fn write_events(&mut self, events: &mut EventBuffer) -> (result: Result<Vec<String>, String>)
        ensures
            final(self).state() == old(self).state(),
            error_text(result) == refusal(old(self).state()),
            result is Ok ==> texts_of(result->Ok_0@) == records_of(old(events)@),
            result is Ok ==> all_one_line(texts_of(result->Ok_0@)),
            result is Ok ==> final(events)@ == Seq::<SdlEvent>::empty(),
            result is Err ==> final(events)@ == old(events)@,
    {
        match self.state {
            ConnectionState::Connected => {
                let drained = events.drain_all();
                Ok(serialize_all(&drained))
            },
            ConnectionState::WaitingForClient => Err(
                "Attempted to write events without a client.".to_owned(),
            ),
            ConnectionState::Closed => Err("TCP writer was closed.".to_owned()),
        }
    }

    /// Takes in how writing one record to the client ended.
    ///
    /// On a connected transport, a write that took some bytes and was
    /// flushed changes nothing. A write that took no bytes, a failed write
    /// and a failed flush each close the transport and request shutdown, in
    /// this same call. A transport that is not connected stays as it is and
    /// answers with the error of its state.
    pub fn written(&mut self, outcome: WriteOutcome, done: &mut ShutdownToken) -> (result: Result<(), String>)
        ensures
            final(self).state() == after_write(old(self).state(), outcome),
            error_text(result) == write_error(old(self).state(), outcome),
            final(done).is_set() == (old(done).is_set() || (old(self).state()
                == ConnectionState::Connected && !delivered(outcome))),
    {
        match self.state {
            ConnectionState::Connected => {
                let failure: Option<String> = match outcome {
                    WriteOutcome::Written(count) => if count > 0 {
                        None
                    } else {
                        Some("TCP writer was closed.".to_owned())
                    },
                    WriteOutcome::WriteFailed => Some("Failed to write to TCP writer.".to_owned()),
                    WriteOutcome::FlushFailed => Some("Failed to flush TCP writer.".to_owned()),
                };
                match failure {
                    None => Ok(()),
                    Some(message) => {
                        self.state = ConnectionState::Closed;
                        done.set();
                        Err(message)
                    },
                }
            },
            ConnectionState::WaitingForClient => Err(
                "Attempted to write events without a client.".to_owned(),
            ),
            ConnectionState::Closed => Err("TCP writer was closed.".to_owned()),
        }
    }
}

} // verus!
