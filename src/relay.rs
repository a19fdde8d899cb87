//! The decisions of the two relay loops. The loops themselves, which read,
//! write and report, stand outside the library and hand each outcome to the
//! step functions here.
//!
//! The protocol has no chunk boundaries of its own: the listener takes each
//! read of the socket to be exactly one wire chunk, which is why its read
//! buffer is sized to hold the largest one.

use vstd::prelude::*;
use crate::frame::{is_sealing_of, seal, unseal, unsealed, UnsealError, FRAME_OVERHEAD};
use crate::key::Key;

verus! {

/// The most bytes the connector reads from its input at once.
pub const MAX_CHUNK: usize = 2048;

/// Whether the relayed chunks are sealed.
pub enum Mode {
    Plain,
    Encrypted(Key),
}

/// Which end of the connection a loop runs at.
#[derive(Debug, Clone, Copy, PartialEq, Eq, Structural)]
pub enum Role {
    /// Reads local input and sends it to the socket.
    Connector,
    /// Reads the socket and writes to local output.
    Listener,
}

/// What the loop observed since the last step.
#[derive(Debug, Clone, PartialEq, Eq)]
pub enum Event {
    /// One read returned these bytes; none means the end of the stream.
    Received(Vec<u8>),
    /// A read failed.
    ReadFailed,
    /// Writing the last chunk failed.
    WriteFailed,
}

/// What the loop does next.
#[derive(Debug, Clone, PartialEq, Eq)]
pub enum Action {
    /// Write these bytes in full, then read again.
    Write(Vec<u8>),
    /// Report that a wire chunk was refused, write nothing, and read again.
    Discard(UnsealError),
    /// The stream ended: stop cleanly.
    Finish,
    /// An I/O error ended the session: report it and stop.
    Abort,
}

/// `wire` is what the connector may send for `chunk` in `mode`.
pub open spec fn sends(mode: Mode, chunk: Seq<u8>, wire: Seq<u8>) -> bool {
    match mode {
        Mode::Plain => wire == chunk,
        Mode::Encrypted(k) => is_sealing_of(k@, chunk, wire),
    }
}

/// What the listener writes out for one wire chunk in `mode`; nothing where
/// the chunk is refused.
pub open spec fn delivers(mode: Mode, wire: Seq<u8>) -> Option<Seq<u8>> {
    match mode {
        Mode::Plain => Some(wire),
        Mode::Encrypted(k) => match unsealed(k@, wire) {
            Ok(p) => Some(p),
            Err(_) => None,
        },
    }
}

/// The size of the buffer that a loop in `role` reads into.
pub open spec fn buffer_len(role: Role, mode: Mode) -> nat {
    match (role, mode) {
        (Role::Listener, Mode::Encrypted(_)) => (MAX_CHUNK + FRAME_OVERHEAD) as nat,
        _ => MAX_CHUNK as nat,
    }
}

/// The size of the buffer that a loop in `role` reads into: one chunk for
/// the connector, one wire chunk of the largest size for the listener.
pub fn read_buffer_len(role: Role, mode: &Mode) -> (r: usize)
    ensures
        r == buffer_len(role, *mode),
{
    match (role, mode) {
        (Role::Listener, Mode::Encrypted(_)) => MAX_CHUNK + FRAME_OVERHEAD,
        _ => MAX_CHUNK,
    }
}

/// Decides what the connector does after `event`.
pub fn connector_step(mode: &Mode, event: Event) -> (r: Action)
    requires
        event matches Event::Received(b) ==> b@.len() <= MAX_CHUNK,
    ensures
        match event {
            Event::Received(b) => if b@.len() == 0 {
                r == Action::Finish
            } else {
                r matches Action::Write(w) && sends(*mode, b@, w@)
            },
            _ => r == Action::Abort,
        },
{
    match event {
        Event::Received(chunk) => {
            if chunk.len() == 0 {
                Action::Finish
            } else {
                match mode {
                    Mode::Plain => Action::Write(chunk),
                    Mode::Encrypted(key) => Action::Write(seal(chunk.as_slice(), key)),
                }
            }
        },
        _ => Action::Abort,
    }
}

/// Decides what the listener does after `event`. A wire chunk that does not
/// unseal is reported and dropped; the session goes on.
pub fn listener_step(mode: &Mode, event: Event) -> (r: Action)
    ensures
        match event {
            Event::Received(b) => if b@.len() == 0 {
                r == Action::Finish
            } else {
                match delivers(*mode, b@) {
                    Some(p) => r matches Action::Write(w) && w@ == p,
                    None => r matches Action::Discard(e) && mode matches Mode::Encrypted(k)
                        && unsealed(k@, b@) == Err::<Seq<u8>, UnsealError>(e),
                }
            },
            _ => r == Action::Abort,
        },
{
    match event {
        Event::Received(wire) => {
            if wire.len() == 0 {
                Action::Finish
            } else {
                match mode {
                    Mode::Plain => Action::Write(wire),
                    Mode::Encrypted(key) => match unseal(wire.as_slice(), key) {
                        Ok(p) => Action::Write(p),
                        Err(e) => Action::Discard(e),
                    },
                }
            }
        },
        _ => Action::Abort,
    }
}

/// Whatever the connector sends for a chunk fits the listener's buffer in
/// one read, and the listener writes out exactly that chunk.
pub proof fn lemma_relay_delivers(mode: Mode, chunk: Seq<u8>, wire: Seq<u8>)
    requires
        0 < chunk.len() <= MAX_CHUNK,
        sends(mode, chunk, wire),
    ensures
        wire.len() <= buffer_len(Role::Listener, mode),
        delivers(mode, wire) == Some(chunk),
{
}

} // verus!
