//! Per-connection supervisor: the control state machine.
//!
//! Each accepted connection is driven by one supervisor. It starts in
//! `AwaitingName`, where the driver sends the prompt line and reads
//! exactly one line; a name moves it to `Active`, an end of stream or a
//! read failure closes it with no broadcast. In `Active` every further
//! line becomes a chat broadcast, and the end of the stream, clean or
//! not, becomes a leave broadcast and closes the connection. The
//! decisions live here, verified; the driver outside the library
//! performs the reads, the registration and the broadcasts each step
//! asks for.

use crate::event::ChatEvent;
use vstd::prelude::*;

verus! {

/// Lifecycle state of one connection.
#[derive(Clone, Copy, Debug, PartialEq, Eq, Structural)]
pub enum SupState {
    /// The prompt has been sent; the first line is awaited.
    AwaitingName,
    /// The peer is named and registered; chat lines are relayed.
    Active,
    /// The connection is finished.
    Closed,
}

/// What one attempt to read a line produced.
#[derive(Clone, Debug)]
pub enum ReadOutcome {
    /// One complete line arrived.
    Line(String),
    /// The stream ended cleanly.
    Eof,
    /// Reading failed: a transport error or a protocol error from the
    /// line codec.
    Failed,
}

/// What the driver must do after the name line was awaited.
#[derive(Clone, Debug)]
pub enum NameStep {
    /// Register the connection, spawn its writer loop, then broadcast
    /// this join event to every other peer.
    Join { event: ChatEvent },
    /// Close with no broadcast; `failed` tells a clean early disconnect
    /// from a read error to be logged.
    Close { failed: bool },
}

/// What the driver must do after a read in the active state.
#[derive(Clone, Debug)]
pub enum ActiveStep {
    /// Broadcast this chat event to every other peer and keep reading.
    Say { event: ChatEvent },
    /// Broadcast this leave event to every other peer, remove this
    /// connection's registry entry so it cannot linger as a stale
    /// target, then close; `failed` tells a clean end of stream from a
    /// read error.
    Leave { event: ChatEvent, failed: bool },
}

/// The control state machine of one connection.
pub struct Supervisor {
    id: u64,
    state: SupState,
    name: Option<String>,
}

impl Supervisor {
    /// This connection's identifier.
    pub closed spec fn spec_id(self) -> u64 {
        self.id
    }

    /// The lifecycle state.
    pub closed spec fn spec_state(self) -> SupState {
        self.state
    }

    /// The display name read from the peer, once there is one.
    pub closed spec fn spec_name(self) -> Option<String> {
        self.name
    }

    /// A name is held from the moment the connection becomes active.
    pub closed spec fn wf(self) -> bool {
        &&& self.state is AwaitingName ==> self.name is None
        &&& self.state is Active ==> self.name is Some
    }

    /// A supervisor for a freshly accepted connection.
    pub fn new(id: u64) -> (r: Self)
        ensures
            r.wf(),
            r.spec_id() == id,
            r.spec_state() is AwaitingName,
            r.spec_name() is None,
    {
        Supervisor { id, state: SupState::AwaitingName, name: None }
    }

    /// This connection's identifier.
    pub fn id(&self) -> (r: u64)
        ensures
            r == self.spec_id(),
    {
        self.id
    }

    /// The lifecycle state.
    pub fn state(&self) -> (r: SupState)
        ensures
            r == self.spec_state(),
    {
        self.state
    }

    /// Take the outcome of awaiting the name line.
    ///
    /// A line is taken verbatim as the display name and makes the
    /// connection active; the driver must then register it and broadcast
    /// the returned join event. An end of stream or a read failure closes
    /// the connection with no broadcast at all.
    pub fn on_name_read(&mut self, outcome: ReadOutcome) -> (r: NameStep)
        requires
            old(self).wf(),
            old(self).spec_state() is AwaitingName,
        ensures
            final(self).wf(),
            final(self).spec_id() == old(self).spec_id(),
            outcome matches ReadOutcome::Line(nm) ==> final(self).spec_state() is Active
                && final(self).spec_name() == Some(nm) && r == (NameStep::Join {
                event: ChatEvent::Joined { name: nm },
            }),
            outcome is Eof ==> final(self).spec_state() is Closed && final(self).spec_name()
                is None && r == (NameStep::Close { failed: false }),
            outcome is Failed ==> final(self).spec_state() is Closed && final(self).spec_name()
                is None && r == (NameStep::Close { failed: true }),
    {
        match outcome {
            ReadOutcome::Line(nm) => {
                self.state = SupState::Active;
                self.name = Some(nm.clone());
                NameStep::Join { event: ChatEvent::Joined { name: nm } }
            },
            ReadOutcome::Eof => {
                self.state = SupState::Closed;
                NameStep::Close { failed: false }
            },
            ReadOutcome::Failed => {
                self.state = SupState::Closed;
                NameStep::Close { failed: true }
            },
        }
    }

    /// Take the outcome of one read while active.
    ///
    /// A line becomes a chat broadcast and the connection stays active.
    /// An end of stream or a read failure closes the connection; either
    /// way the driver must broadcast the returned leave event to every
    /// other peer.
    pub fn on_active_read(&mut self, outcome: ReadOutcome) -> (r: ActiveStep)
        requires
            old(self).wf(),
            old(self).spec_state() is Active,
        ensures
            final(self).wf(),
            final(self).spec_id() == old(self).spec_id(),
            final(self).spec_name() == old(self).spec_name(),
            outcome matches ReadOutcome::Line(text) ==> final(self).spec_state() is Active && (
            old(self).spec_name() matches Some(nm) && r == (ActiveStep::Say {
                event: ChatEvent::Said { name: nm, text },
            })),
            outcome is Eof ==> final(self).spec_state() is Closed && (old(self).spec_name()
                matches Some(nm) && r == (ActiveStep::Leave {
                event: ChatEvent::Left { name: nm },
                failed: false,
            })),
            outcome is Failed ==> final(self).spec_state() is Closed && (old(self).spec_name()
                matches Some(nm) && r == (ActiveStep::Leave {
                event: ChatEvent::Left { name: nm },
                failed: true,
            })),
    {
        let nm = match &self.name {
            Some(n) => n.clone(),
            None => String::new(),  // unreachable: active implies a name is held
        };
        match outcome {
            ReadOutcome::Line(text) => ActiveStep::Say {
                event: ChatEvent::Said { name: nm, text },
            },
            ReadOutcome::Eof => {
                self.state = SupState::Closed;
                ActiveStep::Leave { event: ChatEvent::Left { name: nm }, failed: false }
            },
            ReadOutcome::Failed => {
                self.state = SupState::Closed;
                ActiveStep::Leave { event: ChatEvent::Left { name: nm }, failed: true }
            },
        }
    }
}

} // verus!
