//! The engine's persistent memory: whether the presence-channel connection
//! is open, and what was last successfully published.

use vstd::prelude::*;

verus! {

/// The only state carried across ticks.
///
/// `last_track_id` and `last_paused` remember the last successful publish;
/// `last_paused` starts out true so that the very first playing track
/// differs from memory and triggers a publish. `connection_open` mirrors
/// whether the host currently holds a live handle to the presence channel.
#[derive(Debug, PartialEq, Eq)]
pub struct EngineState {
    pub connection_open: bool,
    pub last_track_id: Option<String>,
    pub last_paused: bool,
}

/// Mathematical model of the engine state.
pub struct StateModel {
    pub connection_open: bool,
    pub last_track_id: Option<Seq<char>>,
    pub last_paused: bool,
}

impl StateModel {
    /// The state before the first tick: no connection, nothing published.
    pub open spec fn init() -> StateModel {
        StateModel { connection_open: false, last_track_id: None, last_paused: true }
    }

    /// Nothing is remembered as published while no connection is open:
    /// closing the connection destroys the published-state memory.
    pub open spec fn inv(self) -> bool {
        !self.connection_open ==> self.last_track_id is None && self.last_paused
    }

    /// After the connection is dropped: the memory of what was published
    /// is destroyed along with it.
    pub open spec fn closed(self) -> StateModel {
        StateModel { connection_open: false, last_track_id: None, last_paused: true }
    }

    /// After a connection has been opened.
    pub open spec fn connected(self) -> StateModel {
        StateModel {
            connection_open: true,
            last_track_id: self.last_track_id,
            last_paused: self.last_paused,
        }
    }

    /// After a successful publish of the given track identity and pause
    /// flag.
    pub open spec fn published(self, id: Seq<char>, paused: bool) -> StateModel {
        StateModel {
            connection_open: self.connection_open,
            last_track_id: Some(id),
            last_paused: paused,
        }
    }

    /// After a successful clear: no track is remembered as published.
    pub open spec fn cleared(self) -> StateModel {
        StateModel {
            connection_open: self.connection_open,
            last_track_id: None,
            last_paused: self.last_paused,
        }
    }
}

impl View for EngineState {
    type V = StateModel;

    open spec fn view(&self) -> StateModel {
        StateModel {
            connection_open: self.connection_open,
            last_track_id: crate::snapshot::view_opt_string(self.last_track_id),
            last_paused: self.last_paused,
        }
    }
}

impl EngineState {
    /// The state the daemon starts with.
    pub fn new() -> (state: Self)
        ensures
            state@ == StateModel::init(),
            state@.inv(),
    {
        EngineState { connection_open: false, last_track_id: None, last_paused: true }
    }

    /// Records that the connection was closed (or its handle dropped).
    pub fn note_closed(&mut self)
        ensures
            final(self)@ == old(self)@.closed(),
            final(self)@.inv(),
    {
        self.connection_open = false;
        self.last_track_id = None;
        self.last_paused = true;
    }

    /// Records that a connection was opened.
    pub fn note_connected(&mut self)
        ensures
            final(self)@ == old(self)@.connected(),
            old(self)@.inv() ==> final(self)@.inv(),
    {
        self.connection_open = true;
    }

    /// Records a successful publish of `track_id` with pause flag `paused`.
    pub fn note_published(&mut self, track_id: String, paused: bool)
        requires
            old(self).connection_open,
        ensures
            final(self)@ == old(self)@.published(track_id@, paused),
            final(self)@.inv(),
    {
        self.last_track_id = Some(track_id);
        self.last_paused = paused;
    }

    /// Records a successful clear: no track is shown remotely any more.
    pub fn note_cleared(&mut self)
        requires
            old(self).connection_open,
        ensures
            final(self)@ == old(self)@.cleared(),
            final(self)@.inv(),
    {
        self.last_track_id = None;
    }
}

} // verus!
