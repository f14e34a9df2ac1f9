use vstd::prelude::*;

verus! {

/// Where a cell stands in its life.
#[derive(Clone, Copy, Debug, PartialEq, Eq, Structural)]
pub enum Phase {
    /// Built, the initial value not yet written to the remote store.
    Initializing,
    /// The initial value was written.
    Active,
    /// The handle was given up and the listener asked to stop.
    Closing,
    /// The listener has ended. Nothing leads out of this phase.
    Closed,
}

/// What the listener does after a message.
#[derive(Clone, Copy, Debug, PartialEq, Eq, Structural)]
pub enum ListenerAction {
    /// Wait for the next message.
    Continue,
    /// End the subscription.
    Stop,
}

/// The mathematical state of a cell holding values modelled by `V`.
pub struct CellState<V> {
    /// The storage key, which is also the channel's name.
    pub key: Seq<char>,
    /// The cached value.
    pub value: V,
    /// The phase of the cell's life.
    pub phase: Phase,
    /// Whether a listener is delivering updates.
    pub listening: bool,
    /// Whether a listener was ever started. Nothing is written before.
    pub started: bool,
}

impl<V> CellState<V> {
    /// A closing cell still has its listener and a closed one has none; a
    /// listener that delivers was started; and an active cell had its
    /// listener started before its first write.
    pub open spec fn wf(self) -> bool {
        &&& self.phase is Closing ==> self.listening
        &&& self.phase is Closed ==> !self.listening
        &&& self.listening ==> self.started
        &&& self.phase is Active ==> self.started
    }

    /// The state of a cell just built around `value` under `key`.
    pub open spec fn fresh(key: Seq<char>, value: V) -> CellState<V> {
        CellState { key, value, phase: Phase::Initializing, listening: false, started: false }
    }

    /// Whether the handle has not been given up.
    pub open spec fn open(self) -> bool {
        self.phase is Initializing || self.phase is Active
    }

    /// Whether a listener can be started, given whether its connection to the
    /// remote store was made: only on an open cell, and only with a
    /// connection.
    pub open spec fn can_listen(self, connected: bool) -> bool {
        connected && self.open()
    }

    /// The state after an attempt to start a listener: the cell listens where
    /// one can be started, and is left as it is where not.
    pub open spec fn subscribed(self, connected: bool) -> CellState<V> {
        if self.can_listen(connected) {
            CellState { listening: true, started: true, ..self }
        } else {
            self
        }
    }

    /// Whether the cell takes writes: only an open cell, and only once its
    /// listener was started.
    pub open spec fn can_write(self) -> bool {
        self.started && self.open()
    }

    /// Whether a remote write reaches the cache: only one that the store
    /// took, on a cell that takes writes.
    pub open spec fn can_store(self, written: bool) -> bool {
        written && self.can_write()
    }

    /// The state after a remote write of `value` that did or did not succeed.
    /// A write that reaches the cache replaces it, and makes an initializing
    /// cell active; any other changes nothing.
    pub open spec fn stored(self, value: V, written: bool) -> CellState<V> {
        if self.can_store(written) {
            CellState {
                value,
                phase: Phase::Active,
                ..self
            }
        } else {
            self
        }
    }

    /// The state after the listener was handed a message published on
    /// `channel`, whose payload decoded to `decoded`.
    ///
    /// Without a listener nothing changes. A closing cell ends its listener.
    /// A message of another channel is ignored. On the cell's own channel a
    /// payload that decodes replaces the cache, and one that does not ends
    /// the listener with the cache left as it was.
    pub open spec fn delivered(self, channel: Seq<char>, decoded: Option<V>) -> CellState<V> {
        if !self.listening {
            self
        } else if self.phase is Closing {
            CellState { phase: Phase::Closed, listening: false, ..self }
        } else if channel != self.key {
            self
        } else {
            match decoded {
                Some(value) => CellState { value, ..self },
                None => CellState { listening: false, ..self },
            }
        }
    }

    /// What the listener is told to do in a state: go on while the cell
    /// listens, stop otherwise.
    pub open spec fn action(self) -> ListenerAction {
        if self.listening {
            ListenerAction::Continue
        } else {
            ListenerAction::Stop
        }
    }

    /// The state after the handle was given up: the listener, if there is
    /// one, is asked to stop; without one the cell is closed at once.
    pub open spec fn closed(self) -> CellState<V> {
        CellState {
            phase: if self.listening {
                Phase::Closing
            } else {
                Phase::Closed
            },
            ..self
        }
    }

    /// The state after the listener has ended, for whatever reason: a
    /// closing cell is closed, any other goes on with a cache that is no
    /// longer refreshed.
    pub open spec fn stopped(self) -> CellState<V> {
        CellState {
            phase: if self.phase is Closing {
                Phase::Closed
            } else {
                self.phase
            },
            listening: false,
            ..self
        }
    }
}

} // verus!
