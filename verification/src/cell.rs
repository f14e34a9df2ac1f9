use crate::error::CellError;
use crate::key::{fresh_key, is_key};
use crate::model::{CellState, ListenerAction, Phase};
use crate::wire::Wire;
use vstd::prelude::*;

verus! {

/// The client of `redis`: an address that was read, with no connection
/// behind it. The library carries it for the runtime and never looks into it.
#[verifier::external_type_specification]
#[verifier::external_body]
pub struct ExClient(redis::Client);

/// The error of `redis`, carried as it comes and never looked into.
#[verifier::external_type_specification]
#[verifier::external_body]
pub struct ExRedisError(redis::RedisError);

/// Whether `redis::Client::open` takes an address: whether it reads as an
/// address of a store. That depends on the text alone.
pub uninterp spec fn endpoint_accepted(uri: Seq<char>) -> bool;

/// `redis::Client::open` on an address. It reads the address and connects to
/// nothing; it returns a client where it takes the address and an error
/// where it does not.
#[verifier::external_body]
fn open_client(uri: &str) -> (r: Result<redis::Client, redis::RedisError>)
    ensures
        r is Ok <==> endpoint_accepted(uri@),
{
    redis::Client::open(uri)
}

/// The write that a runtime is to perform on the remote store: `payload`
/// stored under `key`, replacing what was there.
pub struct StoreCommand {
    /// The key to write under.
    pub key: String,
    /// The encoded value.
    pub payload: String,
}

/// The phase of a cell and what became of its listener, kept together so
/// that they change in one step.
struct Marks {
    phase: Phase,
    listening: bool,
    started: bool,
}

impl Marks {
    spec fn wf(self) -> bool {
        &&& self.phase is Closing ==> self.listening
        &&& self.phase is Closed ==> !self.listening
        &&& self.listening ==> self.started
        &&& self.phase is Active ==> self.started
    }
}

/// A replicated cell: a value of `T` cached beside the key under which the
/// remote store holds its master copy. Every cell is well-formed, whatever
/// was done with it.
pub struct RedisDatatype<T> {
    client: redis::Client,
    key: String,
    value: T,
    marks: Marks,
}

impl<T> RedisDatatype<T> {
    #[verifier::type_invariant]
    spec fn inv(self) -> bool {
        self.marks.wf()
    }
}

impl<T: Wire> View for RedisDatatype<T> {
    type V = CellState<T::V>;

    closed spec fn view(&self) -> CellState<T::V> {
        CellState {
            key: self.key@,
            value: self.value@,
            phase: self.marks.phase,
            listening: self.marks.listening,
            started: self.marks.started,
        }
    }
}

impl<T: Wire> RedisDatatype<T> {
    /// The client that the cell was built with. No step of the cell changes
    /// it.
    pub closed spec fn endpoint(&self) -> redis::Client {
        self.client
    }

    /// Builds a cell around `val` for the store at `uri`, under a key made for
    /// it. The cell is initializing and has no listener yet. An address that
    /// the client does not take gives `Connection`, and no cell; nothing else
    /// makes `new` fail.
    pub fn new(val: T, uri: &str) -> (r: Result<Self, CellError>)
        ensures
            match r {
                Ok(cell) => {
                    &&& endpoint_accepted(uri@)
                    &&& cell@ == CellState::fresh(cell@.key, val@)
                    &&& is_key(cell@.key)
                    &&& cell@.wf()
                },
                Err(e) => !endpoint_accepted(uri@) && e == CellError::Connection,
            },
    {
        let opened = open_client(uri);
        let key = fresh_key();
        Self::assemble(val, opened, key)
    }

    /// Builds a cell from the outcome of opening the client and from a key:
    /// a fresh cell that holds the client where it was opened, `Connection`
    /// where it was not.
    pub fn assemble(
        val: T,
        opened: Result<redis::Client, redis::RedisError>,
        key: String,
    ) -> (r: Result<Self, CellError>)
        ensures
            match r {
                Ok(cell) => {
                    &&& opened matches Ok(client) && cell.endpoint() == client
                    &&& cell@ == CellState::fresh(key@, val@)
                    &&& cell@.wf()
                },
                Err(e) => opened is Err && e == CellError::Connection,
            },
    {
        match opened {
            Ok(client) => Ok(
                RedisDatatype {
                    client,
                    key,
                    value: val,
                    marks: Marks { phase: Phase::Initializing, listening: false, started: false },
                },
            ),
            Err(_) => Err(CellError::Connection),
        }
    }

    /// Starts the life of a cell just built, given whether the listener's own
    /// connection to the remote store was made. Without a connection, or for
    /// a cell whose handle was given up, the result is `Connection`.
    /// Otherwise the cached value is encoded, as the first write will need
    /// it: a value without an encoding gives `Serialization`. In both cases
    /// the cell is consumed, so that nothing half built is left. Where
    /// neither holds the cell comes back listening, beside the name of the
    /// channel to subscribe to.
    pub fn start(self, connected: bool) -> (r: Result<(Self, String), CellError>)
        ensures
            match r {
                Ok((cell, channel)) => {
                    &&& self@.can_listen(connected)
                    &&& T::encodes(self@.value)
                    &&& cell@ == self@.subscribed(connected)
                    &&& cell.endpoint() == self.endpoint()
                    &&& channel@ == self@.key
                    &&& cell@.wf()
                },
                Err(e) => if !self@.can_listen(connected) {
                    e == CellError::Connection
                } else {
                    !T::encodes(self@.value) && e == CellError::Serialization
                },
            },
    {
        let mut cell = self;
        match cell.subscribe(connected) {
            Ok(channel) => {
                if cell.value.encode().is_ok() {
                    Ok((cell, channel))
                } else {
                    Err(CellError::Serialization)
                }
            },
            Err(e) => Err(e),
        }
    }

    /// Decides the start of a listener, given whether its own connection to
    /// the remote store was made. Where one can be started the cell listens
    /// from now on, and the result names the channel to subscribe to, which
    /// is the cell's key. Without a connection, or on a cell whose handle was
    /// given up, the cell is unchanged and the result is `Connection`.
    pub fn subscribe(&mut self, connected: bool) -> (r: Result<String, CellError>)
        ensures
            old(self)@.wf(),
            final(self)@.wf(),
            final(self)@ == old(self)@.subscribed(connected),
            final(self).endpoint() == old(self).endpoint(),
            match r {
                Ok(channel) => old(self)@.can_listen(connected) && channel@ == old(self)@.key,
                Err(e) => !old(self)@.can_listen(connected) && e == CellError::Connection,
            },
    {
        proof {
            use_type_invariant(&*self);
        }
        if !connected {
            return Err(CellError::Connection);
        }
        match self.marks.phase {
            Phase::Initializing | Phase::Active => {
                self.marks = Marks { phase: self.marks.phase, listening: true, started: true };
                Ok(self.key.clone())
            },
            _ => Err(CellError::Connection),
        }
    }

    /// The write that `set` of `val` needs: the value's encoding under the
    /// cell's key; the payload decodes to the value again. A value without an
    /// encoding gives `Serialization`. Otherwise a cell that takes no write
    /// gives `Connection`: one whose listener was never started, for the
    /// listener comes before the first write, and one whose handle was given
    /// up.
    pub fn request(&self, val: &T) -> (r: Result<StoreCommand, CellError>)
        ensures
            self@.wf(),
            match r {
                Ok(command) => {
                    &&& T::encodes(val@)
                    &&& self@.can_write()
                    &&& command.key@ == self@.key
                    &&& command.payload@ == T::encoding(val@)
                    &&& T::decoding(command.payload@) == Some(val@)
                },
                Err(e) => if !T::encodes(val@) {
                    e == CellError::Serialization
                } else {
                    !self@.can_write() && e == CellError::Connection
                },
            },
    {
        proof {
            use_type_invariant(self);
        }
        match val.encode() {
            Ok(payload) => {
                if self.writable() {
                    Ok(StoreCommand { key: self.key.clone(), payload })
                } else {
                    Err(CellError::Connection)
                }
            },
            Err(e) => Err(e),
        }
    }

    /// Finishes a write of `val` whose remote part did or did not succeed.
    /// A value without an encoding, for which `request` names no write,
    /// leaves the cell unchanged and gives `Serialization`. Otherwise, after a
    /// write that succeeded on a cell that takes writes, the cache holds
    /// `val` and an initializing cell is active; after any other the cell is
    /// unchanged and the result is `Connection`.
    pub fn set(&mut self, val: T, written: bool) -> (r: Result<(), CellError>)
        ensures
            old(self)@.wf(),
            final(self)@.wf(),
            final(self)@ == if T::encodes(val@) {
                old(self)@.stored(val@, written)
            } else {
                old(self)@
            },
            final(self).endpoint() == old(self).endpoint(),
            match r {
                Ok(_) => T::encodes(val@) && old(self)@.can_store(written),
                Err(e) => if !T::encodes(val@) {
                    e == CellError::Serialization
                } else {
                    !old(self)@.can_store(written) && e == CellError::Connection
                },
            },
    {
        proof {
            use_type_invariant(&*self);
        }
        if val.encode().is_err() {
            return Err(CellError::Serialization);
        }
        if written && self.writable() {
            self.value = val;
            self.marks = Marks {
                phase: Phase::Active,
                listening: self.marks.listening,
                started: true,
            };
            Ok(())
        } else {
            Err(CellError::Connection)
        }
    }

    /// Whether the cell takes writes.
    fn writable(&self) -> (r: bool)
        ensures
            r == self@.can_write(),
    {
        self.marks.started && match self.marks.phase {
            Phase::Initializing | Phase::Active => true,
            _ => false,
        }
    }

    /// A copy of the cached value. The cell is not changed and nothing remote
    /// is asked.
    pub fn get(&self) -> (r: T)
        ensures
            r@ == self@.value,
    {
        self.value.duplicate()
    }

    /// The listener's step on a message published on `channel`: the payload
    /// is decoded and the outcome delivered.
    pub fn receive(&mut self, channel: &str, payload: &str) -> (action: ListenerAction)
        ensures
            old(self)@.wf(),
            final(self)@.wf(),
            final(self)@ == old(self)@.delivered(channel@, T::decoding(payload@)),
            final(self).endpoint() == old(self).endpoint(),
            action == final(self)@.action(),
    {
        match T::decode(payload) {
            Ok(value) => self.deliver(channel, Some(value)),
            Err(_) => self.deliver(channel, None),
        }
    }

    /// The listener's step on a message published on `channel` whose payload
    /// was decoded to `decoded`, `None` standing for a payload that did not
    /// decode.
    pub fn deliver(&mut self, channel: &str, decoded: Option<T>) -> (action: ListenerAction)
        ensures
            old(self)@.wf(),
            final(self)@.wf(),
            final(self)@ == old(self)@.delivered(
                channel@,
                match decoded {
                    Some(value) => Some(value@),
                    None => None,
                },
            ),
            final(self).endpoint() == old(self).endpoint(),
            action == final(self)@.action(),
    {
        proof {
            use_type_invariant(&*self);
        }
        if !self.marks.listening {
            return ListenerAction::Stop;
        }
        if self.marks.phase == Phase::Closing {
            self.marks = Marks { phase: Phase::Closed, listening: false, started: true };
            return ListenerAction::Stop;
        }
        let name = channel.to_owned();
        if name != self.key {
            return ListenerAction::Continue;
        }
        match decoded {
            Some(value) => {
                self.value = value;
                ListenerAction::Continue
            },
            None => {
                self.marks = Marks { phase: self.marks.phase, listening: false, started: true };
                ListenerAction::Stop
            },
        }
    }

    /// Gives the handle up: a listening cell is closing until its listener
    /// ends, any other is closed.
    pub fn close(&mut self)
        ensures
            old(self)@.wf(),
            final(self)@.wf(),
            final(self)@ == old(self)@.closed(),
            final(self).endpoint() == old(self).endpoint(),
    {
        proof {
            use_type_invariant(&*self);
        }
        if self.marks.listening {
            self.marks = Marks { phase: Phase::Closing, listening: true, started: true };
        } else {
            self.marks = Marks {
                phase: Phase::Closed,
                listening: false,
                started: self.marks.started,
            };
        }
    }

    /// Records that the listener has ended.
    pub fn listener_stopped(&mut self)
        ensures
            old(self)@.wf(),
            final(self)@.wf(),
            final(self)@ == old(self)@.stopped(),
            final(self).endpoint() == old(self).endpoint(),
    {
        proof {
            use_type_invariant(&*self);
        }
        if self.marks.phase == Phase::Closing {
            self.marks = Marks { phase: Phase::Closed, listening: false, started: true };
        } else {
            self.marks = Marks {
                phase: self.marks.phase,
                listening: false,
                started: self.marks.started,
            };
        }
    }

    /// The key under which the remote store holds the value.
    pub fn key(&self) -> (key: &str)
        ensures
            key@ == self@.key,
    {
        self.key.as_str()
    }

    /// The phase of the cell's life.
    pub fn phase(&self) -> (phase: Phase)
        ensures
            self@.wf(),
            phase == self@.phase,
    {
        proof {
            use_type_invariant(self);
        }
        self.marks.phase
    }

    /// Whether a listener was ever started for the cell.
    pub fn was_started(&self) -> (started: bool)
        ensures
            self@.wf(),
            started == self@.started,
    {
        proof {
            use_type_invariant(self);
        }
        self.marks.started
    }

    /// Whether a listener is delivering updates to the cache.
    pub fn is_listening(&self) -> (listening: bool)
        ensures
            self@.wf(),
            listening == self@.listening,
    {
        proof {
            use_type_invariant(self);
        }
        self.marks.listening
    }

    /// The client through which a runtime connects to the remote store: the
    /// one that the cell was built with.
    pub fn client(&self) -> (client: &redis::Client)
        ensures
            *client == self.endpoint(),
    {
        &self.client
    }
}

} // verus!
