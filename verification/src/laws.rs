use crate::cell::RedisDatatype;
use crate::model::{CellState, ListenerAction, Phase};
use crate::json::{lemma_bool_text_value, lemma_i32_text_value};
use crate::wire::Wire;
use vstd::prelude::*;

verus! {

/// On a cell that takes writes, a value written with success is the value
/// read next.
pub proof fn lemma_set_then_get<V>(s: CellState<V>, v: V)
    requires
        s.can_write(),
    ensures
        s.stored(v, true).value == v,
{
}

/// The listener comes before the first write: on a cell whose listener was
/// never started no write reaches the cache or makes the cell active, and a
/// well-formed active cell had its listener started.
pub proof fn lemma_listener_before_first_write<V>(s: CellState<V>, v: V, written: bool)
    ensures
        !s.started ==> s.stored(v, written) == s,
        s.wf() && s.phase is Active ==> s.started,
        s.wf() && s.stored(v, written).phase is Active ==> s.stored(v, written).started,
{
}

/// A well-formed active cell takes writes: a write that the store took
/// reaches its cache.
pub proof fn lemma_active_cell_takes_writes<V>(s: CellState<V>, v: V)
    requires
        s.wf(),
        s.phase is Active,
    ensures
        s.can_write(),
        s.can_store(true),
        s.stored(v, true).value == v,
{
}

/// A cell whose handle was given up takes no write: closing or closed, it
/// keeps its cache whatever the store took.
pub proof fn lemma_closed_cell_takes_no_write<V>(s: CellState<V>, v: V, written: bool)
    requires
        !s.open(),
    ensures
        !s.can_write(),
        s.stored(v, written) == s,
{
}

/// A write that failed leaves the whole cell as it was.
pub proof fn lemma_failed_set_changes_nothing<V>(s: CellState<V>, v: V)
    ensures
        s.stored(v, false) == s,
{
}

/// The encoding of a truth value decodes to that value.
pub proof fn lemma_bool_round_trip(b: bool)
    ensures
        <bool as Wire>::encodes(b),
        <bool as Wire>::decoding(<bool as Wire>::encoding(b)) == Some(b),
{
    lemma_bool_text_value(b);
}

/// The encoding of a 32-bit integer decodes to that integer.
pub proof fn lemma_i32_round_trip(v: i32)
    ensures
        <i32 as Wire>::encodes(v),
        <i32 as Wire>::decoding(<i32 as Wire>::encoding(v)) == Some(v),
{
    lemma_i32_text_value(v);
}

/// Two reads of one cell with nothing between them give equal values: each
/// is the cached value, and reading is no step of the cell.
pub proof fn lemma_get_is_stable<T: Wire>(cell: &RedisDatatype<T>, first: T, second: T)
    requires
        first@ == cell@.value,
        second@ == cell@.value,
    ensures
        first@ == second@,
{
}

/// Two listening cells under one key, neither of them closing, hold the
/// published value after a message on that key's channel, whatever each held
/// before.
pub proof fn lemma_replicas_converge<V>(a: CellState<V>, b: CellState<V>, v: V)
    requires
        a.key == b.key,
        a.listening && !(a.phase is Closing),
        b.listening && !(b.phase is Closing),
    ensures
        a.delivered(a.key, Some(v)).value == v,
        b.delivered(a.key, Some(v)).value == v,
        a.delivered(a.key, Some(v)).action() == ListenerAction::Continue,
        b.delivered(a.key, Some(v)).action() == ListenerAction::Continue,
{
}

/// Two cells with distinct keys never see each other's updates: a message
/// published on the channel of one leaves the cached value, the phase and
/// the listener of the other as they were, whatever its payload.
pub proof fn lemma_unrelated_cells_are_isolated<V>(
    a: CellState<V>,
    b: CellState<V>,
    decoded: Option<V>,
)
    requires
        a.key != b.key,
        !(a.phase is Closing),
        !(b.phase is Closing),
    ensures
        b.delivered(a.key, decoded) == b,
        a.delivered(b.key, decoded) == a,
{
}

/// A message on the channel of another key never changes a cell's cached
/// value, in whatever phase the cell is.
pub proof fn lemma_other_key_is_ignored<V>(s: CellState<V>, channel: Seq<char>, decoded: Option<V>)
    requires
        channel != s.key,
    ensures
        s.delivered(channel, decoded).value == s.value,
{
}

/// Only a successful write and a decoded message on the cell's own channel
/// replace the cached value: starting a listener, a payload that does not
/// decode, giving the handle up and the listener's end all leave it.
pub proof fn lemma_cache_is_kept<V>(s: CellState<V>, connected: bool, channel: Seq<char>)
    ensures
        s.subscribed(connected).value == s.value,
        s.delivered(channel, None).value == s.value,
        s.closed().value == s.value,
        s.stopped().value == s.value,
{
}

/// The key of a cell never changes.
pub proof fn lemma_key_is_kept<V>(
    s: CellState<V>,
    v: V,
    written: bool,
    connected: bool,
    channel: Seq<char>,
    decoded: Option<V>,
)
    ensures
        s.subscribed(connected).key == s.key,
        s.stored(v, written).key == s.key,
        s.delivered(channel, decoded).key == s.key,
        s.closed().key == s.key,
        s.stopped().key == s.key,
{
}

/// Every step keeps a well-formed cell well-formed, and a fresh cell is
/// well-formed.
pub proof fn lemma_steps_keep_wf<V>(
    s: CellState<V>,
    v: V,
    written: bool,
    connected: bool,
    channel: Seq<char>,
    decoded: Option<V>,
)
    requires
        s.wf(),
    ensures
        CellState::fresh(s.key, v).wf(),
        s.subscribed(connected).wf(),
        s.stored(v, written).wf(),
        s.delivered(channel, decoded).wf(),
        s.closed().wf(),
        s.stopped().wf(),
{
}

/// Nothing leads out of the closed phase.
pub proof fn lemma_closed_is_final<V>(
    s: CellState<V>,
    v: V,
    written: bool,
    connected: bool,
    channel: Seq<char>,
    decoded: Option<V>,
)
    requires
        s.wf(),
        s.phase is Closed,
    ensures
        s.subscribed(connected).phase is Closed,
        s.stored(v, written).phase is Closed,
        s.delivered(channel, decoded).phase is Closed,
        s.closed().phase is Closed,
        s.stopped().phase is Closed,
{
}

/// Without a connection no listener is started and the cell is as it was:
/// an endpoint that cannot be reached leaves nothing half done.
pub proof fn lemma_no_connection_no_listener<V>(s: CellState<V>)
    ensures
        !s.can_listen(false),
        s.subscribed(false) == s,
{
}

/// A cell becomes active by its first successful write; a failed one leaves
/// it initializing.
pub proof fn lemma_first_write_activates<V>(s: CellState<V>, v: V)
    requires
        s.phase is Initializing,
        s.started,
    ensures
        s.stored(v, true).phase == Phase::Active,
        s.stored(v, false).phase == Phase::Initializing,
{
}

} // verus!
