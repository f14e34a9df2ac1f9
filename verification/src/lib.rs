//! A replicated value cell: a typed value whose master copy lives in a remote
//! key-value store under a key of its own, and whose local copy is refreshed
//! by a listener on the publish/subscribe channel named by that key.
//!
//! The library decides; it holds no socket, no lock and no thread. A runtime
//! around it connects to the store and reports what happened:
//!
//! - `new` builds the cell and its key. The runtime then connects for the
//!   listener and calls `start` with the outcome, which hands the cell back
//!   only where the listener can run and the initial value has an encoding.
//!   No write is taken before, so that no update published in between is
//!   lost.
//! - A write is `request`, which names the key and the payload to store, the
//!   remote write itself, and `set` with its outcome. Only a write that the
//!   store took reaches the cache.
//! - `subscribe` starts a listener anew on a cell that lost its own.
//! - `set` publishes nothing. Other holders of the key learn of a write where
//!   the store, or its operator, publishes the payload on the key's channel.
//! - Every published message goes to `receive`, which refreshes the cache or
//!   ends the listener. `is_listening` tells whether the cache is still
//!   refreshed.
//! - `close` gives the handle up and asks the listener to stop;
//!   `listener_stopped` records that it has. A cell whose handle was given up
//!   takes no write and no new listener.

pub mod cell;
pub mod error;
pub mod json;
pub mod key;
pub mod laws;
pub mod model;
pub mod wire;

pub use cell::{RedisDatatype, StoreCommand};
pub use error::CellError;
pub use model::{CellState, ListenerAction, Phase};
pub use wire::Wire;
