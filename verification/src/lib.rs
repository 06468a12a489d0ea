//! A verified subscription multiplexer for a publish/subscribe key-value
//! store.
//!
//! The library tracks the live set of subscriptions and their registered
//! callbacks, dispatches batched update events to the right callbacks in
//! order, and models the bounded channels that carry batches between the
//! network side and the host side.  All decisions (who receives which
//! event, when an entry is created or purged, when a sender must block)
//! are made here and proved; the surrounding process wires these
//! decisions to the real network client and host runtime.

pub mod bridge;
pub mod channel;
pub mod dispatcher;
pub mod path;
pub mod registry;
pub mod table;
pub mod value;
