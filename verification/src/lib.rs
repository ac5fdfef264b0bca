//! A cached snapshot of aggregate network state, and the loop that refreshes it.
//!
//! - [`status`]: the snapshot value.
//! - [`store`]: the store that holds one snapshot, read by many and replaced
//!   as a whole.
//! - [`refresh`]: the refresh loop as a transition function; whoever runs it
//!   does the waiting, the queries and the locking.
//! - [`history`]: what holds of every sequence of store calls and of loop
//!   events, proved of the two modules above.

pub mod history;
pub mod refresh;
pub mod status;
pub mod store;
