//! An access-controlled allow-list: one owner, fixed when the list is created,
//! may add and remove member addresses; anyone may list the members or ask
//! whether an address is among them.
//!
//! The list itself is a [`state::State`]. The operations on it are in
//! [`contract`]; [`model`] says, over plain sequences of text, what each of
//! them does, and [`laws`] proves what follows. Storage is the caller's
//! business: it loads the state, hands it in, and stores it again when the
//! operation succeeded.

pub mod address;
pub mod contract;
pub mod error;
pub mod host;
pub mod laws;
pub mod model;
pub mod msg;
pub mod state;
