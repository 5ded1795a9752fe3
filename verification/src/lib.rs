//! Device-identity bindings of a rendezvous server: which peer each known
//! device currently accepts, and where the device was last seen.
//!
//! [`cache::MacControlMap`] keeps the bindings in memory and reconciles them
//! with a persistent store that it never talks to itself: each operation
//! that needs the store is given in two halves, and the caller makes the
//! round trip between them. [`model`] says what every half does to the
//! cache, and [`laws`] what follows for callers that run side by side.

pub mod abuse_control;
pub mod address;
pub mod cache;
pub mod laws;
pub mod location;
pub mod model;
pub mod record;
pub mod store;
