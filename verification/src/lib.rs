//! Lifecycle and polling bridge for an exclusive terminal session.
//!
//! The crate governs one capability (an exclusive terminal surface) and one
//! background task (event polling). `SessionState` holds the three lifecycle
//! flags and their atomic-style transitions; `SessionController` is the public
//! operation surface that consults the flags before any delegation to the
//! terminal surface; the poller module holds the decision logic of the
//! background poll loop and its delivery order guarantees; the laws module
//! proves the guarantees that span several operations.

pub mod controller;
pub mod event;
pub mod laws;
pub mod poller;
pub mod state;
