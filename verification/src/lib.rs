//! A debounced directory-watch engine.
//!
//! The library holds the decision logic of a live-reload watcher: it
//! classifies raw filesystem events, coalesces the relevant ones over a
//! debounce window, and says when the single reload callback of a window
//! is due. The surrounding application owns the OS subscriptions and the
//! timer; it feeds events and timer fires into a [`session::WatchSession`]
//! and performs the actions the session hands back.

pub mod coalescer;
pub mod event;
pub mod session;
