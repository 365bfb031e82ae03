//! Keeps the session from idling while audio flows through a monitored sink.
//!
//! The library holds the decision logic: an incremental model of the audio graph with its
//! active-sink query, node filters, the debouncing inhibit-state machine and the dispatch of
//! main-loop messages. Everything that talks to the outside world lives in the application.

pub mod object;
pub mod filter;
pub mod graph;
pub mod inhibit_state;
pub mod idle_inhibitor;
pub mod messages;
pub mod props;
pub mod settings;
