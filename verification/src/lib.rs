//! Session/refresh coordination for a live terminal dashboard that watches a
//! remote Erlang node: a typed decoder for dynamic remote values, a session
//! state that surfaces the background driver's failure exactly once, a typed
//! metrics facade layered on the session, and the refresh-loop state machine.

pub mod config;
pub mod metrics;
pub mod ui;
pub mod session;
pub mod term;
