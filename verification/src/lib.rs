//! Runtime state layer for a desktop application: a login flag, a bounded
//! power counter, a ticking wall-clock display, and an append-only list of
//! count-down timers, together with the request handlers and background
//! worker steps that read and mutate them.
//!
//! All state is modelled on plain values (elapsed time as whole
//! milliseconds), so every handler and worker step is verified; reading the
//! real clock, locking, threading and event emission live with the caller.

pub mod error;
pub mod primitive;
pub mod clock;
pub mod timer;
pub mod state;
pub mod handlers;
pub mod laws;
