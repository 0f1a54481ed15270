//! Keep an operating system awake while user-level work is in progress.
//!
//! The library manages at most one active sleep-inhibition session per
//! controller.  A session is a non-empty set of lock tokens, each granted by
//! one bus facility; starting a new inhibition first releases the previous
//! session, and `stop` is an idempotent, best-effort release that always
//! leaves the controller idle.
//!
//! The state machine, the session bookkeeping, the fallback policy over the
//! bus facilities and the exact content of every bus call are verified; the
//! calls onto the session bus itself go through a small set of trusted
//! wrappers around the `dbus` crate.

pub mod backend;
pub mod bus_call;
pub mod controller;
pub mod fake;
pub mod laws;
pub mod transport;
pub mod types;
