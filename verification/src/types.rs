//! The public vocabulary of the library: the two inhibition kinds, the error
//! taxonomy, and the controller interface.

use vstd::prelude::*;

verus! {

/// The kind of inhibition a caller asks for.
#[derive(Debug, Copy, Clone, PartialEq, Eq, Structural)]
pub enum NoSleepType {
    /// Prevents the display from dimming automatically.
    PreventUserIdleDisplaySleep,
    /// Prevents the system from sleeping automatically due to a lack of user
    /// activity.
    PreventUserIdleSystemSleep,
}

/// Everything that can go wrong while creating a controller, acquiring an
/// inhibition, or releasing one.
#[derive(Debug)]
pub enum NoSleepError {
    /// The backend connection could not be established.
    Init { reason: String },
    /// An inhibit call failed; no partial session is retained.
    PreventSleep { reason: String },
    /// A release call failed; the controller still clears its bookkeeping.
    StopLock { reason: String },
}

impl NoSleepError {
    /// The human-readable reason carried by the error.
    pub fn message(&self) -> (r: String)
        ensures
            r@ == self.reason_view(),
    {
        match self {
            NoSleepError::Init { reason } => reason.clone(),
            NoSleepError::PreventSleep { reason } => reason.clone(),
            NoSleepError::StopLock { reason } => reason.clone(),
        }
    }

    /// The reason field, whichever variant carries it.
    pub open spec fn reason_view(self) -> Seq<char> {
        match self {
            NoSleepError::Init { reason } => reason@,
            NoSleepError::PreventSleep { reason } => reason@,
            NoSleepError::StopLock { reason } => reason@,
        }
    }
}

/// The controller interface: one active inhibition session at most, replaced
/// by each `prevent_*` call and cleared by `stop`.
pub trait NoSleepTrait where Self: core::marker::Sized {
    /// Creates a controller, establishing any persistent backend connection.
    fn new() -> Result<Self, NoSleepError>;

    /// Prevents the display from dimming automatically.
    /// For example: playing a video.
    fn prevent_display_sleep(&mut self) -> Result<(), NoSleepError>;

    /// Prevents the system from sleeping automatically due to a lack of user
    /// activity.  For example: downloading a file in the background.
    fn prevent_system_sleep(&mut self) -> Result<(), NoSleepError>;

    /// Cancels any previous call to `prevent_display_sleep` or
    /// `prevent_system_sleep`.
    fn stop(&mut self) -> Result<(), NoSleepError>;
}

} // verus!
