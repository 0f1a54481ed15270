//! The controller: a two-state machine (idle, or one active session) over a
//! backend.
//!
//! Starting an inhibition first releases any active session, then acquires
//! the locks the requested kind needs: the session manager's single call
//! where it is available, else the screen-saver and power-management pair,
//! acquired in a fixed order with the partial acquisition rolled back if a
//! later one fails.  Stopping releases every token, continuing past
//! failures, and always leaves the controller idle.

use vstd::prelude::*;

use crate::backend::Backend;
use crate::bus_call::DBusAPI;
use crate::fake::FakeBackend;
use crate::transport::bus_connect;
use crate::types::NoSleepError;
use crate::types::NoSleepTrait;
use crate::types::NoSleepType;

verus! {

/// One lock token together with the facility that granted it; release must
/// address that facility.
#[derive(Debug, Copy, Clone, PartialEq, Eq, Structural)]
pub struct NoSleepHandle {
    /// The opaque handle the facility returned.
    pub handle: u32,
    /// The facility that granted it.
    pub api: DBusAPI,
}

/// The tokens held by a session, oldest first, stripped of their facility.
pub open spec fn tokens_of(handles: Seq<NoSleepHandle>) -> Seq<u32> {
    handles.map_values(|h: NoSleepHandle| h.handle)
}

/// A non-empty set of tokens acquired together for one logical inhibition,
/// released as one unit.
#[derive(Debug)]
pub struct InhibitionSession {
    /// The tokens held, oldest first.
    pub handles: Vec<NoSleepHandle>,
}

impl InhibitionSession {
    /// Wraps the tokens of one successful acquisition.
    pub fn new(handles: Vec<NoSleepHandle>) -> (s: InhibitionSession)
        requires
            handles@.len() > 0,
        ensures
            s.handles@ == handles@,
    {
        InhibitionSession { handles }
    }

    /// Releases every token, oldest first, continuing past failures; the
    /// first failure, if any, is reported after every release was attempted.
    pub fn release_all(self, backend: &mut Backend) -> (r: Result<(), NoSleepError>)
        ensures
            Backend::same_backend(*old(backend), *final(backend)),
            (r matches Err(e) ==> e is StopLock),
            (*old(backend)) is Fake ==> {
                &&& (*final(backend)).fake().released@ == (*old(backend)).fake().released@
                    + tokens_of(self.handles@)
                &&& (r is Ok <==> (self.handles@.len() == 0 || (*old(
                    backend,
                )).fake().release_ok))
            },
    {
        let mut first_err: Option<NoSleepError> = None;
        let mut i: usize = 0;
        while i < self.handles.len()
            invariant
                i <= self.handles@.len(),
                Backend::same_backend(*old(backend), *backend),
                (first_err matches Some(e) ==> e is StopLock),
                (*old(backend)) is Fake ==> {
                    &&& (*backend).fake().released@ == (*old(backend)).fake().released@
                        + tokens_of(self.handles@.take(i as int))
                    &&& (first_err is None <==> (i == 0 || (*old(backend)).fake().release_ok))
                },
            decreases self.handles@.len() - i,
        {
            let h = self.handles[i];
            proof {
                assert(tokens_of(self.handles@.take(i as int + 1)) =~= tokens_of(
                    self.handles@.take(i as int),
                ).push(h.handle));
            }
            match backend.release(&h.api, h.handle) {
                Ok(()) => {},
                Err(e) => {
                    if first_err.is_none() {
                        first_err = Some(e);
                    }
                },
            }
            i += 1;
        }
        proof {
            assert(self.handles@.take(self.handles@.len() as int) =~= self.handles@);
        }
        match first_err {
            None => Ok(()),
            Some(e) => Err(e),
        }
    }
}

/// The controller: at most one active inhibition session over one backend.
pub struct NoSleep {
    /// The backend every acquire and release goes through.
    pub backend: Backend,
    /// The active session, if any.
    pub session: Option<InhibitionSession>,
}

/// The session a start of kind `t` yields from the scripted outcomes: the
/// session manager's grant alone where it grants, else the screen-saver and
/// power pair for display sleep, else the power grant alone; `None` where
/// the needed grants are refused.
pub open spec fn start_session_model(f: FakeBackend, t: NoSleepType) -> Option<
    Seq<NoSleepHandle>,
> {
    if f.gnome is Some {
        Some(seq![NoSleepHandle { handle: f.gnome->0, api: DBusAPI::GnomeApi }])
    } else if t is PreventUserIdleDisplaySleep {
        if f.screen_saver is Some && f.power is Some {
            Some(
                seq![
                    NoSleepHandle {
                        handle: f.screen_saver->0,
                        api: DBusAPI::FreeDesktopScreenSaverAPI,
                    },
                    NoSleepHandle { handle: f.power->0, api: DBusAPI::FreeDesktopPowerApi },
                ],
            )
        } else {
            None
        }
    } else {
        if f.power is Some {
            Some(seq![NoSleepHandle { handle: f.power->0, api: DBusAPI::FreeDesktopPowerApi }])
        } else {
            None
        }
    }
}

/// The tokens a failed start acquired and released again: only a compound
/// acquire that failed on its second sub-call has anything to roll back.
pub open spec fn start_rollback_model(f: FakeBackend, t: NoSleepType) -> Seq<u32> {
    if f.gnome is None && t is PreventUserIdleDisplaySleep && f.screen_saver is Some
        && f.power is None {
        seq![f.screen_saver->0]
    } else {
        Seq::empty()
    }
}

/// The shapes an active session can have after a successful start of kind
/// `t`, whatever the backend: the session manager's single token, or the
/// fallback pair for display sleep, or the power token alone for system
/// sleep.
pub open spec fn session_shape_ok(s: Seq<NoSleepHandle>, t: NoSleepType) -> bool {
    ||| (s.len() == 1 && s[0].api == DBusAPI::GnomeApi)
    ||| (t is PreventUserIdleDisplaySleep && s.len() == 2 && s[0].api
        == DBusAPI::FreeDesktopScreenSaverAPI && s[1].api == DBusAPI::FreeDesktopPowerApi)
    ||| (t is PreventUserIdleSystemSleep && s.len() == 1 && s[0].api
        == DBusAPI::FreeDesktopPowerApi)
}

impl NoSleep {
    /// The handles of the stored session, oldest first; empty when idle.
    pub open spec fn session_view(self) -> Seq<NoSleepHandle> {
        match self.session {
            Some(s) => s.handles@,
            None => Seq::empty(),
        }
    }

    /// A stored session is non-empty.
    pub open spec fn wf(self) -> bool {
        self.session matches Some(s) ==> s.handles@.len() > 0
    }
}

/// What stopping does.  The controller is idle afterwards whatever happened;
/// stopping while idle is a no-op that succeeds; a failure is a release
/// error.  Over the scripted backend: a release is attempted on every held
/// token, oldest first, and the call fails exactly when there were tokens
/// and releases fail.
pub open spec fn stop_post(pre: NoSleep, post: NoSleep, r: Result<(), NoSleepError>) -> bool {
    &&& post.wf()
    &&& post.session is None
    &&& Backend::same_backend(pre.backend, post.backend)
    &&& (pre.session is None ==> (r is Ok && post == pre))
    &&& (r matches Err(e) ==> e is StopLock)
    &&& (pre.backend is Fake ==> {
        let f = pre.backend.fake();
        &&& post.backend.fake().released@ == f.released@ + tokens_of(pre.session_view())
        &&& (r is Ok <==> (pre.session_view().len() == 0 || f.release_ok))
    })
}

/// What starting does.  On failure the controller is idle; on success it
/// holds exactly one session whose shape matches the requested kind.  Over
/// the scripted backend the whole outcome is pinned down: the implicit stop
/// first releases the old session and aborts the start if release fails;
/// then the fallback policy decides the new session, rolling back a partial
/// compound acquire.
pub open spec fn start_post(
    pre: NoSleep,
    t: NoSleepType,
    post: NoSleep,
    r: Result<(), NoSleepError>,
) -> bool {
    &&& post.wf()
    &&& Backend::same_backend(pre.backend, post.backend)
    &&& (r is Err ==> post.session is None)
    &&& (r is Ok ==> session_shape_ok(post.session_view(), t))
    &&& (pre.backend is Fake ==> {
        let f = pre.backend.fake();
        let stop_released = f.released@ + tokens_of(pre.session_view());
        if pre.session_view().len() > 0 && !f.release_ok {
            // the implicit stop failed: its error is surfaced, the start aborted
            &&& (r matches Err(e) && e is StopLock)
            &&& post.session is None
            &&& post.backend.fake().released@ == stop_released
        } else {
            match start_session_model(f, t) {
                Some(s) => {
                    &&& r is Ok
                    &&& post.session_view() == s
                    &&& post.backend.fake().released@ == stop_released
                },
                None => {
                    &&& (r matches Err(e) && e is PreventSleep)
                    &&& post.session is None
                    &&& post.backend.fake().released@ == stop_released + start_rollback_model(
                        f,
                        t,
                    )
                },
            }
        }
    })
}

impl NoSleep {
    /// A controller over the given backend, idle.
    pub fn with_backend(backend: Backend) -> (n: NoSleep)
        ensures
            n.backend == backend,
            n.session is None,
            n.wf(),
    {
        NoSleep { backend, session: None }
    }

    /// The number of lock tokens currently held.
    pub fn token_count(&self) -> (n: usize)
        ensures
            n == self.session_view().len(),
    {
        match &self.session {
            Some(s) => s.handles.len(),
            None => 0,
        }
    }

    /// Creates a controller connected to the session bus; it is idle.
    pub fn new() -> (r: Result<NoSleep, NoSleepError>)
        ensures
            (r matches Ok(n) ==> n.session is None && n.wf() && n.backend is SessionBus),
            (r matches Err(e) ==> e is Init),
    {
        match bus_connect() {
            Ok(conn) => Ok(NoSleep { backend: Backend::SessionBus(conn), session: None }),
            Err(reason) => Err(NoSleepError::Init { reason }),
        }
    }

    /// Releases the active inhibition, if any.  The controller is idle
    /// afterwards even when a release fails; the failure is still surfaced.
    pub fn stop(&mut self) -> (r: Result<(), NoSleepError>)
        ensures
            stop_post(*old(self), *final(self), r),
    {
        match self.session.take() {
            None => Ok(()),
            Some(s) => s.release_all(&mut self.backend),
        }
    }

    /// Starts an inhibition of kind `nosleep_type`, replacing any active
    /// session: any previous session is released first, and on any failure
    /// the controller is left idle with nothing acquired.
    pub fn prevent_sleep(&mut self, nosleep_type: NoSleepType) -> (r: Result<(), NoSleepError>)
        ensures
            start_post(*old(self), nosleep_type, *final(self), r),
    {
        // Clear any previous session; a failed release aborts the start.
        match self.stop() {
            Ok(()) => {},
            Err(e) => {
                return Err(e);
            },
        }
        // The session manager grants both kinds with one call.
        match self.backend.acquire(&DBusAPI::GnomeApi, &nosleep_type) {
            Ok(handle) => {
                let mut handles: Vec<NoSleepHandle> = Vec::new();
                handles.push(NoSleepHandle { handle, api: DBusAPI::GnomeApi });
                self.session = Some(InhibitionSession::new(handles));
                proof {
                    if (*old(self)).backend is Fake {
                        let f = (*old(self)).backend.fake();
                        assert(self.session_view() =~= start_session_model(f, nosleep_type)->0);
                    }
                }
                return Ok(());
            },
            Err(_) => {},
        }
        // Fall back to the pair of independent facilities, in a fixed order.
        let mut handles: Vec<NoSleepHandle> = Vec::new();
        if nosleep_type == NoSleepType::PreventUserIdleDisplaySleep {
            match self.backend.acquire(&DBusAPI::FreeDesktopScreenSaverAPI, &nosleep_type) {
                Ok(handle) => {
                    handles.push(
                        NoSleepHandle { handle, api: DBusAPI::FreeDesktopScreenSaverAPI },
                    );
                },
                Err(e) => {
                    proof {
                        if (*old(self)).backend is Fake {
                            let f = (*old(self)).backend.fake();
                            assert(self.backend.fake().released@ =~= f.released@ + tokens_of(
                                (*old(self)).session_view(),
                            ) + start_rollback_model(f, nosleep_type));
                        }
                    }
                    return Err(e);
                },
            }
        }
        match self.backend.acquire(&DBusAPI::FreeDesktopPowerApi, &nosleep_type) {
            Ok(handle) => {
                handles.push(NoSleepHandle { handle, api: DBusAPI::FreeDesktopPowerApi });
            },
            Err(e) => {
                // Roll back the partial compound acquire, best effort: the
                // acquire error is reported, not any rollback failure.
                let mut i: usize = 0;
                while i < handles.len()
                    invariant
                        i <= handles@.len(),
                        Backend::same_backend((*old(self)).backend, self.backend),
                        self.session is None,
                        (*old(self)).backend is Fake ==> self.backend.fake().released@ == (*old(
                            self,
                        )).backend.fake().released@ + tokens_of(old(self).session_view())
                            + tokens_of(handles@.take(i as int)),
                    decreases handles@.len() - i,
                {
                    let h = handles[i];
                    proof {
                        assert(tokens_of(handles@.take(i as int + 1)) =~= tokens_of(
                            handles@.take(i as int),
                        ).push(h.handle));
                    }
                    let _ = self.backend.release(&h.api, h.handle);
                    i += 1;
                }
                proof {
                    assert(handles@.take(handles@.len() as int) =~= handles@);
                    if (*old(self)).backend is Fake {
                        let f = (*old(self)).backend.fake();
                        assert(tokens_of(handles@) =~= start_rollback_model(f, nosleep_type));
                        assert(self.backend.fake().released@ =~= f.released@ + tokens_of(
                            (*old(self)).session_view(),
                        ) + start_rollback_model(f, nosleep_type));
                    }
                }
                return Err(e);
            },
        }
        self.session = Some(InhibitionSession::new(handles));
        proof {
            if (*old(self)).backend is Fake {
                let f = (*old(self)).backend.fake();
                assert(self.session_view() =~= start_session_model(f, nosleep_type)->0);
            }
        }
        Ok(())
    }

    /// Prevents the display from dimming automatically, replacing any active
    /// session.  For example: playing a video.
    pub fn prevent_display_sleep(&mut self) -> (r: Result<(), NoSleepError>)
        ensures
            start_post(
                *old(self),
                NoSleepType::PreventUserIdleDisplaySleep,
                *final(self),
                r,
            ),
    {
        self.prevent_sleep(NoSleepType::PreventUserIdleDisplaySleep)
    }

    /// Prevents the system from sleeping automatically due to a lack of
    /// user activity, replacing any active session.  For example:
    /// downloading a file in the background.
    pub fn prevent_system_sleep(&mut self) -> (r: Result<(), NoSleepError>)
        ensures
            start_post(
                *old(self),
                NoSleepType::PreventUserIdleSystemSleep,
                *final(self),
                r,
            ),
    {
        self.prevent_sleep(NoSleepType::PreventUserIdleSystemSleep)
    }
}

impl NoSleepTrait for NoSleep {
    fn new() -> Result<NoSleep, NoSleepError> {
        NoSleep::new()
    }

    fn prevent_display_sleep(&mut self) -> Result<(), NoSleepError> {
        NoSleep::prevent_display_sleep(self)
    }

    fn prevent_system_sleep(&mut self) -> Result<(), NoSleepError> {
        NoSleep::prevent_system_sleep(self)
    }

    fn stop(&mut self) -> Result<(), NoSleepError> {
        NoSleep::stop(self)
    }
}

} // verus!
