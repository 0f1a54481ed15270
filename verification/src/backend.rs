//! The closed set of backends a controller can run over: the session bus,
//! or the scripted stand-in.
//!
//! Both offer the same two capabilities.  `acquire` asks one facility for a
//! lock of a given kind and returns its opaque handle or an acquire error;
//! `release` hands a handle back to the facility that granted it.  For the
//! scripted backend both are pinned down exactly; for the bus, the outcome
//! depends on the environment and only the error taxonomy is promised.

use vstd::prelude::*;

use crate::bus_call::DBusAPI;
use crate::fake::FakeBackend;
use crate::transport::bus_inhibit;
use crate::transport::bus_uninhibit;
use crate::types::NoSleepError;
use crate::types::NoSleepType;

verus! {

/// One of the known backends, selected when the controller is created.
pub enum Backend {
    /// The session bus, spoken to over a blocking connection.
    SessionBus(dbus::blocking::Connection),
    /// The scripted stand-in.
    Fake(FakeBackend),
}

impl Backend {
    /// The scripted backend behind this value.
    pub open spec fn fake(self) -> FakeBackend
        recommends
            self is Fake,
    {
        self->Fake_0
    }

    /// `post` is the same backend as `pre`: same variant, and for the
    /// scripted backend the same script.
    pub open spec fn same_backend(pre: Backend, post: Backend) -> bool {
        &&& (pre is Fake <==> post is Fake)
        &&& (pre is SessionBus <==> post is SessionBus)
        &&& (pre is Fake ==> post.fake().same_script(pre.fake()))
    }

    /// Asks `api` for a lock of kind `nosleep_type`.  The backend is not
    /// changed; every failure is an acquire error, and for the scripted
    /// backend the outcome is exactly the scripted one.
    pub fn acquire(&self, api: &DBusAPI, nosleep_type: &NoSleepType) -> (r: Result<
        u32,
        NoSleepError,
    >)
        ensures
            (r matches Err(e) ==> e is PreventSleep),
            self is Fake ==> match self.fake().grant(*api) {
                Some(h) => r matches Ok(g) && g == h,
                None => r is Err,
            },
    {
        match self {
            Backend::SessionBus(conn) => bus_inhibit(conn, api, nosleep_type),
            Backend::Fake(f) => match f.acquire(api) {
                Some(handle) => Ok(handle),
                None => Err(NoSleepError::PreventSleep { reason: "Unsupported".to_owned() }),
            },
        }
    }

    /// Hands `handle` back to `api`.  Every failure is a release error; the
    /// scripted backend records the attempt and reports its scripted
    /// outcome.
    pub fn release(&mut self, api: &DBusAPI, handle: u32) -> (r: Result<(), NoSleepError>)
        ensures
            Backend::same_backend(*old(self), *final(self)),
            (r matches Err(e) ==> e is StopLock),
            (*old(self)) is Fake ==> {
                &&& (*final(self)).fake().released@ == (*old(self)).fake().released@.push(handle)
                &&& (r is Ok <==> (*old(self)).fake().release_ok)
            },
    {
        match self {
            Backend::SessionBus(conn) => bus_uninhibit(conn, api, handle),
            Backend::Fake(f) => {
                let ok = f.release(handle);
                if ok {
                    Ok(())
                } else {
                    Err(NoSleepError::StopLock { reason: "stale lock token".to_owned() })
                }
            },
        }
    }
}

} // verus!
