//! The guarantees of the controller's state machine, stated over its
//! transition predicates and proved once and for all.
//!
//! Each lemma quantifies over transitions of the scripted backend, whose
//! outcomes the controller's contracts pin down exactly; the `ensures` of
//! `prevent_sleep` and `stop` instantiate the predicates, so what is proved
//! here holds of every run of the executable controller over that backend.

use vstd::prelude::*;

use crate::controller::NoSleep;
use crate::controller::session_shape_ok;
use crate::controller::start_post;
use crate::controller::start_rollback_model;
use crate::controller::start_session_model;
use crate::controller::stop_post;
use crate::controller::tokens_of;
use crate::types::NoSleepError;
use crate::types::NoSleepType;

verus! {

/// Starting an inhibition of any kind and then stopping leaves the
/// controller idle, with zero stored tokens, whatever either call returned.
pub proof fn lemma_start_then_stop_idle(
    pre: NoSleep,
    t: NoSleepType,
    mid: NoSleep,
    r1: Result<(), NoSleepError>,
    post: NoSleep,
    r2: Result<(), NoSleepError>,
)
    requires
        start_post(pre, t, mid, r1),
        stop_post(mid, post, r2),
    ensures
        post.session is None,
        post.session_view().len() == 0,
{
}

/// Starting a second inhibition without stopping ends in the same state as
/// stopping first and then starting it.  Over a backend whose releases
/// succeed, both orders leave the same session; and where the second kind's
/// policy can be satisfied, that is exactly one active session matching the
/// second kind.
pub proof fn lemma_restart_equals_stop_then_start(
    pre: NoSleep,
    k1: NoSleepType,
    k2: NoSleepType,
    mid1: NoSleep,
    r1: Result<(), NoSleepError>,
    post1: NoSleep,
    ra: Result<(), NoSleepError>,
    mid2: NoSleep,
    r2: Result<(), NoSleepError>,
    post2: NoSleep,
    rb: Result<(), NoSleepError>,
)
    requires
        pre.backend is Fake,
        pre.backend.fake().release_ok,
        start_post(pre, k1, mid1, r1),
        start_post(mid1, k2, post1, ra),
        stop_post(pre, mid2, r2),
        start_post(mid2, k2, post2, rb),
    ensures
        post1.session_view() == post2.session_view(),
        ra is Ok <==> rb is Ok,
        start_session_model(pre.backend.fake(), k2) is Some ==> (ra is Ok && rb is Ok
            && post1.session_view() == start_session_model(pre.backend.fake(), k2)->0
            && session_shape_ok(post1.session_view(), k2)),
{
}

/// Stopping is idempotent: a second stop right in a row succeeds and changes
/// nothing, and records no further release attempts.
pub proof fn lemma_stop_idempotent(
    s0: NoSleep,
    s1: NoSleep,
    r1: Result<(), NoSleepError>,
    s2: NoSleep,
    r2: Result<(), NoSleepError>,
)
    requires
        stop_post(s0, s1, r1),
        stop_post(s1, s2, r2),
    ensures
        r2 is Ok,
        s2 == s1,
{
}

/// A compound acquire that fails on its second sub-call leaves zero tokens
/// held, and the token its first sub-call granted has had a release
/// attempted on it.
pub proof fn lemma_partial_acquire_rolls_back(
    pre: NoSleep,
    post: NoSleep,
    r: Result<(), NoSleepError>,
)
    requires
        pre.backend is Fake,
        pre.backend.fake().gnome is None,
        pre.backend.fake().screen_saver is Some,
        pre.backend.fake().power is None,
        // the implicit stop must not abort the start before its acquires
        pre.session is None || pre.backend.fake().release_ok,
        start_post(pre, NoSleepType::PreventUserIdleDisplaySleep, post, r),
    ensures
        r is Err,
        post.session is None,
        post.backend.fake().released@ == (pre.backend.fake().released@ + tokens_of(
            pre.session_view(),
        )).push(pre.backend.fake().screen_saver->0),
{
    let f = pre.backend.fake();
    let t = NoSleepType::PreventUserIdleDisplaySleep;
    assert(f.released@ + tokens_of(pre.session_view()) + start_rollback_model(f, t) =~= (
    f.released@ + tokens_of(pre.session_view())).push(f.screen_saver->0));
}

/// A release failure during stop still leaves the controller idle, with the
/// error surfaced to the caller.
pub proof fn lemma_release_failure_still_idle(
    pre: NoSleep,
    post: NoSleep,
    r: Result<(), NoSleepError>,
)
    requires
        pre.backend is Fake,
        !pre.backend.fake().release_ok,
        pre.session_view().len() > 0,
        stop_post(pre, post, r),
    ensures
        (r matches Err(e) && e is StopLock),
        post.session is None,
        post.session_view().len() == 0,
{
}

} // verus!
