//! The controller's state machine over the scripted backend: the start and
//! stop transitions, the fallback policy, rollback, and error surfacing.

use nosleep::backend::Backend;
use nosleep::bus_call::DBusAPI;
use nosleep::controller::NoSleep;
use nosleep::fake::FakeBackend;
use nosleep::transport::handle_of_reply;
use nosleep::types::{NoSleepError, NoSleepType};

fn fake(
    gnome: Option<u32>,
    screen_saver: Option<u32>,
    power: Option<u32>,
    release_ok: bool,
) -> FakeBackend {
    FakeBackend { gnome, screen_saver, power, release_ok, released: Vec::new() }
}

fn controller(f: FakeBackend) -> NoSleep {
    NoSleep::with_backend(Backend::Fake(f))
}

fn released(n: &NoSleep) -> Vec<u32> {
    match &n.backend {
        Backend::Fake(f) => f.released.clone(),
        Backend::SessionBus(_) => panic!("expected the scripted backend"),
    }
}

fn session_apis(n: &NoSleep) -> Vec<DBusAPI> {
    match &n.session {
        Some(s) => s.handles.iter().map(|h| h.api).collect(),
        None => Vec::new(),
    }
}

#[test]
fn test_start_then_stop_leaves_idle_for_both_kinds() {
    for kind in [
        NoSleepType::PreventUserIdleDisplaySleep,
        NoSleepType::PreventUserIdleSystemSleep,
    ] {
        let mut n = controller(fake(Some(1), Some(2), Some(3), true));
        assert!(n.prevent_sleep(kind).is_ok());
        assert!(n.token_count() > 0);
        assert!(n.stop().is_ok());
        assert_eq!(0, n.token_count());
        assert!(n.session.is_none());
    }
}

#[test]
fn test_restart_matches_stop_then_start() {
    // Without the session manager, display sleep takes the token pair and
    // system sleep the power token alone, so the replacement is observable.
    let script = || fake(None, Some(2), Some(3), true);

    let mut restarted = controller(script());
    assert!(restarted.prevent_display_sleep().is_ok());
    assert!(restarted.prevent_system_sleep().is_ok());

    let mut stopped_first = controller(script());
    assert!(stopped_first.prevent_display_sleep().is_ok());
    assert!(stopped_first.stop().is_ok());
    assert!(stopped_first.prevent_system_sleep().is_ok());

    assert_eq!(1, restarted.token_count());
    assert_eq!(session_apis(&stopped_first), session_apis(&restarted));
    assert_eq!(vec![DBusAPI::FreeDesktopPowerApi], session_apis(&restarted));
    assert_eq!(released(&stopped_first), released(&restarted));
}

#[test]
fn test_stop_is_idempotent() {
    let mut n = controller(fake(Some(9), None, None, true));
    assert!(n.prevent_system_sleep().is_ok());
    assert!(n.stop().is_ok());
    let ledger = released(&n);
    assert!(n.stop().is_ok());
    assert_eq!(0, n.token_count());
    assert_eq!(ledger, released(&n));
}

#[test]
fn test_stop_on_fresh_controller_is_ok() {
    let mut n = controller(fake(Some(9), None, None, true));
    assert!(n.stop().is_ok());
    assert_eq!(0, n.token_count());
    assert!(released(&n).is_empty());
}

#[test]
fn test_compound_failure_releases_first_token() {
    // The session manager refuses, the screen saver grants, the power
    // facility fails: the screen-saver token must be observed released.
    let mut n = controller(fake(None, Some(11), None, true));
    let r = n.prevent_display_sleep();
    assert!(matches!(r, Err(NoSleepError::PreventSleep { .. })));
    assert_eq!(0, n.token_count());
    assert_eq!(vec![11], released(&n));
}

#[test]
fn test_release_failure_during_stop_still_idle() {
    let mut n = controller(fake(Some(5), None, None, false));
    assert!(n.prevent_display_sleep().is_ok());
    let r = n.stop();
    assert!(matches!(r, Err(NoSleepError::StopLock { .. })));
    assert_eq!(0, n.token_count());
    assert!(n.session.is_none());
    assert_eq!(vec![5], released(&n));
}

#[test]
fn test_release_failure_aborts_the_next_start() {
    let mut n = controller(fake(Some(5), None, None, false));
    assert!(n.prevent_display_sleep().is_ok());
    let r = n.prevent_system_sleep();
    assert!(matches!(r, Err(NoSleepError::StopLock { .. })));
    assert_eq!(0, n.token_count());
    assert_eq!(vec![5], released(&n));
}

#[test]
fn test_grant_and_release_round_trip() {
    // The facility grants T1 and release succeeds: the token count is zero
    // both before the start and after the stop.
    let mut n = controller(fake(Some(42), None, None, true));
    assert_eq!(0, n.token_count());
    assert!(n.prevent_display_sleep().is_ok());
    assert_eq!(1, n.token_count());
    assert!(n.stop().is_ok());
    assert_eq!(0, n.token_count());
    assert_eq!(vec![42], released(&n));
}

#[test]
fn test_unsupported_acquire_remains_idle() {
    let mut n = controller(FakeBackend::refusing());
    let r = n.prevent_system_sleep();
    match r {
        Err(NoSleepError::PreventSleep { reason }) => assert_eq!("Unsupported", reason),
        other => panic!("expected an acquire error, got {:?}", other),
    }
    assert_eq!(0, n.token_count());
    assert!(n.session.is_none());
    assert!(released(&n).is_empty());
}

#[test]
fn test_display_fallback_takes_the_token_pair() {
    let mut n = controller(fake(None, Some(2), Some(3), true));
    assert!(n.prevent_display_sleep().is_ok());
    assert_eq!(2, n.token_count());
    assert_eq!(
        vec![DBusAPI::FreeDesktopScreenSaverAPI, DBusAPI::FreeDesktopPowerApi],
        session_apis(&n)
    );
    assert!(n.stop().is_ok());
    assert_eq!(vec![2, 3], released(&n));
}

#[test]
fn test_system_fallback_takes_the_power_token_alone() {
    let mut n = controller(fake(None, Some(2), Some(3), true));
    assert!(n.prevent_system_sleep().is_ok());
    assert_eq!(1, n.token_count());
    assert_eq!(vec![DBusAPI::FreeDesktopPowerApi], session_apis(&n));
}

#[test]
fn test_session_manager_grant_wins_over_fallback() {
    let mut n = controller(fake(Some(1), Some(2), Some(3), true));
    assert!(n.prevent_display_sleep().is_ok());
    assert_eq!(vec![DBusAPI::GnomeApi], session_apis(&n));
}

#[test]
fn test_display_fallback_fails_without_screen_saver_grant() {
    // The first sub-call of the compound acquire fails: nothing was
    // acquired, so nothing is released.
    let mut n = controller(fake(None, None, Some(3), true));
    let r = n.prevent_display_sleep();
    assert!(matches!(r, Err(NoSleepError::PreventSleep { .. })));
    assert_eq!(0, n.token_count());
    assert!(released(&n).is_empty());
}

#[test]
fn test_handle_of_reply_decides() {
    assert_eq!(Ok(9), handle_of_reply(Some(9)).map_err(|_| ()));
    let r = handle_of_reply(None);
    assert!(matches!(r, Err(NoSleepError::PreventSleep { .. })));
}

#[test]
fn test_error_message_carries_the_reason() {
    let e = NoSleepError::Init { reason: "no bus".to_owned() };
    assert_eq!("no bus", e.message());
    let e = NoSleepError::PreventSleep { reason: "refused".to_owned() };
    assert_eq!("refused", e.message());
    let e = NoSleepError::StopLock { reason: "stale lock token".to_owned() };
    assert_eq!("stale lock token", e.message());
}

#[test]
fn test_fake_backend_constructors() {
    let g = FakeBackend::granting(6);
    assert_eq!(Some(6), g.gnome);
    assert_eq!(Some(6), g.screen_saver);
    assert_eq!(Some(6), g.power);
    assert!(g.release_ok);
    assert!(g.released.is_empty());
    let r = FakeBackend::refusing();
    assert_eq!(None, r.gnome);
    assert_eq!(None, r.screen_saver);
    assert_eq!(None, r.power);
    assert!(r.release_ok);
}
