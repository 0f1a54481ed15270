//! The wire messages the library builds, inspected through the bus crate's
//! own accessors, plus the plain-value call models they are rendered from.

use nosleep::bus_call::{inhibit_call, uninhibit_call, BusArgs, DBusAPI};
use nosleep::transport::{inhibit_msg, uninhibit_msg};
use nosleep::types::NoSleepType;

#[test]
fn test_inhibit_gnome_api_message_prevent_display_sleep() {
    let msg = inhibit_msg(&DBusAPI::GnomeApi, &NoSleepType::PreventUserIdleDisplaySleep);
    assert_eq!("/org/gnome/SessionManager", &*msg.path().unwrap());
    assert_eq!("org.gnome.SessionManager", &*msg.interface().unwrap());
    assert_eq!("Inhibit", &*msg.member().unwrap());
    assert_eq!("org.gnome.SessionManager", &*msg.destination().unwrap());
    assert_eq!(12, msg.get_items().last().unwrap().inner::<u32>().unwrap());
}

#[test]
fn test_inhibit_gnome_api_message_prevent_system_sleep() {
    let msg = inhibit_msg(&DBusAPI::GnomeApi, &NoSleepType::PreventUserIdleSystemSleep);
    assert_eq!("/org/gnome/SessionManager", &*msg.path().unwrap());
    assert_eq!("org.gnome.SessionManager", &*msg.interface().unwrap());
    assert_eq!("Inhibit", &*msg.member().unwrap());
    assert_eq!("org.gnome.SessionManager", &*msg.destination().unwrap());
    assert_eq!(4, msg.get_items().last().unwrap().inner::<u32>().unwrap());
}

#[test]
fn test_uninhibit_gnome_api() {
    let msg = uninhibit_msg(&DBusAPI::GnomeApi, 0);
    assert_eq!("/org/gnome/SessionManager", &*msg.path().unwrap());
    assert_eq!("org.gnome.SessionManager", &*msg.interface().unwrap());
    assert_eq!("Uninhibit", &*msg.member().unwrap());
    assert_eq!("org.gnome.SessionManager", &*msg.destination().unwrap());
    assert_eq!(0, msg.get_items().last().unwrap().inner::<u32>().unwrap());
}

#[test]
fn test_inhibit_freedesktop_screen_saver_api() {
    let msg = inhibit_msg(
        &DBusAPI::FreeDesktopScreenSaverAPI,
        &NoSleepType::PreventUserIdleDisplaySleep,
    );
    assert_eq!("/org/freedesktop/ScreenSaver", &*msg.path().unwrap());
    assert_eq!("org.freedesktop.ScreenSaver", &*msg.interface().unwrap());
    assert_eq!("Inhibit", &*msg.member().unwrap());
    assert_eq!("org.freedesktop.ScreenSaver", &*msg.destination().unwrap());
}

#[test]
fn test_uninhibit_freedesktop_screen_saver_api() {
    let msg = uninhibit_msg(&DBusAPI::FreeDesktopScreenSaverAPI, 0);
    assert_eq!("/org/freedesktop/ScreenSaver", &*msg.path().unwrap());
    assert_eq!("org.freedesktop.ScreenSaver", &*msg.interface().unwrap());
    assert_eq!("UnInhibit", &*msg.member().unwrap());
    assert_eq!("org.freedesktop.ScreenSaver", &*msg.destination().unwrap());
    assert_eq!(0, msg.get_items().last().unwrap().inner::<u32>().unwrap());
}

#[test]
fn test_freedesktop_power_api() {
    let msg = inhibit_msg(
        &DBusAPI::FreeDesktopPowerApi,
        &NoSleepType::PreventUserIdleSystemSleep,
    );
    assert_eq!(
        "/org/freedesktop/PowerManagement/Inhibit",
        &*msg.path().unwrap()
    );
    assert_eq!(
        "org.freedesktop.PowerManagement.Inhibit",
        &*msg.interface().unwrap()
    );
    assert_eq!("Inhibit", &*msg.member().unwrap());
    assert_eq!(
        "org.freedesktop.PowerManagement",
        &*msg.destination().unwrap()
    );
}

#[test]
fn test_inhibit_msg_carries_all_gnome_arguments() {
    let msg = inhibit_msg(&DBusAPI::GnomeApi, &NoSleepType::PreventUserIdleDisplaySleep);
    let items = msg.get_items();
    assert_eq!(4, items.len());
    assert_eq!(
        "org.powersaveblocker.app",
        items[0].inner::<&str>().unwrap()
    );
    assert_eq!(0, items[1].inner::<u32>().unwrap());
    assert_eq!("Power Save Blocker", items[2].inner::<&str>().unwrap());
}

#[test]
fn test_inhibit_msg_carries_both_plain_arguments() {
    let msg = inhibit_msg(
        &DBusAPI::FreeDesktopPowerApi,
        &NoSleepType::PreventUserIdleSystemSleep,
    );
    let items = msg.get_items();
    assert_eq!(2, items.len());
    assert_eq!(
        "org.powersaveblocker.app",
        items[0].inner::<&str>().unwrap()
    );
    assert_eq!("Power Save Blocker", items[1].inner::<&str>().unwrap());
}

#[test]
fn test_uninhibit_msg_carries_the_handle() {
    let msg = uninhibit_msg(&DBusAPI::FreeDesktopPowerApi, 77);
    assert_eq!("UnInhibit", &*msg.member().unwrap());
    let items = msg.get_items();
    assert_eq!(1, items.len());
    assert_eq!(77, items[0].inner::<u32>().unwrap());
}

#[test]
fn test_inhibit_call_gnome_flags() {
    let display = inhibit_call(&DBusAPI::GnomeApi, &NoSleepType::PreventUserIdleDisplaySleep);
    match display.args {
        BusArgs::InhibitDetailed { app_id, toplevel_xid, reason, flags } => {
            assert_eq!("org.powersaveblocker.app", app_id);
            assert_eq!(0, toplevel_xid);
            assert_eq!("Power Save Blocker", reason);
            assert_eq!(12, flags);
        }
        other => panic!("unexpected argument shape: {:?}", other),
    }
    let system = inhibit_call(&DBusAPI::GnomeApi, &NoSleepType::PreventUserIdleSystemSleep);
    match system.args {
        BusArgs::InhibitDetailed { flags, .. } => assert_eq!(4, flags),
        other => panic!("unexpected argument shape: {:?}", other),
    }
}

#[test]
fn test_inhibit_call_screen_saver_contents() {
    let c = inhibit_call(
        &DBusAPI::FreeDesktopScreenSaverAPI,
        &NoSleepType::PreventUserIdleDisplaySleep,
    );
    assert_eq!("org.freedesktop.ScreenSaver", c.destination);
    assert_eq!("/org/freedesktop/ScreenSaver", c.path);
    assert_eq!("org.freedesktop.ScreenSaver", c.interface);
    assert_eq!("Inhibit", c.member);
    match c.args {
        BusArgs::InhibitSimple { app_id, reason } => {
            assert_eq!("org.powersaveblocker.app", app_id);
            assert_eq!("Power Save Blocker", reason);
        }
        other => panic!("unexpected argument shape: {:?}", other),
    }
}

#[test]
fn test_uninhibit_call_contents() {
    let c = uninhibit_call(&DBusAPI::GnomeApi, 31);
    assert_eq!("org.gnome.SessionManager", c.destination);
    assert_eq!("/org/gnome/SessionManager", c.path);
    assert_eq!("org.gnome.SessionManager", c.interface);
    assert_eq!("Uninhibit", c.member);
    match c.args {
        BusArgs::Handle { handle } => assert_eq!(31, handle),
        other => panic!("unexpected argument shape: {:?}", other),
    }
}
