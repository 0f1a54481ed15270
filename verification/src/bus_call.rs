//! The content of every method call the library makes on the session bus,
//! modelled as plain values.
//!
//! A [`BusCall`] names the destination service, object path, interface and
//! member of one method call together with its arguments, in order.  The
//! functions here are the single source of that content: what they return is
//! pinned down exactly by their contracts, and the transport layer only turns
//! a `BusCall` into a wire message.

use vstd::prelude::*;

use crate::types::NoSleepType;

verus! {

/// The bus facility a lock token is acquired from.  A single logical
/// inhibition may need tokens from two facilities, and release must address
/// each token's own facility.
#[derive(Debug, Copy, Clone, PartialEq, Eq, Structural)]
pub enum DBusAPI {
    /// The session-manager interface: one call inhibits idle and suspend.
    GnomeApi,
    /// The power-management interface: inhibits suspend only.
    FreeDesktopPowerApi,
    /// The screen-saver interface: inhibits display idling only.
    FreeDesktopScreenSaverAPI,
}

/// Session-manager inhibit flag: prevent suspension of the session.
pub const GNOME_INHIBIT_SUSPEND_SESSION: u32 = 4;

/// Session-manager inhibit flag: prevent the session being marked idle.
pub const GNOME_INHIBIT_MARK_SESSION_IDLE: u32 = 8;

/// The arguments of one method call, in order.
#[derive(Debug)]
pub enum BusArgs {
    /// The detailed inhibit shape: application id, toplevel window id,
    /// human-readable reason, and inhibit flags.
    InhibitDetailed { app_id: String, toplevel_xid: u32, reason: String, flags: u32 },
    /// The plain inhibit shape: application id and human-readable reason.
    InhibitSimple { app_id: String, reason: String },
    /// The lock handle returned by the matching inhibit call.
    Handle { handle: u32 },
}

/// One method call on the session bus, as plain values.
#[derive(Debug)]
pub struct BusCall {
    pub destination: String,
    pub path: String,
    pub interface: String,
    pub member: String,
    pub args: BusArgs,
}

/// The bus name each facility is reached under.
pub open spec fn api_destination(api: DBusAPI) -> Seq<char> {
    match api {
        DBusAPI::GnomeApi => "org.gnome.SessionManager"@,
        DBusAPI::FreeDesktopPowerApi => "org.freedesktop.PowerManagement"@,
        DBusAPI::FreeDesktopScreenSaverAPI => "org.freedesktop.ScreenSaver"@,
    }
}

/// The object path each facility's inhibit object lives at.
pub open spec fn api_path(api: DBusAPI) -> Seq<char> {
    match api {
        DBusAPI::GnomeApi => "/org/gnome/SessionManager"@,
        DBusAPI::FreeDesktopPowerApi => "/org/freedesktop/PowerManagement/Inhibit"@,
        DBusAPI::FreeDesktopScreenSaverAPI => "/org/freedesktop/ScreenSaver"@,
    }
}

/// The interface each facility's inhibit and uninhibit members belong to.
pub open spec fn api_interface(api: DBusAPI) -> Seq<char> {
    match api {
        DBusAPI::GnomeApi => "org.gnome.SessionManager"@,
        DBusAPI::FreeDesktopPowerApi => "org.freedesktop.PowerManagement.Inhibit"@,
        DBusAPI::FreeDesktopScreenSaverAPI => "org.freedesktop.ScreenSaver"@,
    }
}

/// Every facility names its acquire member `Inhibit`.
pub open spec fn inhibit_member() -> Seq<char> {
    "Inhibit"@
}

/// The release member; the session manager spells it differently from the
/// freedesktop facilities.
pub open spec fn uninhibit_member(api: DBusAPI) -> Seq<char> {
    match api {
        DBusAPI::GnomeApi => "Uninhibit"@,
        DBusAPI::FreeDesktopPowerApi => "UnInhibit"@,
        DBusAPI::FreeDesktopScreenSaverAPI => "UnInhibit"@,
    }
}

/// The application identifier sent with every inhibit call.
pub open spec fn inhibit_app_id() -> Seq<char> {
    "org.powersaveblocker.app"@
}

/// The human-readable reason sent with every inhibit call.
pub open spec fn inhibit_reason() -> Seq<char> {
    "Power Save Blocker"@
}

/// The session-manager flags asked for by each inhibition kind: display
/// sleep needs the session kept non-idle as well as unsuspended.
pub open spec fn gnome_inhibit_flags(nosleep_type: NoSleepType) -> u32 {
    match nosleep_type {
        NoSleepType::PreventUserIdleDisplaySleep => GNOME_INHIBIT_MARK_SESSION_IDLE
            | GNOME_INHIBIT_SUSPEND_SESSION,
        NoSleepType::PreventUserIdleSystemSleep => GNOME_INHIBIT_SUSPEND_SESSION,
    }
}

/// The argument list of an inhibit call on the given facility: the session
/// manager takes the detailed shape, the freedesktop facilities the plain
/// one.
pub open spec fn inhibit_args_match(api: DBusAPI, nosleep_type: NoSleepType, a: BusArgs) -> bool {
    match api {
        DBusAPI::GnomeApi => a matches BusArgs::InhibitDetailed {
            app_id,
            toplevel_xid,
            reason,
            flags,
        } && app_id@ == inhibit_app_id() && toplevel_xid == 0 && reason@ == inhibit_reason()
            && flags == gnome_inhibit_flags(nosleep_type),
        DBusAPI::FreeDesktopPowerApi => a matches BusArgs::InhibitSimple { app_id, reason }
            && app_id@ == inhibit_app_id() && reason@ == inhibit_reason(),
        DBusAPI::FreeDesktopScreenSaverAPI => a matches BusArgs::InhibitSimple { app_id, reason }
            && app_id@ == inhibit_app_id() && reason@ == inhibit_reason(),
    }
}

/// `c` is exactly the inhibit call for `nosleep_type` on `api`.
pub open spec fn is_inhibit_call(api: DBusAPI, nosleep_type: NoSleepType, c: BusCall) -> bool {
    &&& c.destination@ == api_destination(api)
    &&& c.path@ == api_path(api)
    &&& c.interface@ == api_interface(api)
    &&& c.member@ == inhibit_member()
    &&& inhibit_args_match(api, nosleep_type, c.args)
}

/// `c` is exactly the uninhibit call releasing `handle` on `api`.
pub open spec fn is_uninhibit_call(api: DBusAPI, handle: u32, c: BusCall) -> bool {
    &&& c.destination@ == api_destination(api)
    &&& c.path@ == api_path(api)
    &&& c.interface@ == api_interface(api)
    &&& c.member@ == uninhibit_member(api)
    &&& c.args matches BusArgs::Handle { handle: h } && h == handle
}

/// Builds the inhibit call for `nosleep_type` on `api`.
pub fn inhibit_call(api: &DBusAPI, nosleep_type: &NoSleepType) -> (c: BusCall)
    ensures
        is_inhibit_call(*api, *nosleep_type, c),
{
    match api {
        DBusAPI::GnomeApi => {
            let flags: u32 = match nosleep_type {
                NoSleepType::PreventUserIdleDisplaySleep => GNOME_INHIBIT_MARK_SESSION_IDLE
                    | GNOME_INHIBIT_SUSPEND_SESSION,
                NoSleepType::PreventUserIdleSystemSleep => GNOME_INHIBIT_SUSPEND_SESSION,
            };
            BusCall {
                destination: "org.gnome.SessionManager".to_owned(),
                path: "/org/gnome/SessionManager".to_owned(),
                interface: "org.gnome.SessionManager".to_owned(),
                member: "Inhibit".to_owned(),
                args: BusArgs::InhibitDetailed {
                    app_id: "org.powersaveblocker.app".to_owned(),
                    toplevel_xid: 0,
                    reason: "Power Save Blocker".to_owned(),
                    flags,
                },
            }
        },
        DBusAPI::FreeDesktopPowerApi => BusCall {
            destination: "org.freedesktop.PowerManagement".to_owned(),
            path: "/org/freedesktop/PowerManagement/Inhibit".to_owned(),
            interface: "org.freedesktop.PowerManagement.Inhibit".to_owned(),
            member: "Inhibit".to_owned(),
            args: BusArgs::InhibitSimple {
                app_id: "org.powersaveblocker.app".to_owned(),
                reason: "Power Save Blocker".to_owned(),
            },
        },
        DBusAPI::FreeDesktopScreenSaverAPI => BusCall {
            destination: "org.freedesktop.ScreenSaver".to_owned(),
            path: "/org/freedesktop/ScreenSaver".to_owned(),
            interface: "org.freedesktop.ScreenSaver".to_owned(),
            member: "Inhibit".to_owned(),
            args: BusArgs::InhibitSimple {
                app_id: "org.powersaveblocker.app".to_owned(),
                reason: "Power Save Blocker".to_owned(),
            },
        },
    }
}

/// Builds the uninhibit call releasing `handle` on `api`.
pub fn uninhibit_call(api: &DBusAPI, handle: u32) -> (c: BusCall)
    ensures
        is_uninhibit_call(*api, handle, c),
{
    match api {
        DBusAPI::GnomeApi => BusCall {
            destination: "org.gnome.SessionManager".to_owned(),
            path: "/org/gnome/SessionManager".to_owned(),
            interface: "org.gnome.SessionManager".to_owned(),
            member: "Uninhibit".to_owned(),
            args: BusArgs::Handle { handle },
        },
        DBusAPI::FreeDesktopPowerApi => BusCall {
            destination: "org.freedesktop.PowerManagement".to_owned(),
            path: "/org/freedesktop/PowerManagement/Inhibit".to_owned(),
            interface: "org.freedesktop.PowerManagement.Inhibit".to_owned(),
            member: "UnInhibit".to_owned(),
            args: BusArgs::Handle { handle },
        },
        DBusAPI::FreeDesktopScreenSaverAPI => BusCall {
            destination: "org.freedesktop.ScreenSaver".to_owned(),
            path: "/org/freedesktop/ScreenSaver".to_owned(),
            interface: "org.freedesktop.ScreenSaver".to_owned(),
            member: "UnInhibit".to_owned(),
            args: BusArgs::Handle { handle },
        },
    }
}

} // verus!
