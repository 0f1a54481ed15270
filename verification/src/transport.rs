//! The trusted transport layer: the only place the library touches the bus
//! crate.
//!
//! Everything here either declares an opaque outside type, or wraps exactly
//! one outside call.  Which message content is sent is decided by the
//! verified builders in [`crate::bus_call`]; this module renders a
//! [`BusCall`] into a wire message one plain field at a time and moves it
//! over the connection.

use vstd::prelude::*;

use dbus::blocking::BlockingSender;

use crate::bus_call::BusArgs;
use crate::bus_call::BusCall;
use crate::bus_call::DBusAPI;
use crate::bus_call::inhibit_call;
use crate::bus_call::uninhibit_call;
use crate::types::NoSleepError;
use crate::types::NoSleepType;

verus! {

/// The wire message type of the bus crate, opaque to the library.
#[verifier::external_type_specification]
#[verifier::external_body]
pub struct ExMessage(dbus::Message);

/// The blocking session-bus connection of the bus crate, opaque to the
/// library.
#[verifier::external_type_specification]
#[verifier::external_body]
pub struct ExConnection(dbus::blocking::Connection);

/// How long one bus call may block before it is treated as failed.
pub const CALL_TIMEOUT_MS: u64 = 5000;

/// Call targets the bus daemon accepts as well-formed names.  The message
/// constructor of the bus crate panics on malformed names, so the trusted
/// builders below hold their callers to this set.
pub open spec fn known_bus_target(d: Seq<char>, p: Seq<char>, i: Seq<char>, m: Seq<char>) -> bool {
    &&& (d == "org.gnome.SessionManager"@ || d == "org.freedesktop.PowerManagement"@ || d
        == "org.freedesktop.ScreenSaver"@)
    &&& (p == "/org/gnome/SessionManager"@ || p == "/org/freedesktop/PowerManagement/Inhibit"@ || p
        == "/org/freedesktop/ScreenSaver"@)
    &&& (i == "org.gnome.SessionManager"@ || i == "org.freedesktop.PowerManagement.Inhibit"@ || i
        == "org.freedesktop.ScreenSaver"@)
    &&& (m == "Inhibit"@ || m == "Uninhibit"@ || m == "UnInhibit"@)
}

/// Relies on `dbus::Message::call_with_args`: builds a method-call message
/// with the given header strings and the detailed inhibit argument list, in
/// order.  The underlying name constructors panic on strings the bus rejects
/// as names, so callers are held to the known-valid targets.
#[verifier::external_body]
fn message_inhibit_detailed(
    dest: &str,
    path: &str,
    iface: &str,
    member: &str,
    app_id: &str,
    toplevel_xid: u32,
    reason: &str,
    flags: u32,
) -> (m: dbus::Message)
    requires
        known_bus_target(dest@, path@, iface@, member@),
{
    dbus::Message::call_with_args(dest, path, iface, member, (app_id, toplevel_xid, reason, flags))
}

/// Relies on `dbus::Message::call_with_args`: builds a method-call message
/// with the given header strings and the plain inhibit argument list, in
/// order.  Callers are held to the known-valid targets, as above.
#[verifier::external_body]
fn message_inhibit_simple(
    dest: &str,
    path: &str,
    iface: &str,
    member: &str,
    app_id: &str,
    reason: &str,
) -> (m: dbus::Message)
    requires
        known_bus_target(dest@, path@, iface@, member@),
{
    dbus::Message::call_with_args(dest, path, iface, member, (app_id, reason))
}

/// Relies on `dbus::Message::call_with_args`: builds a method-call message
/// with the given header strings and a single unsigned 32-bit handle
/// argument.  Callers are held to the known-valid targets, as above.
#[verifier::external_body]
fn message_with_handle(dest: &str, path: &str, iface: &str, member: &str, handle: u32) -> (m:
    dbus::Message)
    requires
        known_bus_target(dest@, path@, iface@, member@),
{
    dbus::Message::call_with_args(dest, path, iface, member, (handle,))
}

/// Relies on `dbus::blocking::Connection::new_session`: opens a private
/// connection to the session bus.  Whether it succeeds depends on the
/// environment; a failure is returned as the bus error's text.
#[verifier::external_body]
pub(crate) fn bus_connect() -> (r: Result<dbus::blocking::Connection, String>) {
    dbus::blocking::Connection::new_session().map_err(|e| e.to_string())
}

/// Relies on `BlockingSender::send_with_reply_and_block`: sends one method
/// call over the connection and waits up to `timeout_ms` for its reply.
/// Whether a reply comes, and what it holds, depends on the bus; a failure
/// or timeout is returned as the bus error's text.
#[verifier::external_body]
pub(crate) fn bus_send(conn: &dbus::blocking::Connection, msg: dbus::Message, timeout_ms: u64) -> (r:
    Result<dbus::Message, String>) {
    conn.send_with_reply_and_block(msg, std::time::Duration::from_millis(timeout_ms)).map_err(
        |e| e.to_string(),
    )
}

/// Relies on `dbus::Message::get1::<u32>`: the first argument of the
/// message, if one is present and carries an unsigned 32-bit value.
#[verifier::external_body]
pub(crate) fn reply_first_u32(msg: &dbus::Message) -> (r: Option<u32>) {
    msg.get1::<u32>()
}

/// Renders a bus call into a wire message, one plain field at a time.  The
/// message itself is opaque; which content goes in is pinned down by the
/// contracts of the call builders.
pub fn to_message(c: &BusCall) -> (m: dbus::Message)
    requires
        known_bus_target(c.destination@, c.path@, c.interface@, c.member@),
{
    match &c.args {
        BusArgs::InhibitDetailed { app_id, toplevel_xid, reason, flags } => message_inhibit_detailed(
            c.destination.as_str(),
            c.path.as_str(),
            c.interface.as_str(),
            c.member.as_str(),
            app_id.as_str(),
            *toplevel_xid,
            reason.as_str(),
            *flags,
        ),
        BusArgs::InhibitSimple { app_id, reason } => message_inhibit_simple(
            c.destination.as_str(),
            c.path.as_str(),
            c.interface.as_str(),
            c.member.as_str(),
            app_id.as_str(),
            reason.as_str(),
        ),
        BusArgs::Handle { handle } => message_with_handle(
            c.destination.as_str(),
            c.path.as_str(),
            c.interface.as_str(),
            c.member.as_str(),
            *handle,
        ),
    }
}

/// Builds the wire message of the inhibit call for `nosleep_type` on `api`.
pub fn inhibit_msg(api: &DBusAPI, nosleep_type: &NoSleepType) -> (m: dbus::Message) {
    let c = inhibit_call(api, nosleep_type);
    to_message(&c)
}

/// Builds the wire message of the uninhibit call releasing `handle` on
/// `api`.
pub fn uninhibit_msg(api: &DBusAPI, handle: u32) -> (m: dbus::Message) {
    let c = uninhibit_call(api, handle);
    to_message(&c)
}

/// Decides the outcome of an inhibit call from the first value of its
/// reply: the granted handle, or a malformed-reply error.
pub fn handle_of_reply(reply: Option<u32>) -> (r: Result<u32, NoSleepError>)
    ensures
        reply matches Some(h) ==> (r matches Ok(g) && g == h),
        reply is None ==> (r matches Err(e) && e is PreventSleep),
{
    match reply {
        Some(handle) => Ok(handle),
        None => Err(
            NoSleepError::PreventSleep { reason: "Invalid message or type".to_owned() },
        ),
    }
}

/// Acquires one lock over the bus: sends the inhibit call for
/// `nosleep_type` on `api` and reads the granted handle from the reply.
/// Whether the facility grants the lock depends on the bus; every failure
/// surfaces as an acquire error.
pub(crate) fn bus_inhibit(
    conn: &dbus::blocking::Connection,
    api: &DBusAPI,
    nosleep_type: &NoSleepType,
) -> (r: Result<u32, NoSleepError>)
    ensures
        (r matches Err(e) ==> e is PreventSleep),
{
    let msg = inhibit_msg(api, nosleep_type);
    match bus_send(conn, msg, CALL_TIMEOUT_MS) {
        Ok(reply) => handle_of_reply(reply_first_u32(&reply)),
        Err(reason) => Err(NoSleepError::PreventSleep { reason }),
    }
}

/// Releases one lock over the bus: sends the uninhibit call for `handle` on
/// `api`.  Every failure surfaces as a release error.
pub(crate) fn bus_uninhibit(
    conn: &dbus::blocking::Connection,
    api: &DBusAPI,
    handle: u32,
) -> (r: Result<(), NoSleepError>)
    ensures
        (r matches Err(e) ==> e is StopLock),
{
    let msg = uninhibit_msg(api, handle);
    match bus_send(conn, msg, CALL_TIMEOUT_MS) {
        Ok(_) => Ok(()),
        Err(reason) => Err(NoSleepError::StopLock { reason }),
    }
}

} // verus!
