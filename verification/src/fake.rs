//! A deterministic scripted backend.
//!
//! The controller's state machine holds for any backend; this one makes its
//! behaviour fully observable.  Each facility either always grants a fixed
//! handle or always refuses, releases either always succeed or always fail,
//! and every release attempt is recorded in order, so a caller can check
//! that a token really was released.

use vstd::prelude::*;

use crate::bus_call::DBusAPI;

verus! {

/// A backend whose outcomes are scripted per facility.
#[derive(Debug)]
pub struct FakeBackend {
    /// What an inhibit call on the session manager returns.
    pub gnome: Option<u32>,
    /// What an inhibit call on the screen-saver facility returns.
    pub screen_saver: Option<u32>,
    /// What an inhibit call on the power-management facility returns.
    pub power: Option<u32>,
    /// Whether release calls succeed.
    pub release_ok: bool,
    /// Every handle a release was attempted on, in order.
    pub released: Vec<u32>,
}

impl FakeBackend {
    /// The handle an inhibit call on `api` is scripted to grant, if any.
    pub open spec fn grant(self, api: DBusAPI) -> Option<u32> {
        match api {
            DBusAPI::GnomeApi => self.gnome,
            DBusAPI::FreeDesktopScreenSaverAPI => self.screen_saver,
            DBusAPI::FreeDesktopPowerApi => self.power,
        }
    }

    /// `self` and `other` run the same script; only the release ledger may
    /// differ.
    pub open spec fn same_script(self, other: FakeBackend) -> bool {
        &&& self.gnome == other.gnome
        &&& self.screen_saver == other.screen_saver
        &&& self.power == other.power
        &&& self.release_ok == other.release_ok
    }

    /// A backend that grants the given handle on every facility and
    /// releases cleanly.
    pub fn granting(handle: u32) -> (f: FakeBackend)
        ensures
            f.gnome == Some(handle),
            f.screen_saver == Some(handle),
            f.power == Some(handle),
            f.release_ok,
            f.released@ == Seq::<u32>::empty(),
    {
        FakeBackend {
            gnome: Some(handle),
            screen_saver: Some(handle),
            power: Some(handle),
            release_ok: true,
            released: Vec::new(),
        }
    }

    /// A backend that refuses every inhibit call.
    pub fn refusing() -> (f: FakeBackend)
        ensures
            f.gnome is None,
            f.screen_saver is None,
            f.power is None,
            f.release_ok,
            f.released@ == Seq::<u32>::empty(),
    {
        FakeBackend {
            gnome: None,
            screen_saver: None,
            power: None,
            release_ok: true,
            released: Vec::new(),
        }
    }

    /// One acquire attempt on `api`: the scripted outcome.
    pub fn acquire(&self, api: &DBusAPI) -> (r: Option<u32>)
        ensures
            r == self.grant(*api),
    {
        match api {
            DBusAPI::GnomeApi => self.gnome,
            DBusAPI::FreeDesktopScreenSaverAPI => self.screen_saver,
            DBusAPI::FreeDesktopPowerApi => self.power,
        }
    }

    /// One release attempt on `handle`: the attempt is recorded, and the
    /// scripted outcome reported.
    pub fn release(&mut self, handle: u32) -> (r: bool)
        ensures
            final(self).same_script(*old(self)),
            final(self).released@ == old(self).released@.push(handle),
            r == old(self).release_ok,
    {
        self.released.push(handle);
        self.release_ok
    }
}

} // verus!
