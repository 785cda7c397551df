//! A connected transport and the settings it was connected with, held
//! together until the two halves of the connection are built from them.
use vstd::prelude::*;
use crate::settings::ConnectionSettings;

verus! {

/// A connected transport together with the settings it was connected with.
#[derive(Debug)]
pub struct Connected<T> {
    socket: T,
    settings: ConnectionSettings,
}

impl<T> Connected<T> {
    /// The transport.
    pub closed spec fn socket_spec(self) -> T {
        self.socket
    }

    /// The settings snapshot.
    pub closed spec fn settings_spec(self) -> ConnectionSettings {
        self.settings
    }

    pub fn new(socket: T, settings: ConnectionSettings) -> (r: Connected<T>)
        ensures
            r.socket_spec() == socket,
            r.settings_spec() == settings,
    {
        Connected { socket, settings }
    }

    pub fn settings(&self) -> (r: &ConnectionSettings)
        ensures
            *r == self.settings_spec(),
    {
        &self.settings
    }

    pub fn socket(&self) -> (r: &T)
        ensures
            *r == self.socket_spec(),
    {
        &self.socket
    }

    /// The transport, to drive it; the settings stay as they are.
    pub fn socket_mut(&mut self) -> (r: &mut T)
        ensures
            *r == old(self).socket_spec(),
            final(self).socket_spec() == *final(r),
            final(self).settings_spec() == old(self).settings_spec(),
    {
        &mut self.socket
    }

    /// The receiving half: what `make` builds of the transport and its
    /// settings.
    pub fn receiver<R, F>(self, make: F) -> (r: R) where F: FnOnce(T, ConnectionSettings) -> R
        requires
            make.requires((self.socket_spec(), self.settings_spec())),
        ensures
            make.ensures((self.socket_spec(), self.settings_spec()), r),
    {
        make(self.socket, self.settings)
    }

    /// The sending half: what `make` builds of the transport, a congestion
    /// control and the settings.
    pub fn sender<C, R, F>(self, congestion_ctrl: C, make: F) -> (r: R) where
        F: FnOnce(T, C, ConnectionSettings) -> R,

        requires
            make.requires((self.socket_spec(), congestion_ctrl, self.settings_spec())),
        ensures
            make.ensures((self.socket_spec(), congestion_ctrl, self.settings_spec()), r),
    {
        make(self.socket, congestion_ctrl, self.settings)
    }

    /// Takes the pair apart.
    pub fn into_parts(self) -> (r: (T, ConnectionSettings))
        ensures
            r.0 == self.socket_spec(),
            r.1 == self.settings_spec(),
    {
        (self.socket, self.settings)
    }
}

} // verus!
