//! The state of one handle: a closed set of lifecycle phases, each with what
//! it owns.
use vstd::prelude::*;
use crate::connected::Connected;
use crate::settings::{
    ApiOptions,
    ConnectionSettings,
    KeySettings,
    SocketOptions,
    StreamId,
};

verus! {

/// The lifecycle state of a handle. The transport engine's objects are type
/// parameters, opaque here: `S` an established session, `L` a listener, `R`
/// the receiving end of the channel on which a listener's accept loop hands
/// over new connections, `T` a background task, `H` the hook for inbound
/// connections.
#[derive(Debug)]
pub enum SocketData<S, L, R, T, H> {
    /// Configured, not yet connecting: the options for the connection to come,
    /// the stream identifier to open it with, and the API flags.
    Initialized(SocketOptions, Option<StreamId>, ApiOptions<H>),
    /// A connection attempt runs in the background.
    ConnectingNonBlocking(T, ApiOptions<H>),
    /// A live session.
    Established(Connected<S>, ApiOptions<H>),
    /// Bound and accepting: the listener, the receiving end of the hand-over
    /// channel unless an `accept` holds it just now, and the accept loop.
    Listening(L, Option<R>, T, ApiOptions<H>),
    /// A background connection attempt failed, with this cause.
    ConnectFailed(String),
    /// An inbound connection whose handshake is not complete; the hook may
    /// leave key material for it here.
    Accepting(Option<KeySettings>),
    /// Stands in while a transition takes the old state apart. No operation
    /// leaves it behind.
    InvalidIntermediateState,
    /// Terminated.
    Closed,
}

impl<S, L, R, T, H> SocketData<S, L, R, T, H> {
    /// The state of a fresh handle.
    pub open spec fn fresh() -> Self {
        SocketData::Initialized(SocketOptions::default_spec(), None, ApiOptions::default_spec())
    }

    /// Whether this is a state that an observer between two operations may
    /// see: any but the stand-in.
    pub open spec fn observable(self) -> bool {
        !(self is InvalidIntermediateState)
    }

    /// What every operation keeps of a handle's state, from `self` before it
    /// to `after` it: the stand-in is never left behind, and a closed handle
    /// stays closed.
    pub open spec fn steps_to(self, after: Self) -> bool {
        &&& self.observable() ==> after.observable()
        &&& self is Closed ==> after is Closed
    }

    /// The API flags, in the phases that have them.
    pub open spec fn api_opts_spec(self) -> Option<ApiOptions<H>> {
        match self {
            SocketData::Initialized(_, _, opts) => Some(opts),
            SocketData::ConnectingNonBlocking(_, opts) => Some(opts),
            SocketData::Established(_, opts) => Some(opts),
            SocketData::Listening(_, _, _, opts) => Some(opts),
            _ => None,
        }
    }

    /// The options for the connection to come, while there is none yet.
    pub open spec fn sock_opts_spec(self) -> Option<SocketOptions> {
        match self {
            SocketData::Initialized(opts, _, _) => Some(opts),
            _ => None,
        }
    }

    /// The settings of the live session, while there is one.
    pub open spec fn conn_settings_spec(self) -> Option<ConnectionSettings> {
        match self {
            SocketData::Established(session, _) => Some(session.settings_spec()),
            _ => None,
        }
    }

    /// This state with other API flags, in the phases that have them.
    pub open spec fn with_api_opts(self, api: ApiOptions<H>) -> Self {
        match self {
            SocketData::Initialized(so, sid, _) => SocketData::Initialized(so, sid, api),
            SocketData::ConnectingNonBlocking(t, _) => SocketData::ConnectingNonBlocking(t, api),
            SocketData::Established(s, _) => SocketData::Established(s, api),
            SocketData::Listening(l, r, t, _) => SocketData::Listening(l, r, t, api),
            other => other,
        }
    }

    /// This state with other options for the connection to come, while there
    /// is none yet.
    pub open spec fn with_sock_opts(self, so: SocketOptions) -> Self {
        match self {
            SocketData::Initialized(_, sid, api) => SocketData::Initialized(so, sid, api),
            other => other,
        }
    }

    /// A fresh handle's state: default options, no stream identifier, default
    /// flags.
    pub fn new() -> (r: Self)
        ensures
            r == Self::fresh(),
    {
        SocketData::Initialized(SocketOptions::default(), None, ApiOptions::default())
    }

    pub fn api_opts(&self) -> (r: Option<&ApiOptions<H>>)
        ensures
            r is Some <==> self.api_opts_spec() is Some,
            r matches Some(opts) ==> Some(*opts) == self.api_opts_spec(),
    {
        match self {
            SocketData::Initialized(_, _, opts)
            | SocketData::ConnectingNonBlocking(_, opts)
            | SocketData::Established(_, opts)
            | SocketData::Listening(_, _, _, opts) => Some(opts),
            _ => None,
        }
    }

    pub fn sock_opts(&self) -> (r: Option<&SocketOptions>)
        ensures
            r is Some <==> self.sock_opts_spec() is Some,
            r matches Some(opts) ==> Some(*opts) == self.sock_opts_spec(),
    {
        if let SocketData::Initialized(opts, _, _) = self {
            Some(opts)
        } else {
            None
        }
    }

    pub fn conn_settings(&self) -> (r: Option<&ConnectionSettings>)
        ensures
            r is Some <==> self.conn_settings_spec() is Some,
            r matches Some(settings) ==> Some(*settings) == self.conn_settings_spec(),
    {
        if let SocketData::Established(session, _) = self {
            Some(session.settings())
        } else {
            None
        }
    }

    /// Both sets of options at once, to change them in place: what the caller
    /// leaves in them is what the state then holds, and nothing else changes.
    pub fn opts_mut(&mut self) -> (r: (Option<&mut ApiOptions<H>>, Option<&mut SocketOptions>))
        ensures
            r.0 is Some <==> old(self).api_opts_spec() is Some,
            r.1 is Some <==> old(self).sock_opts_spec() is Some,
            r.0 matches Some(api) ==> Some(*api) == old(self).api_opts_spec(),
            r.1 matches Some(so) ==> Some(*so) == old(self).sock_opts_spec(),
            *final(self) == match r {
                (Some(api), Some(so)) => old(self).with_api_opts(*final(api)).with_sock_opts(
                    *final(so),
                ),
                (Some(api), None) => old(self).with_api_opts(*final(api)),
                (None, Some(so)) => old(self).with_sock_opts(*final(so)),
                (None, None) => *old(self),
            },
    {
        match self {
            SocketData::Initialized(so, _, ai) => (Some(ai), Some(so)),
            SocketData::ConnectingNonBlocking(_, ai) => (Some(ai), None),
            SocketData::Established(_, ai) => (Some(ai), None),
            SocketData::Listening(_, _, _, ai) => (Some(ai), None),
            _ => (None, None),
        }
    }
}

} // verus!
