//! The configuration that a handle carries: what may be set before a
//! connection exists, what an established session reports, and the flags that
//! span the handle's whole life.
use vstd::prelude::*;
use vstd::string::*;
use vstd::utf8::*;

verus! {

/// An opaque integer that names one session or listener.
pub type SRTSOCKET = i32;

/// The handle value that names no socket.
pub const SRT_INVALID_SOCK: SRTSOCKET = -1;

/// Payload size of one packet in live transmission.
pub const SRT_LIVE_DEF_PLSIZE: i32 = 1316;

/// Shortest passphrase, in bytes.
pub const PASSPHRASE_MIN_LEN: usize = 10;

/// Longest passphrase, in bytes.
pub const PASSPHRASE_MAX_LEN: usize = 79;

/// Longest stream identifier, in bytes.
pub const STREAM_ID_MAX_LEN: usize = 512;

/// Connect timeout of a fresh handle, in milliseconds.
pub const DEFAULT_CONNECT_TIMEOUT_MS: u64 = 3000;

/// Receive and peer latency of a fresh handle, in milliseconds.
pub const DEFAULT_LATENCY_MS: u64 = 120;

/// Overhead, in percent, that an estimated input rate gets when none was set.
pub const DEFAULT_OVERHEAD_PERCENT: u64 = 25;

/// An internet socket address as plain numbers: the IP address as one
/// big-endian integer, and the port.
#[derive(Clone, Copy, Debug, PartialEq, Eq, Structural)]
pub enum SockAddr {
    V4 { ip: u32, port: u16 },
    V6 { ip6: u128, port: u16, flowinfo: u32, scope_id: u32 },
}

impl SockAddr {
    /// The IPv4 wildcard address with port zero: "any interface, any port".
    pub open spec fn unspecified_spec() -> SockAddr {
        SockAddr::V4 { ip: 0, port: 0 }
    }

    pub fn unspecified() -> (r: SockAddr)
        ensures
            r == Self::unspecified_spec(),
    {
        SockAddr::V4 { ip: 0, port: 0 }
    }
}

/// How the sender's bandwidth is bounded. Rates are in bytes per second,
/// overheads in percent.
#[derive(Clone, Copy, Debug, PartialEq, Eq, Structural)]
pub enum LiveBandwidthMode {
    /// A fixed ceiling.
    Max(u64),
    /// A ceiling derived from the measured input rate.
    Input { rate: u64, overhead: u64 },
    /// A ceiling derived from an expected input rate.
    Estimated { expected: u64, overhead: u64 },
    /// No ceiling.
    Unlimited,
}

impl LiveBandwidthMode {
    /// The rate that the mode is built on; zero where there is no ceiling.
    pub open spec fn rate_spec(self) -> u64 {
        match self {
            LiveBandwidthMode::Max(rate) => rate,
            LiveBandwidthMode::Input { rate, .. } => rate,
            LiveBandwidthMode::Estimated { expected, .. } => expected,
            LiveBandwidthMode::Unlimited => 0,
        }
    }

    pub fn rate(self) -> (r: u64)
        ensures
            r == self.rate_spec(),
    {
        match self {
            LiveBandwidthMode::Max(rate) => rate,
            LiveBandwidthMode::Input { rate, .. } => rate,
            LiveBandwidthMode::Estimated { expected, .. } => expected,
            LiveBandwidthMode::Unlimited => 0,
        }
    }

    /// The mode after an expected input rate was set: the overhead of an
    /// earlier estimate stays, any other mode starts from the default overhead.
    pub open spec fn with_expected_spec(self, expected: u64) -> LiveBandwidthMode {
        LiveBandwidthMode::Estimated {
            expected,
            overhead: match self {
                LiveBandwidthMode::Estimated { overhead, .. } => overhead,
                _ => DEFAULT_OVERHEAD_PERCENT,
            },
        }
    }

    pub fn with_expected(self, expected: u64) -> (r: LiveBandwidthMode)
        ensures
            r == self.with_expected_spec(expected),
    {
        let overhead: u64 = match self {
            LiveBandwidthMode::Estimated { overhead, .. } => overhead,
            _ => DEFAULT_OVERHEAD_PERCENT,
        };
        LiveBandwidthMode::Estimated { expected, overhead }
    }
}

/// Length of the encryption key.
#[derive(Clone, Copy, Debug, PartialEq, Eq, Structural)]
pub enum KeySize {
    Unspecified,
    AES128,
    AES192,
    AES256,
}

/// A passphrase from which session keys are derived: between
/// `PASSPHRASE_MIN_LEN` and `PASSPHRASE_MAX_LEN` bytes of UTF-8 text.
#[derive(Debug)]
pub struct Passphrase(String);

impl Passphrase {
    #[verifier::type_invariant]
    spec fn well_formed(self) -> bool {
        Self::acceptable(self.0@)
    }

    /// Whether a text has a passphrase's length.
    pub open spec fn acceptable(text: Seq<char>) -> bool {
        PASSPHRASE_MIN_LEN <= encode_utf8(text).len() <= PASSPHRASE_MAX_LEN
    }

    /// The passphrase's text.
    pub closed spec fn view(&self) -> Seq<char> {
        self.0@
    }

    /// Accepts a text of the right length, and no other.
    pub fn try_new(text: String) -> (r: Option<Passphrase>)
        ensures
            r is Some <==> Self::acceptable(text@),
            r matches Some(p) ==> p@ == text@,
    {
        let n = text.as_str().as_bytes().len();
        if PASSPHRASE_MIN_LEN <= n && n <= PASSPHRASE_MAX_LEN {
            Some(Passphrase(text))
        } else {
            None
        }
    }

    pub fn as_str(&self) -> (r: &str)
        ensures
            r@ == self@,
            Self::acceptable(self@),
    {
        proof {
            use_type_invariant(self);
        }
        self.0.as_str()
    }
}

impl Clone for Passphrase {
    fn clone(&self) -> (r: Self)
        ensures
            r == *self,
    {
        proof {
            use_type_invariant(self);
        }
        Passphrase(self.0.clone())
    }
}

/// A stream identifier that a caller hands to the listener it connects to: at
/// most `STREAM_ID_MAX_LEN` bytes of UTF-8 text.
#[derive(Debug)]
pub struct StreamId(String);

impl StreamId {
    #[verifier::type_invariant]
    spec fn well_formed(self) -> bool {
        Self::acceptable(self.0@)
    }

    /// Whether a text is short enough for a stream identifier.
    pub open spec fn acceptable(text: Seq<char>) -> bool {
        encode_utf8(text).len() <= STREAM_ID_MAX_LEN
    }

    /// The identifier's text.
    pub closed spec fn view(&self) -> Seq<char> {
        self.0@
    }

    /// Accepts a text that is short enough, and no other.
    pub fn try_new(text: String) -> (r: Option<StreamId>)
        ensures
            r is Some <==> Self::acceptable(text@),
            r matches Some(id) ==> id@ == text@,
    {
        if text.as_str().as_bytes().len() <= STREAM_ID_MAX_LEN {
            Some(StreamId(text))
        } else {
            None
        }
    }

    pub fn as_str(&self) -> (r: &str)
        ensures
            r@ == self@,
            Self::acceptable(self@),
    {
        proof {
            use_type_invariant(self);
        }
        self.0.as_str()
    }
}

impl Clone for StreamId {
    fn clone(&self) -> (r: Self)
        ensures
            r == *self,
    {
        proof {
            use_type_invariant(self);
        }
        StreamId(self.0.clone())
    }
}

/// Key material for one inbound connection.
#[derive(Debug)]
pub struct KeySettings {
    pub key_size: KeySize,
    pub passphrase: Passphrase,
}

/// What can be configured on a handle before it connects or listens.
/// Durations are in milliseconds.
#[derive(Debug)]
pub struct SocketOptions {
    /// The local address to bind to.
    pub local: SockAddr,
    /// How long a connection attempt may take.
    pub connect_timeout: u64,
    /// The passphrase of an outbound connection, if it is to be encrypted.
    pub passphrase: Option<Passphrase>,
    /// How long the receiver holds a packet back to absorb retransmissions.
    pub receive_latency: u64,
    /// The least latency that the peer's receiver is asked to keep.
    pub peer_latency: u64,
    /// The bound on the sender's bandwidth.
    pub bandwidth: LiveBandwidthMode,
}

impl SocketOptions {
    /// The options of a fresh handle.
    pub open spec fn default_spec() -> SocketOptions {
        SocketOptions {
            local: SockAddr::unspecified_spec(),
            connect_timeout: DEFAULT_CONNECT_TIMEOUT_MS,
            passphrase: None,
            receive_latency: DEFAULT_LATENCY_MS,
            peer_latency: DEFAULT_LATENCY_MS,
            bandwidth: LiveBandwidthMode::Unlimited,
        }
    }
}

impl Default for SocketOptions {
    fn default() -> (r: Self)
        ensures
            r == SocketOptions::default_spec(),
    {
        SocketOptions {
            local: SockAddr::unspecified(),
            connect_timeout: DEFAULT_CONNECT_TIMEOUT_MS,
            passphrase: None,
            receive_latency: DEFAULT_LATENCY_MS,
            peer_latency: DEFAULT_LATENCY_MS,
            bandwidth: LiveBandwidthMode::Unlimited,
        }
    }
}

impl Clone for SocketOptions {
    fn clone(&self) -> (r: Self)
        ensures
            r == *self,
    {
        SocketOptions {
            local: self.local,
            connect_timeout: self.connect_timeout,
            passphrase: match &self.passphrase {
                Some(p) => Some(p.clone()),
                None => None,
            },
            receive_latency: self.receive_latency,
            peer_latency: self.peer_latency,
            bandwidth: self.bandwidth,
        }
    }
}

/// The settings that an established session runs with: a snapshot, fixed when
/// the handshake completes. Durations are in milliseconds.
#[derive(Debug)]
pub struct ConnectionSettings {
    /// The latency that this side's receiver keeps.
    pub recv_tsbpd_latency: u64,
    /// The latency that the peer's receiver keeps.
    pub send_tsbpd_latency: u64,
    /// The bound on the sender's bandwidth.
    pub bandwidth: LiveBandwidthMode,
    /// The stream identifier that the connection was opened with.
    pub stream_id: Option<String>,
}

/// The flags that stay with a handle through its whole life, independent of
/// the transport session. `H` is the hook that decides on inbound
/// connections, together with whatever context it needs.
#[derive(Debug)]
pub struct ApiOptions<H> {
    /// Whether sending blocks.
    pub snd_syn: bool,
    /// Whether receiving, connecting and accepting block.
    pub rcv_syn: bool,
    /// The hook consulted for each inbound connection, if one is installed.
    pub listen_cb: Option<H>,
}

impl<H> ApiOptions<H> {
    /// The flags of a fresh handle: blocking both ways, no hook.
    pub open spec fn default_spec() -> ApiOptions<H> {
        ApiOptions { snd_syn: true, rcv_syn: true, listen_cb: None }
    }
}

impl<H: Copy> Clone for ApiOptions<H> {
    fn clone(&self) -> (r: Self)
        ensures
            r == *self,
    {
        ApiOptions { snd_syn: self.snd_syn, rcv_syn: self.rcv_syn, listen_cb: self.listen_cb }
    }
}

impl<H: Copy> Copy for ApiOptions<H> {

}

impl<H> Default for ApiOptions<H> {
    fn default() -> (r: Self)
        ensures
            r == ApiOptions::<H>::default_spec(),
    {
        ApiOptions { snd_syn: true, rcv_syn: true, listen_cb: None }
    }
}

} // verus!
