//! Option identifiers, and the rules by which an option is set on and read
//! from a handle: which value kind an identifier has, which record holds it,
//! and in which lifecycle phases.
use vstd::prelude::*;
use vstd::string::*;
use vstd::utf8::*;
use crate::codec::{
    buffer,
    extract_bool,
    extract_bool_spec,
    extract_i64,
    extract_i64_spec,
    extract_int,
    extract_int_spec,
    extract_str,
    extract_str_spec,
    reinterpret_i64,
    reinterpret_u64,
    signed64,
    truncate_i32,
    truncate_i32_spec,
    unsigned64,
    ByteOrder,
    OptValue,
    Val,
};
use crate::errors::{OptionError, SRT_ERRNO};
use crate::settings::{
    ApiOptions,
    KeySettings,
    KeySize,
    Passphrase,
    SocketOptions,
    StreamId,
};
use crate::socket::SocketData;

verus! {

/// The option identifiers of the socket API.
#[derive(Clone, Copy, Debug, PartialEq, Eq, Structural)]
pub enum SRT_SOCKOPT {
    /// The maximum transfer unit.
    SRTO_MSS,
    /// Whether sending blocks.
    SRTO_SNDSYN,
    /// Whether receiving blocks.
    SRTO_RCVSYN,
    /// Initial sequence number.
    SRTO_ISN,
    /// Flight flag size (window size).
    SRTO_FC,
    /// Maximum buffer in the sending queue.
    SRTO_SNDBUF,
    /// Receiving buffer size.
    SRTO_RCVBUF,
    /// Waiting for unsent data when closing.
    SRTO_LINGER,
    /// UDP sending buffer size.
    SRTO_UDP_SNDBUF,
    /// UDP receiving buffer size.
    SRTO_UDP_RCVBUF,
    /// Rendezvous connection mode.
    SRTO_RENDEZVOUS,
    /// Send timeout.
    SRTO_SNDTIMEO,
    /// Receive timeout.
    SRTO_RCVTIMEO,
    /// Reuse an existing port or create a new one.
    SRTO_REUSEADDR,
    /// Maximum bandwidth, in bytes per second, that the connection can use.
    SRTO_MAXBW,
    /// Current socket state, read only.
    SRTO_STATE,
    /// Current available events associated with the socket.
    SRTO_EVENT,
    /// Size of data in the sending buffer.
    SRTO_SNDDATA,
    /// Size of data available for receiving.
    SRTO_RCVDATA,
    /// Sender mode.
    SRTO_SENDER,
    /// Timestamp-based packet delivery.
    SRTO_TSBPDMODE,
    /// Both latencies at once.
    SRTO_LATENCY,
    /// Estimated input stream rate.
    SRTO_INPUTBW,
    /// Bandwidth ceiling as a percentage over the input stream rate.
    SRTO_OHEADBW,
    /// Passphrase for key derivation.
    SRTO_PASSPHRASE,
    /// Key length in bytes.
    SRTO_PBKEYLEN,
    /// Key material exchange status.
    SRTO_KMSTATE,
    /// IP time to live.
    SRTO_IPTTL,
    /// IP type of service.
    SRTO_IPTOS,
    /// Receiver drops packets that are too late.
    SRTO_TLPKTDROP,
    /// Extra delay before the sender drops a packet.
    SRTO_SNDDROPDELAY,
    /// Receiver sends periodic loss reports.
    SRTO_NAKREPORT,
    /// Local protocol version.
    SRTO_VERSION,
    /// Peer protocol version.
    SRTO_PEERVERSION,
    /// Connect timeout in milliseconds.
    SRTO_CONNTIMEO,
    /// Drift tracer.
    SRTO_DRIFTTRACER,
    /// Minimum estimate of the input stream rate.
    SRTO_MININPUTBW,
    /// State of the encryption at the peer side.
    SRTO_SNDKMSTATE,
    /// State of the encryption at the agent side.
    SRTO_RCVKMSTATE,
    /// Maximum packet reorder tolerance.
    SRTO_LOSSMAXTTL,
    /// Receiver delay, in milliseconds, to absorb retransmissions.
    SRTO_RCVLATENCY,
    /// Minimum receiver delay, in milliseconds, asked of the peer.
    SRTO_PEERLATENCY,
    /// Minimum protocol version required of the peer.
    SRTO_MINVERSION,
    /// Text handed to the listener's accepted socket.
    SRTO_STREAMID,
    /// Congestion controller type.
    SRTO_CONGESTION,
    /// Message API in file mode.
    SRTO_MESSAGEAPI,
    /// Maximum payload size of one packet.
    SRTO_PAYLOADSIZE,
    /// Transmission type.
    SRTO_TRANSTYPE,
    /// Packets sent before the encryption key is changed.
    SRTO_KMREFRESHRATE,
    /// Packets before a key change at which the new key is announced.
    SRTO_KMPREANNOUNCE,
    /// Reject connections whose encryption settings differ.
    SRTO_ENFORCEDENCRYPTION,
    /// IPv6 only.
    SRTO_IPV6ONLY,
    /// Peer idle timeout in milliseconds.
    SRTO_PEERIDLETIMEO,
    /// Bind to a network device.
    SRTO_BINDTODEVICE,
    /// Packet filter configuration.
    SRTO_PACKETFILTER,
    /// Packet retransmission algorithm.
    SRTO_RETRANSMITALGO,
    /// One past the last option; not an option itself.
    SRTO_E_SIZE,
}

impl SRT_SOCKOPT {
    /// The number that stands for this identifier at the foreign boundary.
    pub open spec fn code_spec(self) -> int {
        match self {
            SRT_SOCKOPT::SRTO_MSS => 0,
            SRT_SOCKOPT::SRTO_SNDSYN => 1,
            SRT_SOCKOPT::SRTO_RCVSYN => 2,
            SRT_SOCKOPT::SRTO_ISN => 3,
            SRT_SOCKOPT::SRTO_FC => 4,
            SRT_SOCKOPT::SRTO_SNDBUF => 5,
            SRT_SOCKOPT::SRTO_RCVBUF => 6,
            SRT_SOCKOPT::SRTO_LINGER => 7,
            SRT_SOCKOPT::SRTO_UDP_SNDBUF => 8,
            SRT_SOCKOPT::SRTO_UDP_RCVBUF => 9,
            SRT_SOCKOPT::SRTO_RENDEZVOUS => 12,
            SRT_SOCKOPT::SRTO_SNDTIMEO => 13,
            SRT_SOCKOPT::SRTO_RCVTIMEO => 14,
            SRT_SOCKOPT::SRTO_REUSEADDR => 15,
            SRT_SOCKOPT::SRTO_MAXBW => 16,
            SRT_SOCKOPT::SRTO_STATE => 17,
            SRT_SOCKOPT::SRTO_EVENT => 18,
            SRT_SOCKOPT::SRTO_SNDDATA => 19,
            SRT_SOCKOPT::SRTO_RCVDATA => 20,
            SRT_SOCKOPT::SRTO_SENDER => 21,
            SRT_SOCKOPT::SRTO_TSBPDMODE => 22,
            SRT_SOCKOPT::SRTO_LATENCY => 23,
            SRT_SOCKOPT::SRTO_INPUTBW => 24,
            SRT_SOCKOPT::SRTO_OHEADBW => 25,
            SRT_SOCKOPT::SRTO_PASSPHRASE => 26,
            SRT_SOCKOPT::SRTO_PBKEYLEN => 27,
            SRT_SOCKOPT::SRTO_KMSTATE => 28,
            SRT_SOCKOPT::SRTO_IPTTL => 29,
            SRT_SOCKOPT::SRTO_IPTOS => 30,
            SRT_SOCKOPT::SRTO_TLPKTDROP => 31,
            SRT_SOCKOPT::SRTO_SNDDROPDELAY => 32,
            SRT_SOCKOPT::SRTO_NAKREPORT => 33,
            SRT_SOCKOPT::SRTO_VERSION => 34,
            SRT_SOCKOPT::SRTO_PEERVERSION => 35,
            SRT_SOCKOPT::SRTO_CONNTIMEO => 36,
            SRT_SOCKOPT::SRTO_DRIFTTRACER => 37,
            SRT_SOCKOPT::SRTO_MININPUTBW => 38,
            SRT_SOCKOPT::SRTO_SNDKMSTATE => 40,
            SRT_SOCKOPT::SRTO_RCVKMSTATE => 41,
            SRT_SOCKOPT::SRTO_LOSSMAXTTL => 42,
            SRT_SOCKOPT::SRTO_RCVLATENCY => 43,
            SRT_SOCKOPT::SRTO_PEERLATENCY => 44,
            SRT_SOCKOPT::SRTO_MINVERSION => 45,
            SRT_SOCKOPT::SRTO_STREAMID => 46,
            SRT_SOCKOPT::SRTO_CONGESTION => 47,
            SRT_SOCKOPT::SRTO_MESSAGEAPI => 48,
            SRT_SOCKOPT::SRTO_PAYLOADSIZE => 49,
            SRT_SOCKOPT::SRTO_TRANSTYPE => 50,
            SRT_SOCKOPT::SRTO_KMREFRESHRATE => 51,
            SRT_SOCKOPT::SRTO_KMPREANNOUNCE => 52,
            SRT_SOCKOPT::SRTO_ENFORCEDENCRYPTION => 53,
            SRT_SOCKOPT::SRTO_IPV6ONLY => 54,
            SRT_SOCKOPT::SRTO_PEERIDLETIMEO => 55,
            SRT_SOCKOPT::SRTO_BINDTODEVICE => 56,
            SRT_SOCKOPT::SRTO_PACKETFILTER => 60,
            SRT_SOCKOPT::SRTO_RETRANSMITALGO => 61,
            SRT_SOCKOPT::SRTO_E_SIZE => 62,
        }
    }

    pub fn code(self) -> (r: i32)
        ensures
            r == self.code_spec(),
    {
        match self {
            SRT_SOCKOPT::SRTO_MSS => 0,
            SRT_SOCKOPT::SRTO_SNDSYN => 1,
            SRT_SOCKOPT::SRTO_RCVSYN => 2,
            SRT_SOCKOPT::SRTO_ISN => 3,
            SRT_SOCKOPT::SRTO_FC => 4,
            SRT_SOCKOPT::SRTO_SNDBUF => 5,
            SRT_SOCKOPT::SRTO_RCVBUF => 6,
            SRT_SOCKOPT::SRTO_LINGER => 7,
            SRT_SOCKOPT::SRTO_UDP_SNDBUF => 8,
            SRT_SOCKOPT::SRTO_UDP_RCVBUF => 9,
            SRT_SOCKOPT::SRTO_RENDEZVOUS => 12,
            SRT_SOCKOPT::SRTO_SNDTIMEO => 13,
            SRT_SOCKOPT::SRTO_RCVTIMEO => 14,
            SRT_SOCKOPT::SRTO_REUSEADDR => 15,
            SRT_SOCKOPT::SRTO_MAXBW => 16,
            SRT_SOCKOPT::SRTO_STATE => 17,
            SRT_SOCKOPT::SRTO_EVENT => 18,
            SRT_SOCKOPT::SRTO_SNDDATA => 19,
            SRT_SOCKOPT::SRTO_RCVDATA => 20,
            SRT_SOCKOPT::SRTO_SENDER => 21,
            SRT_SOCKOPT::SRTO_TSBPDMODE => 22,
            SRT_SOCKOPT::SRTO_LATENCY => 23,
            SRT_SOCKOPT::SRTO_INPUTBW => 24,
            SRT_SOCKOPT::SRTO_OHEADBW => 25,
            SRT_SOCKOPT::SRTO_PASSPHRASE => 26,
            SRT_SOCKOPT::SRTO_PBKEYLEN => 27,
            SRT_SOCKOPT::SRTO_KMSTATE => 28,
            SRT_SOCKOPT::SRTO_IPTTL => 29,
            SRT_SOCKOPT::SRTO_IPTOS => 30,
            SRT_SOCKOPT::SRTO_TLPKTDROP => 31,
            SRT_SOCKOPT::SRTO_SNDDROPDELAY => 32,
            SRT_SOCKOPT::SRTO_NAKREPORT => 33,
            SRT_SOCKOPT::SRTO_VERSION => 34,
            SRT_SOCKOPT::SRTO_PEERVERSION => 35,
            SRT_SOCKOPT::SRTO_CONNTIMEO => 36,
            SRT_SOCKOPT::SRTO_DRIFTTRACER => 37,
            SRT_SOCKOPT::SRTO_MININPUTBW => 38,
            SRT_SOCKOPT::SRTO_SNDKMSTATE => 40,
            SRT_SOCKOPT::SRTO_RCVKMSTATE => 41,
            SRT_SOCKOPT::SRTO_LOSSMAXTTL => 42,
            SRT_SOCKOPT::SRTO_RCVLATENCY => 43,
            SRT_SOCKOPT::SRTO_PEERLATENCY => 44,
            SRT_SOCKOPT::SRTO_MINVERSION => 45,
            SRT_SOCKOPT::SRTO_STREAMID => 46,
            SRT_SOCKOPT::SRTO_CONGESTION => 47,
            SRT_SOCKOPT::SRTO_MESSAGEAPI => 48,
            SRT_SOCKOPT::SRTO_PAYLOADSIZE => 49,
            SRT_SOCKOPT::SRTO_TRANSTYPE => 50,
            SRT_SOCKOPT::SRTO_KMREFRESHRATE => 51,
            SRT_SOCKOPT::SRTO_KMPREANNOUNCE => 52,
            SRT_SOCKOPT::SRTO_ENFORCEDENCRYPTION => 53,
            SRT_SOCKOPT::SRTO_IPV6ONLY => 54,
            SRT_SOCKOPT::SRTO_PEERIDLETIMEO => 55,
            SRT_SOCKOPT::SRTO_BINDTODEVICE => 56,
            SRT_SOCKOPT::SRTO_PACKETFILTER => 60,
            SRT_SOCKOPT::SRTO_RETRANSMITALGO => 61,
            SRT_SOCKOPT::SRTO_E_SIZE => 62,
        }
    }

    /// The identifier that a number stands for, if any.
    pub fn from_code(code: i32) -> (r: Option<SRT_SOCKOPT>)
        ensures
            match r {
                Some(opt) => opt.code_spec() == code,
                None => forall|opt: SRT_SOCKOPT| opt.code_spec() != code,
            },
    {
        match code {
            0 => Some(SRT_SOCKOPT::SRTO_MSS),
            1 => Some(SRT_SOCKOPT::SRTO_SNDSYN),
            2 => Some(SRT_SOCKOPT::SRTO_RCVSYN),
            3 => Some(SRT_SOCKOPT::SRTO_ISN),
            4 => Some(SRT_SOCKOPT::SRTO_FC),
            5 => Some(SRT_SOCKOPT::SRTO_SNDBUF),
            6 => Some(SRT_SOCKOPT::SRTO_RCVBUF),
            7 => Some(SRT_SOCKOPT::SRTO_LINGER),
            8 => Some(SRT_SOCKOPT::SRTO_UDP_SNDBUF),
            9 => Some(SRT_SOCKOPT::SRTO_UDP_RCVBUF),
            12 => Some(SRT_SOCKOPT::SRTO_RENDEZVOUS),
            13 => Some(SRT_SOCKOPT::SRTO_SNDTIMEO),
            14 => Some(SRT_SOCKOPT::SRTO_RCVTIMEO),
            15 => Some(SRT_SOCKOPT::SRTO_REUSEADDR),
            16 => Some(SRT_SOCKOPT::SRTO_MAXBW),
            17 => Some(SRT_SOCKOPT::SRTO_STATE),
            18 => Some(SRT_SOCKOPT::SRTO_EVENT),
            19 => Some(SRT_SOCKOPT::SRTO_SNDDATA),
            20 => Some(SRT_SOCKOPT::SRTO_RCVDATA),
            21 => Some(SRT_SOCKOPT::SRTO_SENDER),
            22 => Some(SRT_SOCKOPT::SRTO_TSBPDMODE),
            23 => Some(SRT_SOCKOPT::SRTO_LATENCY),
            24 => Some(SRT_SOCKOPT::SRTO_INPUTBW),
            25 => Some(SRT_SOCKOPT::SRTO_OHEADBW),
            26 => Some(SRT_SOCKOPT::SRTO_PASSPHRASE),
            27 => Some(SRT_SOCKOPT::SRTO_PBKEYLEN),
            28 => Some(SRT_SOCKOPT::SRTO_KMSTATE),
            29 => Some(SRT_SOCKOPT::SRTO_IPTTL),
            30 => Some(SRT_SOCKOPT::SRTO_IPTOS),
            31 => Some(SRT_SOCKOPT::SRTO_TLPKTDROP),
            32 => Some(SRT_SOCKOPT::SRTO_SNDDROPDELAY),
            33 => Some(SRT_SOCKOPT::SRTO_NAKREPORT),
            34 => Some(SRT_SOCKOPT::SRTO_VERSION),
            35 => Some(SRT_SOCKOPT::SRTO_PEERVERSION),
            36 => Some(SRT_SOCKOPT::SRTO_CONNTIMEO),
            37 => Some(SRT_SOCKOPT::SRTO_DRIFTTRACER),
            38 => Some(SRT_SOCKOPT::SRTO_MININPUTBW),
            40 => Some(SRT_SOCKOPT::SRTO_SNDKMSTATE),
            41 => Some(SRT_SOCKOPT::SRTO_RCVKMSTATE),
            42 => Some(SRT_SOCKOPT::SRTO_LOSSMAXTTL),
            43 => Some(SRT_SOCKOPT::SRTO_RCVLATENCY),
            44 => Some(SRT_SOCKOPT::SRTO_PEERLATENCY),
            45 => Some(SRT_SOCKOPT::SRTO_MINVERSION),
            46 => Some(SRT_SOCKOPT::SRTO_STREAMID),
            47 => Some(SRT_SOCKOPT::SRTO_CONGESTION),
            48 => Some(SRT_SOCKOPT::SRTO_MESSAGEAPI),
            49 => Some(SRT_SOCKOPT::SRTO_PAYLOADSIZE),
            50 => Some(SRT_SOCKOPT::SRTO_TRANSTYPE),
            51 => Some(SRT_SOCKOPT::SRTO_KMREFRESHRATE),
            52 => Some(SRT_SOCKOPT::SRTO_KMPREANNOUNCE),
            53 => Some(SRT_SOCKOPT::SRTO_ENFORCEDENCRYPTION),
            54 => Some(SRT_SOCKOPT::SRTO_IPV6ONLY),
            55 => Some(SRT_SOCKOPT::SRTO_PEERIDLETIMEO),
            56 => Some(SRT_SOCKOPT::SRTO_BINDTODEVICE),
            60 => Some(SRT_SOCKOPT::SRTO_PACKETFILTER),
            61 => Some(SRT_SOCKOPT::SRTO_RETRANSMITALGO),
            62 => Some(SRT_SOCKOPT::SRTO_E_SIZE),
            _ => None,
        }
    }
}

/// The passphrase that a buffer holds: its text, where the buffer holds text
/// of a passphrase's length.
pub open spec fn passphrase_in(val: Option<Seq<u8>>) -> Option<Seq<char>> {
    match extract_str_spec(val) {
        Some(text) => if Passphrase::acceptable(text) {
            Some(text)
        } else {
            None
        },
        None => None,
    }
}

/// The stream identifier that a buffer holds: its text, where the buffer holds
/// text that is short enough.
pub open spec fn stream_id_in(val: Option<Seq<u8>>) -> Option<Seq<char>> {
    match extract_str_spec(val) {
        Some(text) => if StreamId::acceptable(text) {
            Some(text)
        } else {
            None
        },
        None => None,
    }
}

/// The count of milliseconds that a buffer holds: a 32-bit integer that is
/// not negative.
pub open spec fn millis_in(val: Option<Seq<u8>>, order: ByteOrder) -> Option<u64> {
    match extract_int_spec(val, order) {
        Some(i) => if i >= 0 {
            Some(i as u64)
        } else {
            None
        },
        None => None,
    }
}

/// The key size that goes with a passphrase staged for an inbound connection:
/// the one staged before, if any.
pub open spec fn staged_key_size(params: Option<KeySettings>) -> KeySize {
    match params {
        Some(p) => p.key_size,
        None => KeySize::Unspecified,
    }
}

fn extract_passphrase(val: Option<&[u8]>) -> (r: Option<Passphrase>)
    ensures
        r is Some <==> passphrase_in(buffer(val)) is Some,
        r matches Some(p) ==> Some(p@) == passphrase_in(buffer(val)),
{
    match extract_str(val) {
        Some(text) => Passphrase::try_new(text),
        None => None,
    }
}

fn extract_stream_id(val: Option<&[u8]>) -> (r: Option<StreamId>)
    ensures
        r is Some <==> stream_id_in(buffer(val)) is Some,
        r matches Some(id) ==> Some(id@) == stream_id_in(buffer(val)),
{
    match extract_str(val) {
        Some(text) => StreamId::try_new(text),
        None => None,
    }
}

fn extract_millis(val: Option<&[u8]>, order: ByteOrder) -> (r: Option<u64>)
    ensures
        r == millis_in(buffer(val), order),
{
    match extract_int(val, order) {
        Some(i) => if i >= 0 {
            Some(i as u64)
        } else {
            None
        },
        None => None,
    }
}

/// The request was refused with `e`, and the state is as it was.
pub open spec fn refused<S, L, R, T, H>(
    before: SocketData<S, L, R, T, H>,
    after: SocketData<S, L, R, T, H>,
    r: Result<(), OptionError>,
    e: OptionError,
) -> bool {
    after == before && r == Err::<(), OptionError>(e)
}

/// The request was granted, and the state is `expected`.
pub open spec fn granted<S, L, R, T, H>(
    expected: SocketData<S, L, R, T, H>,
    after: SocketData<S, L, R, T, H>,
    r: Result<(), OptionError>,
) -> bool {
    after == expected && r is Ok
}

/// The refusal of an option that the handle's phase has no place for: flags
/// need API flags, without which the handle counts as not connected; what is
/// configured before a connection needs a handle that is still `Initialized`,
/// after which the handle counts as connected.
pub open spec fn wrong_phase(opt: SRT_SOCKOPT) -> OptionError {
    if opt == SRT_SOCKOPT::SRTO_RCVSYN || opt == SRT_SOCKOPT::SRTO_SNDSYN {
        OptionError::Rejected(SRT_ERRNO::SRT_ENOCONN)
    } else {
        OptionError::Rejected(SRT_ERRNO::SRT_ECONNSOCK)
    }
}

/// What setting option `opt` from the buffer `val` does to a handle in state
/// `before`: the state `after`, and the result `r`.
///
/// The blocking flags can be set wherever the handle has API flags. The
/// stream identifier, the connect timeout, the two latencies, the passphrase
/// and the expected input rate can be set while the handle is `Initialized`;
/// a handle whose inbound handshake is pending takes a passphrase too, staged
/// with the key size staged before. In any other phase these options are
/// refused, with a code that tells of the phase, and never stored or passed
/// over. The sender flag is accepted and ignored, and timestamp-based
/// delivery can only be switched on, which it always is. A value that is
/// missing, of the wrong width, malformed or out of range is an invalid
/// parameter. An identifier that these rules do not name is unimplemented. A
/// request that fails changes nothing.
pub open spec fn setsockflag_spec<S, L, R, T, H>(
    before: SocketData<S, L, R, T, H>,
    opt: SRT_SOCKOPT,
    val: Option<Seq<u8>>,
    order: ByteOrder,
    after: SocketData<S, L, R, T, H>,
    r: Result<(), OptionError>,
) -> bool {
    let invalid = OptionError::Rejected(SRT_ERRNO::SRT_EINVPARAM);
    match opt {
        SRT_SOCKOPT::SRTO_PASSPHRASE => match before {
            SocketData::Accepting(params) => match passphrase_in(val) {
                Some(text) => r is Ok && (after matches SocketData::Accepting(Some(staged))
                    && staged.passphrase@ == text && staged.key_size == staged_key_size(params)),
                None => refused(before, after, r, invalid),
            },
            SocketData::Initialized(so, _, _) => match passphrase_in(val) {
                Some(text) => r is Ok && (after.sock_opts_spec() matches Some(so2)
                    && so2.passphrase matches Some(p) && p@ == text && after
                    == before.with_sock_opts(SocketOptions { passphrase: Some(p), ..so })),
                None => refused(before, after, r, invalid),
            },
            _ => refused(before, after, r, wrong_phase(opt)),
        },
        SRT_SOCKOPT::SRTO_STREAMID => match before {
            SocketData::Initialized(so, _, api) => match stream_id_in(val) {
                Some(text) => r is Ok && (after matches SocketData::Initialized(so2, Some(id), api2)
                    && so2 == so && api2 == api && id@ == text),
                None => refused(before, after, r, invalid),
            },
            _ => refused(before, after, r, wrong_phase(opt)),
        },
        SRT_SOCKOPT::SRTO_SENDER => granted(before, after, r),
        SRT_SOCKOPT::SRTO_TSBPDMODE => if extract_bool_spec(val, order) == Some(true) {
            granted(before, after, r)
        } else {
            refused(before, after, r, invalid)
        },
        SRT_SOCKOPT::SRTO_RCVSYN => match (before.api_opts_spec(), extract_bool_spec(val, order)) {
            (Some(api), Some(b)) => granted(
                before.with_api_opts(ApiOptions { rcv_syn: b, ..api }),
                after,
                r,
            ),
            (Some(_), None) => refused(before, after, r, invalid),
            (None, _) => refused(before, after, r, wrong_phase(opt)),
        },
        SRT_SOCKOPT::SRTO_SNDSYN => match (before.api_opts_spec(), extract_bool_spec(val, order)) {
            (Some(api), Some(b)) => granted(
                before.with_api_opts(ApiOptions { snd_syn: b, ..api }),
                after,
                r,
            ),
            (Some(_), None) => refused(before, after, r, invalid),
            (None, _) => refused(before, after, r, wrong_phase(opt)),
        },
        SRT_SOCKOPT::SRTO_CONNTIMEO => match (before.sock_opts_spec(), millis_in(val, order)) {
            (Some(so), Some(ms)) => granted(
                before.with_sock_opts(SocketOptions { connect_timeout: ms, ..so }),
                after,
                r,
            ),
            (Some(_), None) => refused(before, after, r, invalid),
            (None, _) => refused(before, after, r, wrong_phase(opt)),
        },
        SRT_SOCKOPT::SRTO_RCVLATENCY => match (before.sock_opts_spec(), millis_in(val, order)) {
            (Some(so), Some(ms)) => granted(
                before.with_sock_opts(SocketOptions { receive_latency: ms, ..so }),
                after,
                r,
            ),
            (Some(_), None) => refused(before, after, r, invalid),
            (None, _) => refused(before, after, r, wrong_phase(opt)),
        },
        SRT_SOCKOPT::SRTO_PEERLATENCY => match (before.sock_opts_spec(), millis_in(val, order)) {
            (Some(so), Some(ms)) => granted(
                before.with_sock_opts(SocketOptions { peer_latency: ms, ..so }),
                after,
                r,
            ),
            (Some(_), None) => refused(before, after, r, invalid),
            (None, _) => refused(before, after, r, wrong_phase(opt)),
        },
        SRT_SOCKOPT::SRTO_MININPUTBW => match (before.sock_opts_spec(), extract_i64_spec(val, order)) {
            (Some(so), Some(rate)) => granted(
                before.with_sock_opts(
                    SocketOptions {
                        bandwidth: so.bandwidth.with_expected_spec(unsigned64(rate as int) as u64),
                        ..so
                    },
                ),
                after,
                r,
            ),
            (Some(_), None) => refused(before, after, r, invalid),
            (None, _) => refused(before, after, r, wrong_phase(opt)),
        },
        _ => refused(before, after, r, OptionError::Unimplemented),
    }
}

/// Sets option `opt` of a handle from a caller's buffer: `optval` is the
/// buffer in its declared length, or nothing where the caller passed none.
pub fn srt_setsockflag<S, L, R, T, H>(
    sock: &mut SocketData<S, L, R, T, H>,
    opt: SRT_SOCKOPT,
    optval: Option<&[u8]>,
    order: ByteOrder,
) -> (r: Result<(), OptionError>)
    ensures
        old(sock).steps_to(*final(sock)),
        setsockflag_spec(*old(sock), opt, buffer(optval), order, *final(sock), r),
{
    let invalid = OptionError::Rejected(SRT_ERRNO::SRT_EINVPARAM);
    let not_connected = OptionError::Rejected(SRT_ERRNO::SRT_ENOCONN);
    let connected = OptionError::Rejected(SRT_ERRNO::SRT_ECONNSOCK);
    if opt == SRT_SOCKOPT::SRTO_PASSPHRASE {
        if let SocketData::Accepting(params) = sock {
            return match extract_passphrase(optval) {
                Some(passphrase) => {
                    let key_size = match params {
                        Some(p) => p.key_size,
                        None => KeySize::Unspecified,
                    };
                    *params = Some(KeySettings { passphrase, key_size });
                    Ok(())
                },
                None => Err(invalid),
            };
        }
    }
    if opt == SRT_SOCKOPT::SRTO_STREAMID {
        if let SocketData::Initialized(_, init, _) = sock {
            return match extract_stream_id(optval) {
                Some(sid) => {
                    *init = Some(sid);
                    Ok(())
                },
                None => Err(invalid),
            };
        }
        return Err(connected);
    }
    match (opt, sock.opts_mut()) {
        (SRT_SOCKOPT::SRTO_SENDER, (_, _)) => Ok(()),
        (SRT_SOCKOPT::SRTO_TSBPDMODE, _) => match extract_bool(optval, order) {
            Some(true) => Ok(()),
            _ => Err(invalid),
        },
        (SRT_SOCKOPT::SRTO_RCVSYN, (Some(o), _)) => match extract_bool(optval, order) {
            Some(e) => {
                o.rcv_syn = e;
                Ok(())
            },
            None => Err(invalid),
        },
        (SRT_SOCKOPT::SRTO_SNDSYN, (Some(o), _)) => match extract_bool(optval, order) {
            Some(e) => {
                o.snd_syn = e;
                Ok(())
            },
            None => Err(invalid),
        },
        (SRT_SOCKOPT::SRTO_RCVSYN, (None, _)) => Err(not_connected),
        (SRT_SOCKOPT::SRTO_SNDSYN, (None, _)) => Err(not_connected),
        (SRT_SOCKOPT::SRTO_CONNTIMEO, (_, Some(o))) => match extract_millis(optval, order) {
            Some(to) => {
                o.connect_timeout = to;
                Ok(())
            },
            None => Err(invalid),
        },
        (SRT_SOCKOPT::SRTO_PASSPHRASE, (_, Some(o))) => match extract_passphrase(optval) {
            Some(p) => {
                o.passphrase = Some(p);
                Ok(())
            },
            None => Err(invalid),
        },
        (SRT_SOCKOPT::SRTO_RCVLATENCY, (_, Some(o))) => match extract_millis(optval, order) {
            Some(ms) => {
                o.receive_latency = ms;
                Ok(())
            },
            None => Err(invalid),
        },
        (SRT_SOCKOPT::SRTO_PEERLATENCY, (_, Some(o))) => match extract_millis(optval, order) {
            Some(ms) => {
                o.peer_latency = ms;
                Ok(())
            },
            None => Err(invalid),
        },
        (SRT_SOCKOPT::SRTO_MININPUTBW, (_, Some(o))) => match extract_i64(optval, order) {
            Some(i) => {
                o.bandwidth = o.bandwidth.with_expected(reinterpret_u64(i));
                Ok(())
            },
            None => Err(invalid),
        },
        (SRT_SOCKOPT::SRTO_CONNTIMEO, (_, None)) => Err(connected),
        (SRT_SOCKOPT::SRTO_PASSPHRASE, (_, None)) => Err(connected),
        (SRT_SOCKOPT::SRTO_RCVLATENCY, (_, None)) => Err(connected),
        (SRT_SOCKOPT::SRTO_PEERLATENCY, (_, None)) => Err(connected),
        (SRT_SOCKOPT::SRTO_MININPUTBW, (_, None)) => Err(connected),
        (_, _) => Err(OptionError::Unimplemented),
    }
}

/// Sets an option of a handle; the level is not used.
pub fn srt_setsockopt<S, L, R, T, H>(
    sock: &mut SocketData<S, L, R, T, H>,
    _level: i32,
    optname: SRT_SOCKOPT,
    optval: Option<&[u8]>,
    order: ByteOrder,
) -> (r: Result<(), OptionError>)
    ensures
        old(sock).steps_to(*final(sock)),
        setsockflag_spec(*old(sock), optname, buffer(optval), order, *final(sock), r),
{
    srt_setsockflag(sock, optname, optval, order)
}

/// The text of a stream identifier, or no text where there is none.
pub open spec fn stream_id_text(sid: Option<StreamId>) -> Seq<char> {
    match sid {
        Some(id) => id@,
        None => Seq::empty(),
    }
}

/// The text of a string, or no text where there is none.
pub open spec fn text_or_empty(s: Option<String>) -> Seq<char> {
    match s {
        Some(s) => s@,
        None => Seq::empty(),
    }
}

/// The refusal of an option that the handle's phase has no value for: flags
/// need API flags, without which the handle counts as not connected; the
/// rest needs a handle that is `Initialized` or `Established`.
pub open spec fn no_source(opt: SRT_SOCKOPT) -> OptionError {
    if opt == SRT_SOCKOPT::SRTO_RCVSYN || opt == SRT_SOCKOPT::SRTO_SNDSYN {
        OptionError::Rejected(SRT_ERRNO::SRT_ENOCONN)
    } else {
        OptionError::Rejected(SRT_ERRNO::SRT_EBOUNDSOCK)
    }
}

/// The value of option `opt` on a handle in state `sock`.
///
/// The blocking flags are read wherever the handle has API flags. The stream
/// identifier is read from the options while the handle is `Initialized` and
/// from the session's settings once it is `Established`. The connect timeout
/// is read from the options; the two latencies and the expected input rate
/// from the options while there are any, and from the session's settings
/// after that. In a phase that has none of these sources the option is
/// refused, with a code that tells of the phase. An identifier that these
/// rules do not name is unimplemented.
pub open spec fn option_value_spec<S, L, R, T, H>(
    sock: SocketData<S, L, R, T, H>,
    opt: SRT_SOCKOPT,
) -> Result<OptValue, OptionError> {
    match opt {
        SRT_SOCKOPT::SRTO_STREAMID => match sock {
            SocketData::Initialized(_, sid, _) => Ok(OptValue::Str(stream_id_text(sid))),
            SocketData::Established(session, _) => Ok(
                OptValue::Str(text_or_empty(session.settings_spec().stream_id)),
            ),
            _ => Err(no_source(opt)),
        },
        SRT_SOCKOPT::SRTO_RCVSYN => match sock.api_opts_spec() {
            Some(api) => Ok(OptValue::Bool(api.rcv_syn)),
            None => Err(no_source(opt)),
        },
        SRT_SOCKOPT::SRTO_SNDSYN => match sock.api_opts_spec() {
            Some(api) => Ok(OptValue::Bool(api.snd_syn)),
            None => Err(no_source(opt)),
        },
        SRT_SOCKOPT::SRTO_CONNTIMEO => match sock.sock_opts_spec() {
            Some(so) => Ok(OptValue::Int(truncate_i32_spec(so.connect_timeout) as i32)),
            None => Err(no_source(opt)),
        },
        SRT_SOCKOPT::SRTO_RCVLATENCY => match (sock.sock_opts_spec(), sock.conn_settings_spec()) {
            (Some(so), _) => Ok(OptValue::Int(truncate_i32_spec(so.receive_latency) as i32)),
            (None, Some(cs)) => Ok(OptValue::Int(truncate_i32_spec(cs.recv_tsbpd_latency) as i32)),
            (None, None) => Err(no_source(opt)),
        },
        SRT_SOCKOPT::SRTO_PEERLATENCY => match (sock.sock_opts_spec(), sock.conn_settings_spec()) {
            (Some(so), _) => Ok(OptValue::Int(truncate_i32_spec(so.peer_latency) as i32)),
            (None, Some(cs)) => Ok(OptValue::Int(truncate_i32_spec(cs.send_tsbpd_latency) as i32)),
            (None, None) => Err(no_source(opt)),
        },
        SRT_SOCKOPT::SRTO_MININPUTBW => match (sock.sock_opts_spec(), sock.conn_settings_spec()) {
            (Some(so), _) => Ok(OptValue::Int64(signed64(so.bandwidth.rate_spec() as int) as i64)),
            (None, Some(cs)) => Ok(
                OptValue::Int64(signed64(cs.bandwidth.rate_spec() as int) as i64),
            ),
            (None, None) => Err(no_source(opt)),
        },
        _ => Err(OptionError::Unimplemented),
    }
}

/// What reading option `opt` into a caller's buffer of declared length
/// `optlen` yields: the bytes to write at the start of the buffer and the
/// length to report back. A buffer that is too short for the value is an
/// invalid parameter.
pub open spec fn getsockflag_spec<S, L, R, T, H>(
    sock: SocketData<S, L, R, T, H>,
    opt: SRT_SOCKOPT,
    optlen: int,
    order: ByteOrder,
) -> Result<(Seq<u8>, int), OptionError> {
    match option_value_spec(sock, opt) {
        Ok(value) => match value.marshalled(optlen, order) {
            Ok(written) => Ok(written),
            Err(e) => Err(OptionError::Rejected(e)),
        },
        Err(e) => Err(e),
    }
}

/// The typed value of option `opt` on a handle.
pub fn option_value<S, L, R, T, H>(sock: &SocketData<S, L, R, T, H>, opt: SRT_SOCKOPT) -> (r:
    Result<Val, OptionError>)
    ensures
        match option_value_spec(*sock, opt) {
            Ok(value) => r matches Ok(v) && v@ == value,
            Err(e) => r matches Err(x) && x == e,
        },
{
    if opt == SRT_SOCKOPT::SRTO_STREAMID {
        return match sock {
            SocketData::Initialized(_, sid, _) => Ok(
                Val::Str(
                    match sid {
                        Some(id) => id.as_str().to_owned(),
                        None => String::new(),
                    },
                ),
            ),
            SocketData::Established(session, _) => Ok(
                Val::Str(
                    match &session.settings().stream_id {
                        Some(id) => id.clone(),
                        None => String::new(),
                    },
                ),
            ),
            _ => Err(OptionError::Rejected(SRT_ERRNO::SRT_EBOUNDSOCK)),
        };
    }
    let not_connected = OptionError::Rejected(SRT_ERRNO::SRT_ENOCONN);
    let no_value = OptionError::Rejected(SRT_ERRNO::SRT_EBOUNDSOCK);
    match (opt, sock.api_opts(), sock.sock_opts(), sock.conn_settings()) {
        (SRT_SOCKOPT::SRTO_RCVSYN, Some(opts), _, _) => Ok(Val::Bool(opts.rcv_syn)),
        (SRT_SOCKOPT::SRTO_SNDSYN, Some(opts), _, _) => Ok(Val::Bool(opts.snd_syn)),
        (SRT_SOCKOPT::SRTO_CONNTIMEO, _, Some(opts), _) => Ok(
            Val::Int(truncate_i32(opts.connect_timeout)),
        ),
        (SRT_SOCKOPT::SRTO_RCVLATENCY, _, Some(opts), _) => Ok(
            Val::Int(truncate_i32(opts.receive_latency)),
        ),
        (SRT_SOCKOPT::SRTO_RCVLATENCY, _, _, Some(cs)) => Ok(
            Val::Int(truncate_i32(cs.recv_tsbpd_latency)),
        ),
        (SRT_SOCKOPT::SRTO_PEERLATENCY, _, Some(opts), _) => Ok(
            Val::Int(truncate_i32(opts.peer_latency)),
        ),
        (SRT_SOCKOPT::SRTO_PEERLATENCY, _, _, Some(cs)) => Ok(
            Val::Int(truncate_i32(cs.send_tsbpd_latency)),
        ),
        (SRT_SOCKOPT::SRTO_MININPUTBW, _, Some(opts), _) => Ok(
            Val::Int64(reinterpret_i64(opts.bandwidth.rate())),
        ),
        (SRT_SOCKOPT::SRTO_MININPUTBW, _, _, Some(cs)) => Ok(
            Val::Int64(reinterpret_i64(cs.bandwidth.rate())),
        ),
        (SRT_SOCKOPT::SRTO_RCVSYN, _, _, _) => Err(not_connected),
        (SRT_SOCKOPT::SRTO_SNDSYN, _, _, _) => Err(not_connected),
        (SRT_SOCKOPT::SRTO_CONNTIMEO, _, _, _) => Err(no_value),
        (SRT_SOCKOPT::SRTO_RCVLATENCY, _, _, _) => Err(no_value),
        (SRT_SOCKOPT::SRTO_PEERLATENCY, _, _, _) => Err(no_value),
        (SRT_SOCKOPT::SRTO_MININPUTBW, _, _, _) => Err(no_value),
        _ => Err(OptionError::Unimplemented),
    }
}

/// Checks what a caller passed to read an option into: both the buffer and
/// its declared length must be there. Gives the declared length.
pub fn getsockflag_buffer(optval_given: bool, optlen: Option<i32>) -> (r: Result<i32, SRT_ERRNO>)
    ensures
        r == (match optlen {
            Some(len) if optval_given => Ok::<i32, SRT_ERRNO>(len),
            _ => Err(SRT_ERRNO::SRT_EINVPARAM),
        }),
{
    match optlen {
        Some(len) if optval_given => Ok(len),
        _ => Err(SRT_ERRNO::SRT_EINVPARAM),
    }
}

/// Reads option `opt` of a handle for a caller's buffer of declared length
/// `optlen`: gives the bytes to write at the start of the buffer, and the
/// length to report back.
pub fn srt_getsockflag<S, L, R, T, H>(
    sock: &SocketData<S, L, R, T, H>,
    opt: SRT_SOCKOPT,
    optlen: i32,
    order: ByteOrder,
) -> (r: Result<(Vec<u8>, i32), OptionError>)
    ensures
        match getsockflag_spec(*sock, opt, optlen as int, order) {
            Ok((bytes, len)) => r matches Ok((v, n)) && v@ == bytes && n == len,
            Err(e) => r matches Err(x) && x == e,
        },
        r matches Ok((v, n)) ==> v@.len() <= optlen,
{
    let val = match option_value(sock, opt) {
        Ok(val) => val,
        Err(e) => return Err(e),
    };
    match val.inject(optlen, order) {
        Ok(written) => Ok(written),
        Err(e) => Err(OptionError::Rejected(e)),
    }
}

/// Reads an option of a handle; the level is not used.
pub fn srt_getsockopt<S, L, R, T, H>(
    sock: &SocketData<S, L, R, T, H>,
    _level: i32,
    optname: SRT_SOCKOPT,
    optlen: i32,
    order: ByteOrder,
) -> (r: Result<(Vec<u8>, i32), OptionError>)
    ensures
        match getsockflag_spec(*sock, optname, optlen as int, order) {
            Ok((bytes, len)) => r matches Ok((v, n)) && v@ == bytes && n == len,
            Err(e) => r matches Err(x) && x == e,
        },
        r matches Ok((v, n)) ==> v@.len() <= optlen,
{
    srt_getsockflag(sock, optname, optlen, order)
}

/// Whether any rule for setting options names this identifier.
pub open spec fn settable(opt: SRT_SOCKOPT) -> bool {
    ||| opt == SRT_SOCKOPT::SRTO_SNDSYN
    ||| opt == SRT_SOCKOPT::SRTO_RCVSYN
    ||| opt == SRT_SOCKOPT::SRTO_SENDER
    ||| opt == SRT_SOCKOPT::SRTO_TSBPDMODE
    ||| opt == SRT_SOCKOPT::SRTO_PASSPHRASE
    ||| opt == SRT_SOCKOPT::SRTO_CONNTIMEO
    ||| opt == SRT_SOCKOPT::SRTO_MININPUTBW
    ||| opt == SRT_SOCKOPT::SRTO_RCVLATENCY
    ||| opt == SRT_SOCKOPT::SRTO_PEERLATENCY
    ||| opt == SRT_SOCKOPT::SRTO_STREAMID
}

/// Setting an option that no rule names is reported as unimplemented, in
/// every state and whatever the buffer holds, and changes nothing.
pub proof fn unknown_option_is_unimplemented<S, L, R, T, H>(
    before: SocketData<S, L, R, T, H>,
    opt: SRT_SOCKOPT,
    val: Option<Seq<u8>>,
    order: ByteOrder,
    after: SocketData<S, L, R, T, H>,
    r: Result<(), OptionError>,
)
    requires
        setsockflag_spec(before, opt, val, order, after, r),
        !settable(opt),
    ensures
        r == Err::<(), OptionError>(OptionError::Unimplemented),
        after == before,
{
}

/// An option that these rules name is never reported as unimplemented, and
/// one that the handle's phase has no place for is never accepted: outside
/// `Initialized`, what is configured before a connection is refused as on a
/// connected socket (but for the passphrase of a pending inbound handshake),
/// and without API flags a blocking flag is refused as on a socket that is
/// not connected. The state stays as it is.
pub proof fn wrong_phase_is_refused<S, L, R, T, H>(
    before: SocketData<S, L, R, T, H>,
    opt: SRT_SOCKOPT,
    val: Option<Seq<u8>>,
    order: ByteOrder,
    after: SocketData<S, L, R, T, H>,
    r: Result<(), OptionError>,
)
    requires
        setsockflag_spec(before, opt, val, order, after, r),
        settable(opt),
    ensures
        r != Err::<(), OptionError>(OptionError::Unimplemented),
        (opt == SRT_SOCKOPT::SRTO_RCVSYN || opt == SRT_SOCKOPT::SRTO_SNDSYN)
            && before.api_opts_spec() is None ==> refused(
            before,
            after,
            r,
            OptionError::Rejected(SRT_ERRNO::SRT_ENOCONN),
        ),
        (opt == SRT_SOCKOPT::SRTO_STREAMID || opt == SRT_SOCKOPT::SRTO_CONNTIMEO || opt
            == SRT_SOCKOPT::SRTO_RCVLATENCY || opt == SRT_SOCKOPT::SRTO_PEERLATENCY || opt
            == SRT_SOCKOPT::SRTO_MININPUTBW) && !(before is Initialized) ==> refused(
            before,
            after,
            r,
            OptionError::Rejected(SRT_ERRNO::SRT_ECONNSOCK),
        ),
        opt == SRT_SOCKOPT::SRTO_PASSPHRASE && !(before is Initialized) && !(before is Accepting)
            ==> refused(before, after, r, OptionError::Rejected(SRT_ERRNO::SRT_ECONNSOCK)),
{
}

/// Setting an option never leaves a handle in the stand-in state, and never
/// moves it to another lifecycle phase.
pub proof fn setting_keeps_the_phase<S, L, R, T, H>(
    before: SocketData<S, L, R, T, H>,
    opt: SRT_SOCKOPT,
    val: Option<Seq<u8>>,
    order: ByteOrder,
    after: SocketData<S, L, R, T, H>,
    r: Result<(), OptionError>,
)
    requires
        setsockflag_spec(before, opt, val, order, after, r),
    ensures
        before.observable() ==> after.observable(),
        before is Initialized <==> after is Initialized,
        before is ConnectingNonBlocking <==> after is ConnectingNonBlocking,
        before is Established <==> after is Established,
        before is Listening <==> after is Listening,
        before is ConnectFailed <==> after is ConnectFailed,
        before is Accepting <==> after is Accepting,
        before is Closed <==> after is Closed,
        !(r is Ok) ==> after == before,
{
}

/// Reading option `opt` on a handle in state `sock` gives `value`.
pub open spec fn reads_as<S, L, R, T, H>(
    sock: SocketData<S, L, R, T, H>,
    opt: SRT_SOCKOPT,
    value: OptValue,
) -> bool {
    option_value_spec(sock, opt) == Ok::<OptValue, OptionError>(value)
}

/// An option that was set reads back as the value it was set to: after
/// option `opt` was set from the buffer `val` with success, reading `opt`
/// gives the flag, the number or the text that `val` holds. (Options that
/// can be set and not read, such as the passphrase, are not spoken of.)
pub proof fn set_then_get<S, L, R, T, H>(
    before: SocketData<S, L, R, T, H>,
    opt: SRT_SOCKOPT,
    val: Option<Seq<u8>>,
    order: ByteOrder,
    after: SocketData<S, L, R, T, H>,
    r: Result<(), OptionError>,
)
    requires
        setsockflag_spec(before, opt, val, order, after, r),
        r is Ok,
    ensures
        opt == SRT_SOCKOPT::SRTO_RCVSYN || opt == SRT_SOCKOPT::SRTO_SNDSYN ==> (extract_bool_spec(
            val,
            order,
        ) matches Some(flag) && reads_as(after, opt, OptValue::Bool(flag))),
        opt == SRT_SOCKOPT::SRTO_CONNTIMEO || opt == SRT_SOCKOPT::SRTO_RCVLATENCY || opt
            == SRT_SOCKOPT::SRTO_PEERLATENCY ==> (extract_int_spec(val, order) matches Some(n)
            && reads_as(after, opt, OptValue::Int(n))),
        opt == SRT_SOCKOPT::SRTO_MININPUTBW ==> (extract_i64_spec(val, order) matches Some(n)
            && reads_as(after, opt, OptValue::Int64(n))),
        opt == SRT_SOCKOPT::SRTO_STREAMID ==> (extract_str_spec(val) matches Some(text)
            && reads_as(after, opt, OptValue::Str(text))),
{
}

/// The same at the level of buffers: after a number or a text was set from
/// the buffer `val` with success, reading the option into a buffer of the
/// same length (for text: one byte longer, for the closing zero) gives the
/// bytes of `val` back, and reports `val`'s length.
pub proof fn set_then_get_bytes<S, L, R, T, H>(
    before: SocketData<S, L, R, T, H>,
    opt: SRT_SOCKOPT,
    val: Seq<u8>,
    order: ByteOrder,
    after: SocketData<S, L, R, T, H>,
    r: Result<(), OptionError>,
)
    requires
        setsockflag_spec(before, opt, Some(val), order, after, r),
        r is Ok,
    ensures
        opt == SRT_SOCKOPT::SRTO_CONNTIMEO || opt == SRT_SOCKOPT::SRTO_RCVLATENCY || opt
            == SRT_SOCKOPT::SRTO_PEERLATENCY || opt == SRT_SOCKOPT::SRTO_MININPUTBW
            ==> getsockflag_spec(after, opt, val.len() as int, order) == Ok::<
            (Seq<u8>, int),
            OptionError,
        >((val, val.len() as int)),
        opt == SRT_SOCKOPT::SRTO_STREAMID ==> getsockflag_spec(
            after,
            opt,
            val.len() as int + 1,
            order,
        ) == Ok::<(Seq<u8>, int), OptionError>((val.push(0u8), val.len() as int)),
{
    set_then_get(before, opt, Some(val), order, after, r);
    if opt == SRT_SOCKOPT::SRTO_STREAMID {
        decode_utf8_encode_utf8(val);
    } else if opt == SRT_SOCKOPT::SRTO_MININPUTBW {
        crate::codec::encode_decode_i64(val, order);
    } else if opt == SRT_SOCKOPT::SRTO_CONNTIMEO || opt == SRT_SOCKOPT::SRTO_RCVLATENCY || opt
        == SRT_SOCKOPT::SRTO_PEERLATENCY {
        crate::codec::encode_decode_i32(val, order);
    }
}

} // verus!
