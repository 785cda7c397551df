//! The lifecycle state machine: the operations that move a handle from one
//! phase to the next.
//!
//! What needs the transport engine (binding a listener, a handshake, waiting
//! for data) is done by the caller, between two steps of an operation: the
//! first step says whether the operation is legal and what to do, the second
//! takes what came of it and installs the next state. A step that fails
//! leaves the state as it found it, so the handle can be used again.
use vstd::prelude::*;
use vstd::string::*;
use crate::errors::{Failure, SRT_ERRNO};
use crate::connected::Connected;
use crate::settings::{
    ApiOptions,
    KeySettings,
    SockAddr,
    SocketOptions,
    StreamId,
    SRTSOCKET,
};
use crate::socket::SocketData;

verus! {

/// Protocol version marker that a listener's hook is called with.
pub const LISTEN_CALLBACK_HS_VERSION: i32 = 5;

/// How long a non-blocking `accept` or `receive` waits before it reports that
/// it would block, in milliseconds.
pub const NONBLOCKING_POLL_MS: u64 = 10;

/// Capacity of the channel on which an accept loop hands over connections.
pub const ACCEPT_QUEUE_LEN: usize = 1024;

/// What came of binding a listener: the listener with the receiving end of
/// its hand-over channel and its accept loop, or the reason why there is none.
#[derive(Debug)]
pub enum BindOutcome<L, R, T> {
    Bound(L, R, T),
    /// The options do not meet the protocol's constraints; the text says how.
    InvalidOptions(String),
    /// The transport could not bind; the text says why.
    BindFailed(String),
}

/// Takes the state out, leaving the stand-in behind for the caller to
/// replace.
fn take<S, L, R, T, H>(sock: &mut SocketData<S, L, R, T, H>) -> (r: SocketData<S, L, R, T, H>)
    ensures
        r == *old(sock),
        *final(sock) == SocketData::<S, L, R, T, H>::InvalidIntermediateState,
{
    let mut taken = SocketData::InvalidIntermediateState;
    core::mem::swap(sock, &mut taken);
    taken
}

/// Checks the address that a caller passed to `bind` or `connect`: `name` is
/// nothing where the caller passed no address, and holds nothing where what
/// was passed is no internet socket address.
pub fn socket_address(name: Option<Option<SockAddr>>) -> (r: Result<SockAddr, Failure>)
    ensures
        match name {
            Some(Some(addr)) => r matches Ok(a) && a == addr,
            Some(None) => r matches Err(f) && f.is_plain(SRT_ERRNO::SRT_EINVPARAM),
            None => r matches Err(f) && f.is(SRT_ERRNO::SRT_EINVPARAM, "Invalid socket address"@),
        },
{
    match name {
        Some(Some(addr)) => Ok(addr),
        Some(None) => Err(Failure::plain(SRT_ERRNO::SRT_EINVPARAM)),
        None => Err(
            Failure::new(SRT_ERRNO::SRT_EINVPARAM, String::from_str("Invalid socket address")),
        ),
    }
}

/// Sets the local address of a handle that is still `Initialized`. In any
/// other phase the handle counts as connected already, and nothing changes.
pub fn srt_bind<S, L, R, T, H>(sock: &mut SocketData<S, L, R, T, H>, name: SockAddr) -> (r: Result<
    (),
    SRT_ERRNO,
>)
    ensures
        old(sock).steps_to(*final(sock)),
        match *old(sock) {
            SocketData::Initialized(so, sid, api) => r is Ok && *final(sock)
                == SocketData::<S, L, R, T, H>::Initialized(
                SocketOptions { local: name, ..so },
                sid,
                api,
            ),
            _ => r == Err::<(), SRT_ERRNO>(SRT_ERRNO::SRT_ECONNSOCK) && *final(sock) == *old(sock),
        },
{
    if let SocketData::Initialized(b, _, _) = sock {
        b.local = name;
        Ok(())
    } else {
        Err(SRT_ERRNO::SRT_ECONNSOCK)
    }
}

/// First step of `listen`: legal only while the handle is `Initialized`.
/// Gives the options to bind the listener with.
pub fn listen_options<S, L, R, T, H>(sock: &SocketData<S, L, R, T, H>) -> (r: Result<
    SocketOptions,
    SRT_ERRNO,
>)
    ensures
        match *sock {
            SocketData::Initialized(so, _, _) => r == Ok::<SocketOptions, SRT_ERRNO>(so),
            _ => r == Err::<SocketOptions, SRT_ERRNO>(SRT_ERRNO::SRT_ECONNSOCK),
        },
{
    match sock {
        SocketData::Initialized(so, _, _) => Ok(so.clone()),
        _ => Err(SRT_ERRNO::SRT_ECONNSOCK),
    }
}

/// Second step of `listen`: installs `Listening` on a handle that is
/// `Initialized` where a listener was bound, with the handle's API flags
/// carried over and the receiving end ready for the first `accept`. Where
/// none was bound, or the handle is in another phase, the state stays as it
/// is. The backlog is not used.
pub fn srt_listen<S, L, R, T, H>(
    sock: &mut SocketData<S, L, R, T, H>,
    _backlog: i32,
    outcome: BindOutcome<L, R, T>,
) -> (r: Result<(), Failure>)
    ensures
        old(sock).steps_to(*final(sock)),
        match (*old(sock), outcome) {
            (SocketData::Initialized(_, _, api), BindOutcome::Bound(listener, incoming, task)) => {
                r is Ok && *final(sock) == SocketData::<S, L, R, T, H>::Listening(
                    listener,
                    Some(incoming),
                    task,
                    api,
                )
            },
            (SocketData::Initialized(_, _, _), BindOutcome::InvalidOptions(e)) => {
                *final(sock) == *old(sock) && (r matches Err(f) && f.is(
                    SRT_ERRNO::SRT_EINVOP,
                    "Invalid options: "@ + e@,
                ))
            },
            (SocketData::Initialized(_, _, _), BindOutcome::BindFailed(e)) => {
                *final(sock) == *old(sock) && (r matches Err(f) && f.is(
                    SRT_ERRNO::SRT_EINVOP,
                    "Failed to listen on socket: "@ + e@,
                ))
            },
            _ => *final(sock) == *old(sock) && (r matches Err(f) && f.is_plain(
                SRT_ERRNO::SRT_ECONNSOCK,
            )),
        },
{
    let sd = take(sock);
    if let SocketData::Initialized(so, sid, initial_opts) = sd {
        match outcome {
            BindOutcome::Bound(listener, incoming, task) => {
                *sock = SocketData::Listening(listener, Some(incoming), task, initial_opts);
                Ok(())
            },
            BindOutcome::InvalidOptions(e) => {
                *sock = SocketData::Initialized(so, sid, initial_opts);
                Err(Failure::caused(SRT_ERRNO::SRT_EINVOP, "Invalid options: ", e.as_str()))
            },
            BindOutcome::BindFailed(e) => {
                *sock = SocketData::Initialized(so, sid, initial_opts);
                Err(
                    Failure::caused(
                        SRT_ERRNO::SRT_EINVOP,
                        "Failed to listen on socket: ",
                        e.as_str(),
                    ),
                )
            },
        }
    } else {
        *sock = sd;
        Err(Failure::plain(SRT_ERRNO::SRT_ECONNSOCK))
    }
}

/// Whether an inbound connection goes ahead. `verdict` is nothing where no
/// hook is installed; else it holds whether a fault escaped the hook (zero:
/// none) and what the hook returned (zero: accept). A fault counts as a
/// rejection.
pub fn listen_callback_accepts(verdict: Option<(i32, i32)>) -> (r: bool)
    ensures
        r == match verdict {
            Some((fault, ret)) => fault == 0 && ret == 0,
            None => true,
        },
{
    match verdict {
        Some((fault, ret)) => fault == 0 && ret == 0,
        None => true,
    }
}

/// Takes the key material that the hook staged for an inbound connection. The
/// outer option tells whether the handle is still waiting for its handshake;
/// if it is not, nothing is taken and nothing changes.
pub fn take_key_settings<S, L, R, T, H>(sock: &mut SocketData<S, L, R, T, H>) -> (r: Option<
    Option<KeySettings>,
>)
    ensures
        old(sock).steps_to(*final(sock)),
        match *old(sock) {
            SocketData::Accepting(staged) => r == Some(staged) && *final(sock)
                == SocketData::<S, L, R, T, H>::Accepting(None),
            _ => r is None && *final(sock) == *old(sock),
        },
{
    if let SocketData::Accepting(key_settings) = sock {
        Some(key_settings.take())
    } else {
        None
    }
}

/// Installs the session of an inbound connection whose handshake is complete,
/// with the API flags of its listener. Says whether it did: a handle that is
/// no longer waiting for its handshake stays as it is, and the session is
/// dropped.
pub fn establish_accepted<S, L, R, T, H>(
    sock: &mut SocketData<S, L, R, T, H>,
    session: Connected<S>,
    opts: ApiOptions<H>,
) -> (r: bool)
    ensures
        old(sock).steps_to(*final(sock)),
        r == (*old(sock) is Accepting),
        *final(sock) == if r {
            SocketData::<S, L, R, T, H>::Established(session, opts)
        } else {
            *old(sock)
        },
{
    if let SocketData::Accepting(_) = sock {
        *sock = SocketData::Established(session, opts);
        true
    } else {
        false
    }
}

/// Installs the hook for inbound connections, in any phase that has API
/// flags; the other flags stay. A handle without API flags counts as not
/// connected.
pub fn srt_listen_callback<S, L, R, T, H>(sock: &mut SocketData<S, L, R, T, H>, hook_fn: H) -> (r:
    Result<(), SRT_ERRNO>)
    ensures
        old(sock).steps_to(*final(sock)),
        match old(sock).api_opts_spec() {
            Some(api) => r is Ok && *final(sock) == old(sock).with_api_opts(
                ApiOptions { listen_cb: Some(hook_fn), ..api },
            ),
            None => r == Err::<(), SRT_ERRNO>(SRT_ERRNO::SRT_ENOCONN) && *final(sock) == *old(
                sock,
            ),
        },
{
    if let (Some(o), _) = sock.opts_mut() {
        o.listen_cb = Some(hook_fn);
        Ok(())
    } else {
        Err(SRT_ERRNO::SRT_ENOCONN)
    }
}

/// What `connect` is to do: the options and the stream identifier to connect
/// with, whatever the mode, and whether the caller waits for the handshake.
#[derive(Debug)]
pub struct ConnectPlan {
    pub options: SocketOptions,
    pub stream_id: Option<StreamId>,
    pub blocking: bool,
}

/// What came of starting a connection.
#[derive(Debug)]
pub enum ConnectOutcome<S, T> {
    /// The caller waited, and the handshake completed.
    Connected(Connected<S>),
    /// The caller waited, and the handshake failed; the text says why.
    Failed(String),
    /// The attempt was handed to a background task.
    Dispatched(T),
}

/// First step of `connect`: legal only while the handle is `Initialized`.
/// Gives the options and the stream identifier that were set, to connect
/// with in either mode; the mode says only whether the caller waits for the
/// handshake, which it does where the handle receives in blocking mode.
pub fn connect_plan<S, L, R, T, H>(sock: &SocketData<S, L, R, T, H>) -> (r: Result<
    ConnectPlan,
    SRT_ERRNO,
>)
    ensures
        match *sock {
            SocketData::Initialized(so, sid, api) => r == Ok::<ConnectPlan, SRT_ERRNO>(
                ConnectPlan { options: so, stream_id: sid, blocking: api.rcv_syn },
            ),
            _ => r == Err::<ConnectPlan, SRT_ERRNO>(SRT_ERRNO::SRT_ECONNSOCK),
        },
{
    match sock {
        SocketData::Initialized(so, sid, api) => {
            let stream_id = match sid {
                Some(id) => Some(id.clone()),
                None => None,
            };
            Ok(ConnectPlan { options: so.clone(), stream_id, blocking: api.rcv_syn })
        },
        _ => Err(SRT_ERRNO::SRT_ECONNSOCK),
    }
}

/// Second step of `connect`, on a handle that is `Initialized`: a completed
/// handshake installs `Established`, a dispatched attempt installs
/// `ConnectingNonBlocking`, both with the handle's API flags; a failed
/// handshake leaves the handle `Initialized`, to try again. In any other phase
/// the handle counts as connected already, and nothing changes.
pub fn srt_connect<S, L, R, T, H>(
    sock: &mut SocketData<S, L, R, T, H>,
    outcome: ConnectOutcome<S, T>,
) -> (r: Result<(), Failure>)
    ensures
        old(sock).steps_to(*final(sock)),
        match (*old(sock), outcome) {
            (SocketData::Initialized(_, _, api), ConnectOutcome::Connected(session)) => {
                r is Ok && *final(sock) == SocketData::<S, L, R, T, H>::Established(session, api)
            },
            (SocketData::Initialized(_, _, api), ConnectOutcome::Dispatched(task)) => {
                r is Ok && *final(sock) == SocketData::<S, L, R, T, H>::ConnectingNonBlocking(
                    task,
                    api,
                )
            },
            (SocketData::Initialized(_, _, _), ConnectOutcome::Failed(e)) => {
                *final(sock) == *old(sock) && (r matches Err(f) && f.is(
                    SRT_ERRNO::SRT_ENOSERVER,
                    "Failed to connect: "@ + e@,
                ))
            },
            _ => *final(sock) == *old(sock) && (r matches Err(f) && f.is_plain(
                SRT_ERRNO::SRT_ECONNSOCK,
            )),
        },
{
    let sd = take(sock);
    if let SocketData::Initialized(so, streamid, options) = sd {
        match outcome {
            ConnectOutcome::Connected(session) => {
                *sock = SocketData::Established(session, options);
                Ok(())
            },
            ConnectOutcome::Dispatched(task) => {
                *sock = SocketData::ConnectingNonBlocking(task, options);
                Ok(())
            },
            ConnectOutcome::Failed(e) => {
                *sock = SocketData::Initialized(so, streamid, options);
                Err(Failure::caused(SRT_ERRNO::SRT_ENOSERVER, "Failed to connect: ", e.as_str()))
            },
        }
    } else {
        *sock = sd;
        Err(Failure::plain(SRT_ERRNO::SRT_ECONNSOCK))
    }
}

/// The state after a background connection attempt has ended with `result`:
/// a handle that still waits for it becomes `Established`, with the API flags
/// it has by then, or `ConnectFailed` with the cause. A handle that was
/// closed meanwhile, or is in any other phase, stays as it is.
pub open spec fn connect_completed_spec<S, L, R, T, H>(
    before: SocketData<S, L, R, T, H>,
    result: Result<Connected<S>, String>,
) -> SocketData<S, L, R, T, H> {
    match (before, result) {
        (SocketData::ConnectingNonBlocking(_, api), Ok(session)) => SocketData::Established(
            session,
            api,
        ),
        (SocketData::ConnectingNonBlocking(_, _), Err(cause)) => SocketData::ConnectFailed(cause),
        _ => before,
    }
}

/// Records how a background connection attempt ended. Says whether the
/// handle still waited for it; if it did not, the result is dropped.
pub fn connect_completed<S, L, R, T, H>(
    sock: &mut SocketData<S, L, R, T, H>,
    result: Result<Connected<S>, String>,
) -> (r: bool)
    ensures
        old(sock).steps_to(*final(sock)),
        r == (*old(sock) is ConnectingNonBlocking),
        *final(sock) == connect_completed_spec(*old(sock), result),
{
    let sd = take(sock);
    if let SocketData::ConnectingNonBlocking(_, options) = sd {
        match result {
            Ok(session) => {
                *sock = SocketData::Established(session, options);
            },
            Err(cause) => {
                *sock = SocketData::ConnectFailed(cause);
            },
        }
        true
    } else {
        *sock = sd;
        false
    }
}

/// What came of waiting for an inbound connection.
#[derive(Debug)]
pub enum AcceptOutcome {
    /// The accept loop handed over a connection: its handle and its peer.
    Ready(SRTSOCKET, SockAddr),
    /// Nothing arrived within the time that a non-blocking call waits.
    TimedOut,
    /// The accept loop has ended: nothing will arrive any more.
    ChannelClosed,
}

/// Checks what a caller passed to `accept` for the peer's address: a place
/// for the address needs a place for its length. Says whether the address is
/// wanted.
pub fn accept_wants_address(addr_given: bool, addrlen_given: bool) -> (r: Result<bool, SRT_ERRNO>)
    ensures
        r == if addr_given && !addrlen_given {
            Err::<bool, SRT_ERRNO>(SRT_ERRNO::SRT_EINVPARAM)
        } else {
            Ok::<bool, SRT_ERRNO>(addr_given)
        },
{
    match (addr_given, addrlen_given) {
        (false, _) => Ok(false),
        (true, true) => Ok(true),
        (true, false) => Err(SRT_ERRNO::SRT_EINVPARAM),
    }
}

/// The state while an `accept` waits: the receiving end is out.
pub open spec fn accept_begin_state<S, L, R, T, H>(before: SocketData<S, L, R, T, H>) -> SocketData<
    S,
    L,
    R,
    T,
    H,
> {
    match before {
        SocketData::Listening(l, _, t, api) => SocketData::Listening(l, None, t, api),
        _ => before,
    }
}

/// Whether an `accept` may start to wait on a handle in state `before`, and
/// with what: the receiving end, and whether to wait without limit.
pub open spec fn accept_begin_result<S, L, R, T, H>(before: SocketData<S, L, R, T, H>) -> Result<
    (R, bool),
    SRT_ERRNO,
> {
    match before {
        SocketData::Listening(_, Some(incoming), _, api) => Ok((incoming, api.rcv_syn)),
        SocketData::Listening(_, None, _, _) => Err(SRT_ERRNO::SRT_EINVOP),
        _ => Err(SRT_ERRNO::SRT_ENOLISTEN),
    }
}

/// The state after an `accept` has waited: the receiving end is back in.
pub open spec fn accept_end_state<S, L, R, T, H>(
    before: SocketData<S, L, R, T, H>,
    incoming: R,
) -> SocketData<S, L, R, T, H> {
    match before {
        SocketData::Listening(l, _, t, api) => SocketData::Listening(l, Some(incoming), t, api),
        _ => before,
    }
}

/// First step of `accept`: legal only while the handle is `Listening` and no
/// other `accept` waits on it. Takes the receiving end of the hand-over
/// channel out of the state and gives it to the caller, with the handle's
/// receive mode: whether to wait without limit. A call that finds the
/// receiving end taken fails at once, and changes nothing.
pub fn accept_begin<S, L, R, T, H>(sock: &mut SocketData<S, L, R, T, H>) -> (r: Result<
    (R, bool),
    Failure,
>)
    ensures
        old(sock).steps_to(*final(sock)),
        match accept_begin_result(*old(sock)) {
            Ok(taken) => r == Ok::<(R, bool), Failure>(taken) && *final(sock)
                == accept_begin_state(*old(sock)),
            Err(e) => *final(sock) == *old(sock) && (r matches Err(f) && if e
                == SRT_ERRNO::SRT_EINVOP {
                f.is(e, "accept can only be called from one thread at a time"@)
            } else {
                f.is_plain(e)
            }),
        },
{
    if let SocketData::Listening(_, incoming, _, opts) = sock {
        match incoming.take() {
            Some(l) => Ok((l, opts.rcv_syn)),
            None => Err(
                Failure::new(
                    SRT_ERRNO::SRT_EINVOP,
                    String::from_str("accept can only be called from one thread at a time"),
                ),
            ),
        }
    } else {
        Err(Failure::plain(SRT_ERRNO::SRT_ENOLISTEN))
    }
}

/// What an `accept` returns for what its wait came to.
pub open spec fn accept_result(outcome: AcceptOutcome) -> Result<(SRTSOCKET, SockAddr), SRT_ERRNO> {
    match outcome {
        AcceptOutcome::Ready(new_sock, remote) => Ok((new_sock, remote)),
        AcceptOutcome::TimedOut => Err(SRT_ERRNO::SRT_EASYNCRCV),
        AcceptOutcome::ChannelClosed => Err(SRT_ERRNO::SRT_ESCLOSED),
    }
}

/// Second step of `accept`: puts the receiving end back, whatever the wait
/// came to, so that the next `accept` can wait; a handle that stopped
/// listening meanwhile stays as it is. Gives the new connection's handle and
/// peer; reports that the call would block where nothing arrived in time, and
/// that the socket is closed where the accept loop has ended.
pub fn srt_accept<S, L, R, T, H>(
    sock: &mut SocketData<S, L, R, T, H>,
    incoming: R,
    outcome: AcceptOutcome,
) -> (r: Result<(SRTSOCKET, SockAddr), SRT_ERRNO>)
    ensures
        old(sock).steps_to(*final(sock)),
        *final(sock) == accept_end_state(*old(sock), incoming),
        r == accept_result(outcome),
{
    if let SocketData::Listening(_, in_state, _, _) = sock {
        *in_state = Some(incoming);
    }
    match outcome {
        AcceptOutcome::Ready(new_sock, remote) => Ok((new_sock, remote)),
        AcceptOutcome::TimedOut => Err(SRT_ERRNO::SRT_EASYNCRCV),
        AcceptOutcome::ChannelClosed => Err(SRT_ERRNO::SRT_ESCLOSED),
    }
}

/// Only one `accept` waits on a handle at a time. Once an `accept` has taken
/// the receiving end of a listening handle, a second one fails at once, with
/// "operation not supported", until the first has put the receiving end back;
/// after that, the next one gets that same receiving end.
pub proof fn accept_is_exclusive<S, L, R, T, H>(before: SocketData<S, L, R, T, H>, incoming: R)
    requires
        before is Listening,
        accept_begin_result(before) matches Ok(taken) && taken.0 == incoming,
    ensures
        accept_begin_result(accept_begin_state(before)) == Err::<(R, bool), SRT_ERRNO>(
            SRT_ERRNO::SRT_EINVOP,
        ),
        accept_end_state(accept_begin_state(before), incoming) == before,
        accept_begin_result(accept_end_state(accept_begin_state(before), incoming))
            == accept_begin_result(before),
{
}

/// What `send` is to do: how many bytes to hand to the session, and whether
/// to wait without limit until the session takes them.
#[derive(Clone, Copy, Debug, PartialEq, Eq, Structural)]
pub struct SendPlan {
    pub len: usize,
    pub blocking: bool,
}

/// What came of handing a payload to the session.
#[derive(Clone, Copy, Debug, PartialEq, Eq, Structural)]
pub enum SendOutcome {
    /// The session took the payload.
    Queued,
    /// The session had no room within the time that a non-blocking call
    /// waits.
    WouldBlock,
    /// The session refused the payload: it is beyond what the session
    /// accepts.
    TooLarge,
}

/// Whether `send` may hand a payload of declared length `len` to the session
/// of a handle in state `sock`, and how: legal only while the handle is
/// `Established`, and the length must not be negative. The handle's send mode
/// says whether to wait without limit.
pub open spec fn send_admitted<S, L, R, T, H>(sock: SocketData<S, L, R, T, H>, len: i32) -> Result<
    SendPlan,
    SRT_ERRNO,
> {
    match sock {
        SocketData::Established(_, api) => if len < 0 {
            Err(SRT_ERRNO::SRT_EINVPARAM)
        } else {
            Ok(SendPlan { len: len as usize, blocking: api.snd_syn })
        },
        _ => Err(SRT_ERRNO::SRT_ENOCONN),
    }
}

/// What `send` returns for what came of handing `len` bytes to the session:
/// the number of bytes written, which is all of them; that the call would
/// block; or that the message is too large.
pub open spec fn send_result(outcome: SendOutcome, len: i32) -> Result<i32, SRT_ERRNO> {
    match outcome {
        SendOutcome::Queued => Ok(len),
        SendOutcome::WouldBlock => Err(SRT_ERRNO::SRT_EASYNCSND),
        SendOutcome::TooLarge => Err(SRT_ERRNO::SRT_ELARGEMSG),
    }
}

/// First step of `send`: says whether the payload may be handed to the
/// session, in what length, and whether to wait without limit.
pub fn send_plan<S, L, R, T, H>(sock: &SocketData<S, L, R, T, H>, len: i32) -> (r: Result<
    SendPlan,
    SRT_ERRNO,
>)
    ensures
        r == send_admitted(*sock, len),
{
    match sock {
        SocketData::Established(_, opts) => {
            if len < 0 {
                Err(SRT_ERRNO::SRT_EINVPARAM)
            } else {
                Ok(SendPlan { len: len as usize, blocking: opts.snd_syn })
            }
        },
        _ => Err(SRT_ERRNO::SRT_ENOCONN),
    }
}

/// Second step of `send`: reports what came of handing the payload to the
/// session, on a handle on which `send` is legal; on any other, why it is
/// not. The handle's state does not change. The message control block is not
/// used.
pub fn srt_sendmsg2<S, L, R, T, H>(
    sock: &SocketData<S, L, R, T, H>,
    len: i32,
    outcome: SendOutcome,
) -> (r: Result<i32, SRT_ERRNO>)
    ensures
        r == match send_admitted(*sock, len) {
            Ok(_) => send_result(outcome, len),
            Err(e) => Err::<i32, SRT_ERRNO>(e),
        },
{
    match send_plan(sock, len) {
        Ok(_) => match outcome {
            SendOutcome::Queued => Ok(len),
            SendOutcome::WouldBlock => Err(SRT_ERRNO::SRT_EASYNCSND),
            SendOutcome::TooLarge => Err(SRT_ERRNO::SRT_ELARGEMSG),
        },
        Err(e) => Err(e),
    }
}

/// `send` without a message control block.
pub fn srt_send<S, L, R, T, H>(sock: &SocketData<S, L, R, T, H>, len: i32, outcome: SendOutcome) -> (r:
    Result<i32, SRT_ERRNO>)
    ensures
        r == match send_admitted(*sock, len) {
            Ok(_) => send_result(outcome, len),
            Err(e) => Err::<i32, SRT_ERRNO>(e),
        },
{
    srt_sendmsg2(sock, len, outcome)
}

/// What came of waiting for the session's next unit of data.
#[derive(Debug)]
pub enum RecvOutcome {
    /// A unit was delivered.
    Unit(Vec<u8>),
    /// Nothing arrived within the time that a non-blocking call waits.
    TimedOut,
    /// The session broke; the text says how.
    Failed(String),
    /// The session has ended.
    Ended,
}

/// What `receive` hands to its caller: the bytes for the caller's buffer, and
/// whether the unit was longer than the buffer, so that its end was cut off.
#[derive(Debug)]
pub struct Received {
    pub bytes: Vec<u8>,
    pub truncated: bool,
}

/// Whether `receive` may wait on a handle in state `sock` for a buffer of
/// declared length `len`, and how: legal only while the handle is
/// `Established`, and the length must not be negative. Gives whether to wait
/// without limit.
pub open spec fn recv_admitted<S, L, R, T, H>(sock: SocketData<S, L, R, T, H>, len: i32) -> Result<
    bool,
    SRT_ERRNO,
> {
    match sock {
        SocketData::Established(_, api) => if len < 0 {
            Err(SRT_ERRNO::SRT_EINVPARAM)
        } else {
            Ok(api.rcv_syn)
        },
        _ => Err(SRT_ERRNO::SRT_ENOCONN),
    }
}

/// First step of `receive`: says whether to wait for the session's next unit,
/// and whether without limit.
pub fn recv_mode<S, L, R, T, H>(sock: &SocketData<S, L, R, T, H>, len: i32) -> (r: Result<
    bool,
    SRT_ERRNO,
>)
    ensures
        r == recv_admitted(*sock, len),
{
    match sock {
        SocketData::Established(_, opts) => {
            if len < 0 {
                Err(SRT_ERRNO::SRT_EINVPARAM)
            } else {
                Ok(opts.rcv_syn)
            }
        },
        _ => Err(SRT_ERRNO::SRT_ENOCONN),
    }
}

/// The smaller of two lengths.
pub open spec fn min_len(a: int, b: int) -> int {
    if a <= b {
        a
    } else {
        b
    }
}

/// Second step of `receive`, for a buffer of declared length `len`. A unit
/// that was delivered is copied as far as the buffer goes: the first
/// `min(len, unit length)` bytes, whether or not that is all of it; a unit
/// that is too long is cut, never refused. Where nothing arrived in time the
/// call would block; a session that broke or ended is a lost connection.
pub fn srt_recv<S, L, R, T, H>(sock: &SocketData<S, L, R, T, H>, len: i32, outcome: RecvOutcome) -> (r:
    Result<Received, Failure>)
    ensures
        match (recv_admitted(*sock, len), outcome) {
            (Err(e), _) => r matches Err(f) && f.is_plain(e),
            (Ok(_), RecvOutcome::Unit(unit)) => r matches Ok(got) && got.bytes@ == unit@.take(
                min_len(len as int, unit@.len() as int),
            ) && got.truncated == (unit@.len() > len),
            (Ok(_), RecvOutcome::TimedOut) => r matches Err(f) && f.is_plain(
                SRT_ERRNO::SRT_EASYNCRCV,
            ),
            (Ok(_), RecvOutcome::Failed(e)) => r matches Err(f) && f.is(
                SRT_ERRNO::SRT_ECONNLOST,
                e@,
            ),
            (Ok(_), RecvOutcome::Ended) => r matches Err(f) && f.is_plain(SRT_ERRNO::SRT_ECONNLOST),
        },
{
    match recv_mode(sock, len) {
        Ok(_) => {},
        Err(e) => {
            return Err(Failure::plain(e));
        },
    }
    match outcome {
        RecvOutcome::Unit(unit) => {
            let mut bytes = unit;
            let truncated = bytes.len() > len as usize;
            if truncated {
                bytes.truncate(len as usize);
            }
            assert(bytes@ =~= unit@.take(min_len(len as int, unit@.len() as int)));
            Ok(Received { bytes, truncated })
        },
        RecvOutcome::TimedOut => Err(Failure::plain(SRT_ERRNO::SRT_EASYNCRCV)),
        RecvOutcome::Failed(e) => Err(Failure::new(SRT_ERRNO::SRT_ECONNLOST, e)),
        RecvOutcome::Ended => Err(Failure::plain(SRT_ERRNO::SRT_ECONNLOST)),
    }
}

/// `receive` under its other name.
pub fn srt_recvmsg<S, L, R, T, H>(sock: &SocketData<S, L, R, T, H>, len: i32, outcome: RecvOutcome) -> (r:
    Result<Received, Failure>)
    ensures
        match (recv_admitted(*sock, len), outcome) {
            (Err(e), _) => r matches Err(f) && f.is_plain(e),
            (Ok(_), RecvOutcome::Unit(unit)) => r matches Ok(got) && got.bytes@ == unit@.take(
                min_len(len as int, unit@.len() as int),
            ) && got.truncated == (unit@.len() > len),
            (Ok(_), RecvOutcome::TimedOut) => r matches Err(f) && f.is_plain(
                SRT_ERRNO::SRT_EASYNCRCV,
            ),
            (Ok(_), RecvOutcome::Failed(e)) => r matches Err(f) && f.is(
                SRT_ERRNO::SRT_ECONNLOST,
                e@,
            ),
            (Ok(_), RecvOutcome::Ended) => r matches Err(f) && f.is_plain(SRT_ERRNO::SRT_ECONNLOST),
        },
{
    srt_recv(sock, len, outcome)
}

/// What is left to tear down when a handle is closed.
#[derive(Debug)]
pub enum CloseAction<S, L, T> {
    /// Ask the session to flush and close, and wait for it.
    CloseSession(Connected<S>),
    /// Ask the listener to stop, and wait for its accept loop to end.
    StopListener(L, T),
    /// Nothing.
    Nothing,
}

/// What closing a handle in state `before` leaves to tear down.
pub open spec fn close_action<S, L, R, T, H>(before: SocketData<S, L, R, T, H>) -> CloseAction<
    S,
    L,
    T,
> {
    match before {
        SocketData::Established(session, _) => CloseAction::CloseSession(session),
        SocketData::Listening(listener, _, task, _) => CloseAction::StopListener(listener, task),
        _ => CloseAction::Nothing,
    }
}

/// Closes a handle, in whatever phase it is: the state becomes `Closed`, and
/// the session or the listener that it held goes to the caller, to be torn
/// down. The caller then removes the handle from the registry, whether or
/// not the teardown succeeds.
pub fn srt_close<S, L, R, T, H>(sock: &mut SocketData<S, L, R, T, H>) -> (r: CloseAction<S, L, T>)
    ensures
        old(sock).steps_to(*final(sock)),
        *final(sock) == SocketData::<S, L, R, T, H>::Closed,
        r == close_action(*old(sock)),
{
    let sd = take(sock);
    *sock = SocketData::Closed;
    match sd {
        SocketData::Established(session, _) => CloseAction::CloseSession(session),
        SocketData::Listening(listener, _, task, _) => CloseAction::StopListener(listener, task),
        _ => CloseAction::Nothing,
    }
}

/// What `close` reports for what came of tearing a session down: a failure
/// to close is passed on, with its cause.
pub fn close_result(torn_down: Result<(), String>) -> (r: Result<(), Failure>)
    ensures
        match torn_down {
            Ok(_) => r is Ok,
            Err(e) => r matches Err(f) && f.is(
                SRT_ERRNO::SRT_EINVOP,
                "Failed to close socket: "@ + e@,
            ),
        },
{
    match torn_down {
        Ok(_) => Ok(()),
        Err(e) => Err(
            Failure::caused(SRT_ERRNO::SRT_EINVOP, "Failed to close socket: ", e.as_str()),
        ),
    }
}

/// A handle that was created and never bound, connected or listened on
/// closes without any teardown, so its close cannot fail.
pub proof fn fresh_handle_closes_without_teardown<S, L, R, T, H>()
    ensures
        close_action(SocketData::<S, L, R, T, H>::fresh()) == CloseAction::<S, L, T>::Nothing,
{
}

/// A closed handle takes no operation: it is not connected, it does not
/// listen, it has nothing left to tear down, and the late result of a
/// background connection attempt leaves it closed.
pub proof fn closed_handle_takes_no_operation<S, L, R, T, H>(
    len: i32,
    late: Result<Connected<S>, String>,
)
    ensures
        send_admitted(SocketData::<S, L, R, T, H>::Closed, len) == Err::<SendPlan, SRT_ERRNO>(
            SRT_ERRNO::SRT_ENOCONN,
        ),
        recv_admitted(SocketData::<S, L, R, T, H>::Closed, len) == Err::<bool, SRT_ERRNO>(
            SRT_ERRNO::SRT_ENOCONN,
        ),
        accept_begin_result(SocketData::<S, L, R, T, H>::Closed) == Err::<(R, bool), SRT_ERRNO>(
            SRT_ERRNO::SRT_ENOLISTEN,
        ),
        close_action(SocketData::<S, L, R, T, H>::Closed) == CloseAction::<S, L, T>::Nothing,
        connect_completed_spec(SocketData::<S, L, R, T, H>::Closed, late) == SocketData::<
            S,
            L,
            R,
            T,
            H,
        >::Closed,
{
}

/// A background connection attempt that ends moves a handle that waits for
/// it, and no other: to `Established` or to `ConnectFailed`, never to the
/// stand-in state.
pub proof fn connect_result_moves_a_waiting_handle_only<S, L, R, T, H>(
    before: SocketData<S, L, R, T, H>,
    result: Result<Connected<S>, String>,
)
    ensures
        before.steps_to(connect_completed_spec(before, result)),
        !(before is ConnectingNonBlocking) ==> connect_completed_spec(before, result) == before,
        before is ConnectingNonBlocking ==> (result is Ok <==> connect_completed_spec(
            before,
            result,
        ) is Established),
        before is ConnectingNonBlocking ==> (result is Err <==> connect_completed_spec(
            before,
            result,
        ) is ConnectFailed),
{
}

} // verus!
