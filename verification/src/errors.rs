//! Error codes of the socket API, and the failure value that a boundary
//! operation hands to the error channel.
use vstd::prelude::*;
use vstd::string::*;

verus! {

/// Status that a boundary operation returns when it succeeded.
pub const SRT_SUCCESS: i32 = 0;

/// Status that a boundary operation returns when it failed; the cause is then
/// in the calling thread's error channel.
pub const SRT_ERROR: i32 = -1;

/// The error codes of the socket API. The thousands of a code's number name
/// its family (setup, connection, resources, file system, unsupported
/// operation, non-blocking retry, peer), the rest the cause within it.
#[derive(Clone, Copy, Debug, PartialEq, Eq, Structural)]
pub enum SRT_ERRNO {
    SRT_EUNKNOWN,
    SRT_SUCCESS,
    SRT_ECONNSETUP,
    SRT_ENOSERVER,
    SRT_ECONNREJ,
    SRT_ESOCKFAIL,
    SRT_ESECFAIL,
    SRT_ESCLOSED,
    SRT_ECONNFAIL,
    SRT_ECONNLOST,
    SRT_ENOCONN,
    SRT_ERESOURCE,
    SRT_ETHREAD,
    SRT_ENOBUF,
    SRT_ESYSOBJ,
    SRT_EFILE,
    SRT_EINVRDOFF,
    SRT_ERDPERM,
    SRT_EINVWROFF,
    SRT_EWRPERM,
    SRT_EINVOP,
    SRT_EBOUNDSOCK,
    SRT_ECONNSOCK,
    SRT_EINVPARAM,
    SRT_EINVSOCK,
    SRT_EUNBOUNDSOCK,
    SRT_ENOLISTEN,
    SRT_ERDVNOSERV,
    SRT_ERDVUNBOUND,
    SRT_EINVALMSGAPI,
    SRT_EINVALBUFFERAPI,
    SRT_EDUPLISTEN,
    SRT_ELARGEMSG,
    SRT_EINVPOLLID,
    SRT_EPOLLEMPTY,
    SRT_EBINDCONFLICT,
    SRT_EASYNCFAIL,
    SRT_EASYNCSND,
    SRT_EASYNCRCV,
    SRT_ETIMEOUT,
    SRT_ECONGEST,
    SRT_EPEERERR,
}

impl SRT_ERRNO {
    /// The number that stands for this code at the foreign boundary.
    pub open spec fn code_spec(self) -> int {
        match self {
            SRT_ERRNO::SRT_EUNKNOWN => -1,
            SRT_ERRNO::SRT_SUCCESS => 0,
            SRT_ERRNO::SRT_ECONNSETUP => 1000,
            SRT_ERRNO::SRT_ENOSERVER => 1001,
            SRT_ERRNO::SRT_ECONNREJ => 1002,
            SRT_ERRNO::SRT_ESOCKFAIL => 1003,
            SRT_ERRNO::SRT_ESECFAIL => 1004,
            SRT_ERRNO::SRT_ESCLOSED => 1005,
            SRT_ERRNO::SRT_ECONNFAIL => 2000,
            SRT_ERRNO::SRT_ECONNLOST => 2001,
            SRT_ERRNO::SRT_ENOCONN => 2002,
            SRT_ERRNO::SRT_ERESOURCE => 3000,
            SRT_ERRNO::SRT_ETHREAD => 3001,
            SRT_ERRNO::SRT_ENOBUF => 3002,
            SRT_ERRNO::SRT_ESYSOBJ => 3003,
            SRT_ERRNO::SRT_EFILE => 4000,
            SRT_ERRNO::SRT_EINVRDOFF => 4001,
            SRT_ERRNO::SRT_ERDPERM => 4002,
            SRT_ERRNO::SRT_EINVWROFF => 4003,
            SRT_ERRNO::SRT_EWRPERM => 4004,
            SRT_ERRNO::SRT_EINVOP => 5000,
            SRT_ERRNO::SRT_EBOUNDSOCK => 5001,
            SRT_ERRNO::SRT_ECONNSOCK => 5002,
            SRT_ERRNO::SRT_EINVPARAM => 5003,
            SRT_ERRNO::SRT_EINVSOCK => 5004,
            SRT_ERRNO::SRT_EUNBOUNDSOCK => 5005,
            SRT_ERRNO::SRT_ENOLISTEN => 5006,
            SRT_ERRNO::SRT_ERDVNOSERV => 5007,
            SRT_ERRNO::SRT_ERDVUNBOUND => 5008,
            SRT_ERRNO::SRT_EINVALMSGAPI => 5009,
            SRT_ERRNO::SRT_EINVALBUFFERAPI => 5010,
            SRT_ERRNO::SRT_EDUPLISTEN => 5011,
            SRT_ERRNO::SRT_ELARGEMSG => 5012,
            SRT_ERRNO::SRT_EINVPOLLID => 5013,
            SRT_ERRNO::SRT_EPOLLEMPTY => 5014,
            SRT_ERRNO::SRT_EBINDCONFLICT => 5015,
            SRT_ERRNO::SRT_EASYNCFAIL => 6000,
            SRT_ERRNO::SRT_EASYNCSND => 6001,
            SRT_ERRNO::SRT_EASYNCRCV => 6002,
            SRT_ERRNO::SRT_ETIMEOUT => 6003,
            SRT_ERRNO::SRT_ECONGEST => 6004,
            SRT_ERRNO::SRT_EPEERERR => 7000,
        }
    }

    /// The text that describes this code when an operation gives no other.
    pub open spec fn message(self) -> Seq<char> {
        match self {
            SRT_ERRNO::SRT_EUNKNOWN => "Unknown error"@,
            SRT_ERRNO::SRT_SUCCESS => "Success"@,
            SRT_ERRNO::SRT_ECONNSETUP => "Connection setup failure"@,
            SRT_ERRNO::SRT_ENOSERVER => "Connection setup failure: connection timed out"@,
            SRT_ERRNO::SRT_ECONNREJ => "Connection setup failure: connection rejected"@,
            SRT_ERRNO::SRT_ESOCKFAIL => "Connection setup failure: unable to create or configure the underlying socket"@,
            SRT_ERRNO::SRT_ESECFAIL => "Connection setup failure: aborted for security reasons"@,
            SRT_ERRNO::SRT_ESCLOSED => "Connection setup failure: socket closed during operation"@,
            SRT_ERRNO::SRT_ECONNFAIL => "Connection failure"@,
            SRT_ERRNO::SRT_ECONNLOST => "Connection was broken"@,
            SRT_ERRNO::SRT_ENOCONN => "Connection does not exist"@,
            SRT_ERRNO::SRT_ERESOURCE => "System resource failure"@,
            SRT_ERRNO::SRT_ETHREAD => "System resource failure: unable to create a new thread"@,
            SRT_ERRNO::SRT_ENOBUF => "System resource failure: unable to allocate buffers"@,
            SRT_ERRNO::SRT_ESYSOBJ => "System resource failure: unable to allocate a system object"@,
            SRT_ERRNO::SRT_EFILE => "File system failure"@,
            SRT_ERRNO::SRT_EINVRDOFF => "File system failure: cannot seek read position"@,
            SRT_ERRNO::SRT_ERDPERM => "File system failure: failure in read"@,
            SRT_ERRNO::SRT_EINVWROFF => "File system failure: cannot seek write position"@,
            SRT_ERRNO::SRT_EWRPERM => "File system failure: failure in write"@,
            SRT_ERRNO::SRT_EINVOP => "Operation not supported"@,
            SRT_ERRNO::SRT_EBOUNDSOCK => "Operation not supported: cannot do this operation on a bound socket"@,
            SRT_ERRNO::SRT_ECONNSOCK => "Operation not supported: cannot do this operation on a connected socket"@,
            SRT_ERRNO::SRT_EINVPARAM => "Operation not supported: bad parameters"@,
            SRT_ERRNO::SRT_EINVSOCK => "Operation not supported: invalid socket ID"@,
            SRT_ERRNO::SRT_EUNBOUNDSOCK => "Operation not supported: cannot do this operation on an unbound socket"@,
            SRT_ERRNO::SRT_ENOLISTEN => "Operation not supported: socket is not in listening state"@,
            SRT_ERRNO::SRT_ERDVNOSERV => "Operation not supported: listen and accept are not supported in rendezvous mode"@,
            SRT_ERRNO::SRT_ERDVUNBOUND => "Operation not supported: cannot connect an unbound socket in rendezvous mode"@,
            SRT_ERRNO::SRT_EINVALMSGAPI => "Operation not supported: incorrect use of the message API"@,
            SRT_ERRNO::SRT_EINVALBUFFERAPI => "Operation not supported: incorrect use of the buffer API"@,
            SRT_ERRNO::SRT_EDUPLISTEN => "Operation not supported: another socket is already listening on this port"@,
            SRT_ERRNO::SRT_ELARGEMSG => "Operation not supported: message is too large to send"@,
            SRT_ERRNO::SRT_EINVPOLLID => "Operation not supported: invalid epoll ID"@,
            SRT_ERRNO::SRT_EPOLLEMPTY => "Operation not supported: all subscribers were removed from the epoll container"@,
            SRT_ERRNO::SRT_EBINDCONFLICT => "Operation not supported: the address is in use by another socket"@,
            SRT_ERRNO::SRT_EASYNCFAIL => "Non-blocking call failure"@,
            SRT_ERRNO::SRT_EASYNCSND => "Non-blocking call failure: no buffer available for sending"@,
            SRT_ERRNO::SRT_EASYNCRCV => "Non-blocking call failure: no data available for reading"@,
            SRT_ERRNO::SRT_ETIMEOUT => "Non-blocking call failure: transmission timed out"@,
            SRT_ERRNO::SRT_ECONGEST => "Non-blocking call failure: early congestion notification"@,
            SRT_ERRNO::SRT_EPEERERR => "The peer side has signalled an error"@,
        }
    }

    /// The code's number.
    pub fn code(self) -> (r: i32)
        ensures
            r == self.code_spec(),
    {
        match self {
            SRT_ERRNO::SRT_EUNKNOWN => -1,
            SRT_ERRNO::SRT_SUCCESS => 0,
            SRT_ERRNO::SRT_ECONNSETUP => 1000,
            SRT_ERRNO::SRT_ENOSERVER => 1001,
            SRT_ERRNO::SRT_ECONNREJ => 1002,
            SRT_ERRNO::SRT_ESOCKFAIL => 1003,
            SRT_ERRNO::SRT_ESECFAIL => 1004,
            SRT_ERRNO::SRT_ESCLOSED => 1005,
            SRT_ERRNO::SRT_ECONNFAIL => 2000,
            SRT_ERRNO::SRT_ECONNLOST => 2001,
            SRT_ERRNO::SRT_ENOCONN => 2002,
            SRT_ERRNO::SRT_ERESOURCE => 3000,
            SRT_ERRNO::SRT_ETHREAD => 3001,
            SRT_ERRNO::SRT_ENOBUF => 3002,
            SRT_ERRNO::SRT_ESYSOBJ => 3003,
            SRT_ERRNO::SRT_EFILE => 4000,
            SRT_ERRNO::SRT_EINVRDOFF => 4001,
            SRT_ERRNO::SRT_ERDPERM => 4002,
            SRT_ERRNO::SRT_EINVWROFF => 4003,
            SRT_ERRNO::SRT_EWRPERM => 4004,
            SRT_ERRNO::SRT_EINVOP => 5000,
            SRT_ERRNO::SRT_EBOUNDSOCK => 5001,
            SRT_ERRNO::SRT_ECONNSOCK => 5002,
            SRT_ERRNO::SRT_EINVPARAM => 5003,
            SRT_ERRNO::SRT_EINVSOCK => 5004,
            SRT_ERRNO::SRT_EUNBOUNDSOCK => 5005,
            SRT_ERRNO::SRT_ENOLISTEN => 5006,
            SRT_ERRNO::SRT_ERDVNOSERV => 5007,
            SRT_ERRNO::SRT_ERDVUNBOUND => 5008,
            SRT_ERRNO::SRT_EINVALMSGAPI => 5009,
            SRT_ERRNO::SRT_EINVALBUFFERAPI => 5010,
            SRT_ERRNO::SRT_EDUPLISTEN => 5011,
            SRT_ERRNO::SRT_ELARGEMSG => 5012,
            SRT_ERRNO::SRT_EINVPOLLID => 5013,
            SRT_ERRNO::SRT_EPOLLEMPTY => 5014,
            SRT_ERRNO::SRT_EBINDCONFLICT => 5015,
            SRT_ERRNO::SRT_EASYNCFAIL => 6000,
            SRT_ERRNO::SRT_EASYNCSND => 6001,
            SRT_ERRNO::SRT_EASYNCRCV => 6002,
            SRT_ERRNO::SRT_ETIMEOUT => 6003,
            SRT_ERRNO::SRT_ECONGEST => 6004,
            SRT_ERRNO::SRT_EPEERERR => 7000,
        }
    }

    /// The code that a number stands for, if any.
    pub fn from_code(code: i32) -> (r: Option<SRT_ERRNO>)
        ensures
            match r {
                Some(e) => e.code_spec() == code,
                None => forall|e: SRT_ERRNO| e.code_spec() != code,
            },
    {
        match code {
            -1 => Some(SRT_ERRNO::SRT_EUNKNOWN),
            0 => Some(SRT_ERRNO::SRT_SUCCESS),
            1000 => Some(SRT_ERRNO::SRT_ECONNSETUP),
            1001 => Some(SRT_ERRNO::SRT_ENOSERVER),
            1002 => Some(SRT_ERRNO::SRT_ECONNREJ),
            1003 => Some(SRT_ERRNO::SRT_ESOCKFAIL),
            1004 => Some(SRT_ERRNO::SRT_ESECFAIL),
            1005 => Some(SRT_ERRNO::SRT_ESCLOSED),
            2000 => Some(SRT_ERRNO::SRT_ECONNFAIL),
            2001 => Some(SRT_ERRNO::SRT_ECONNLOST),
            2002 => Some(SRT_ERRNO::SRT_ENOCONN),
            3000 => Some(SRT_ERRNO::SRT_ERESOURCE),
            3001 => Some(SRT_ERRNO::SRT_ETHREAD),
            3002 => Some(SRT_ERRNO::SRT_ENOBUF),
            3003 => Some(SRT_ERRNO::SRT_ESYSOBJ),
            4000 => Some(SRT_ERRNO::SRT_EFILE),
            4001 => Some(SRT_ERRNO::SRT_EINVRDOFF),
            4002 => Some(SRT_ERRNO::SRT_ERDPERM),
            4003 => Some(SRT_ERRNO::SRT_EINVWROFF),
            4004 => Some(SRT_ERRNO::SRT_EWRPERM),
            5000 => Some(SRT_ERRNO::SRT_EINVOP),
            5001 => Some(SRT_ERRNO::SRT_EBOUNDSOCK),
            5002 => Some(SRT_ERRNO::SRT_ECONNSOCK),
            5003 => Some(SRT_ERRNO::SRT_EINVPARAM),
            5004 => Some(SRT_ERRNO::SRT_EINVSOCK),
            5005 => Some(SRT_ERRNO::SRT_EUNBOUNDSOCK),
            5006 => Some(SRT_ERRNO::SRT_ENOLISTEN),
            5007 => Some(SRT_ERRNO::SRT_ERDVNOSERV),
            5008 => Some(SRT_ERRNO::SRT_ERDVUNBOUND),
            5009 => Some(SRT_ERRNO::SRT_EINVALMSGAPI),
            5010 => Some(SRT_ERRNO::SRT_EINVALBUFFERAPI),
            5011 => Some(SRT_ERRNO::SRT_EDUPLISTEN),
            5012 => Some(SRT_ERRNO::SRT_ELARGEMSG),
            5013 => Some(SRT_ERRNO::SRT_EINVPOLLID),
            5014 => Some(SRT_ERRNO::SRT_EPOLLEMPTY),
            5015 => Some(SRT_ERRNO::SRT_EBINDCONFLICT),
            6000 => Some(SRT_ERRNO::SRT_EASYNCFAIL),
            6001 => Some(SRT_ERRNO::SRT_EASYNCSND),
            6002 => Some(SRT_ERRNO::SRT_EASYNCRCV),
            6003 => Some(SRT_ERRNO::SRT_ETIMEOUT),
            6004 => Some(SRT_ERRNO::SRT_ECONGEST),
            7000 => Some(SRT_ERRNO::SRT_EPEERERR),
            _ => None,
        }
    }

    /// The code's describing text, as an owned string.
    pub fn describe(self) -> (r: String)
        ensures
            r@ == self.message(),
    {
        match self {
            SRT_ERRNO::SRT_EUNKNOWN => String::from_str("Unknown error"),
            SRT_ERRNO::SRT_SUCCESS => String::from_str("Success"),
            SRT_ERRNO::SRT_ECONNSETUP => String::from_str("Connection setup failure"),
            SRT_ERRNO::SRT_ENOSERVER => String::from_str("Connection setup failure: connection timed out"),
            SRT_ERRNO::SRT_ECONNREJ => String::from_str("Connection setup failure: connection rejected"),
            SRT_ERRNO::SRT_ESOCKFAIL => String::from_str("Connection setup failure: unable to create or configure the underlying socket"),
            SRT_ERRNO::SRT_ESECFAIL => String::from_str("Connection setup failure: aborted for security reasons"),
            SRT_ERRNO::SRT_ESCLOSED => String::from_str("Connection setup failure: socket closed during operation"),
            SRT_ERRNO::SRT_ECONNFAIL => String::from_str("Connection failure"),
            SRT_ERRNO::SRT_ECONNLOST => String::from_str("Connection was broken"),
            SRT_ERRNO::SRT_ENOCONN => String::from_str("Connection does not exist"),
            SRT_ERRNO::SRT_ERESOURCE => String::from_str("System resource failure"),
            SRT_ERRNO::SRT_ETHREAD => String::from_str("System resource failure: unable to create a new thread"),
            SRT_ERRNO::SRT_ENOBUF => String::from_str("System resource failure: unable to allocate buffers"),
            SRT_ERRNO::SRT_ESYSOBJ => String::from_str("System resource failure: unable to allocate a system object"),
            SRT_ERRNO::SRT_EFILE => String::from_str("File system failure"),
            SRT_ERRNO::SRT_EINVRDOFF => String::from_str("File system failure: cannot seek read position"),
            SRT_ERRNO::SRT_ERDPERM => String::from_str("File system failure: failure in read"),
            SRT_ERRNO::SRT_EINVWROFF => String::from_str("File system failure: cannot seek write position"),
            SRT_ERRNO::SRT_EWRPERM => String::from_str("File system failure: failure in write"),
            SRT_ERRNO::SRT_EINVOP => String::from_str("Operation not supported"),
            SRT_ERRNO::SRT_EBOUNDSOCK => String::from_str("Operation not supported: cannot do this operation on a bound socket"),
            SRT_ERRNO::SRT_ECONNSOCK => String::from_str("Operation not supported: cannot do this operation on a connected socket"),
            SRT_ERRNO::SRT_EINVPARAM => String::from_str("Operation not supported: bad parameters"),
            SRT_ERRNO::SRT_EINVSOCK => String::from_str("Operation not supported: invalid socket ID"),
            SRT_ERRNO::SRT_EUNBOUNDSOCK => String::from_str("Operation not supported: cannot do this operation on an unbound socket"),
            SRT_ERRNO::SRT_ENOLISTEN => String::from_str("Operation not supported: socket is not in listening state"),
            SRT_ERRNO::SRT_ERDVNOSERV => String::from_str("Operation not supported: listen and accept are not supported in rendezvous mode"),
            SRT_ERRNO::SRT_ERDVUNBOUND => String::from_str("Operation not supported: cannot connect an unbound socket in rendezvous mode"),
            SRT_ERRNO::SRT_EINVALMSGAPI => String::from_str("Operation not supported: incorrect use of the message API"),
            SRT_ERRNO::SRT_EINVALBUFFERAPI => String::from_str("Operation not supported: incorrect use of the buffer API"),
            SRT_ERRNO::SRT_EDUPLISTEN => String::from_str("Operation not supported: another socket is already listening on this port"),
            SRT_ERRNO::SRT_ELARGEMSG => String::from_str("Operation not supported: message is too large to send"),
            SRT_ERRNO::SRT_EINVPOLLID => String::from_str("Operation not supported: invalid epoll ID"),
            SRT_ERRNO::SRT_EPOLLEMPTY => String::from_str("Operation not supported: all subscribers were removed from the epoll container"),
            SRT_ERRNO::SRT_EBINDCONFLICT => String::from_str("Operation not supported: the address is in use by another socket"),
            SRT_ERRNO::SRT_EASYNCFAIL => String::from_str("Non-blocking call failure"),
            SRT_ERRNO::SRT_EASYNCSND => String::from_str("Non-blocking call failure: no buffer available for sending"),
            SRT_ERRNO::SRT_EASYNCRCV => String::from_str("Non-blocking call failure: no data available for reading"),
            SRT_ERRNO::SRT_ETIMEOUT => String::from_str("Non-blocking call failure: transmission timed out"),
            SRT_ERRNO::SRT_ECONGEST => String::from_str("Non-blocking call failure: early congestion notification"),
            SRT_ERRNO::SRT_EPEERERR => String::from_str("The peer side has signalled an error"),
        }
    }
}

/// Distinct codes have distinct numbers.
pub proof fn code_is_injective(a: SRT_ERRNO, b: SRT_ERRNO)
    requires
        a.code_spec() == b.code_spec(),
    ensures
        a == b,
{
}

/// What a failed boundary operation reports: a code and a human-readable cause.
#[derive(Debug)]
pub struct Failure {
    pub code: SRT_ERRNO,
    pub message: String,
}

impl Failure {
    /// This failure carries `code` and exactly the text `message`.
    pub open spec fn is(self, code: SRT_ERRNO, message: Seq<char>) -> bool {
        self.code == code && self.message@ == message
    }

    /// This failure carries `code` with the code's own describing text.
    pub open spec fn is_plain(self, code: SRT_ERRNO) -> bool {
        self.is(code, code.message())
    }

    /// A failure described by its code alone.
    pub fn plain(code: SRT_ERRNO) -> (r: Failure)
        ensures
            r.is_plain(code),
    {
        Failure { code, message: code.describe() }
    }

    /// A failure with a cause text of the operation's own.
    pub fn new(code: SRT_ERRNO, message: String) -> (r: Failure)
        ensures
            r.is(code, message@),
    {
        Failure { code, message }
    }

    /// A failure whose text is `context` followed by the text of an underlying
    /// cause.
    pub fn caused(code: SRT_ERRNO, context: &str, cause: &str) -> (r: Failure)
        ensures
            r.is(code, context@ + cause@),
    {
        Failure { code, message: String::from_str(context).concat(cause) }
    }
}

/// Why an option could not be set or read.
#[derive(Clone, Copy, Debug, PartialEq, Eq, Structural)]
pub enum OptionError {
    /// The request was understood and refused, with this code.
    Rejected(SRT_ERRNO),
    /// No rule names this option: it can be neither set nor read.
    Unimplemented,
}

impl OptionError {
    /// What is reported at the boundary for this refusal: the code of a
    /// request that was refused, with the code's own text; for what is not
    /// implemented, "operation not supported" with a text that says so.
    pub open spec fn reported(self, f: Failure) -> bool {
        match self {
            OptionError::Rejected(code) => f.is_plain(code),
            OptionError::Unimplemented => f.is(
                SRT_ERRNO::SRT_EINVOP,
                "Operation not supported: this option is not implemented"@,
            ),
        }
    }

    /// The failure to report for this refusal.
    pub fn failure(self) -> (r: Failure)
        ensures
            self.reported(r),
    {
        match self {
            OptionError::Rejected(code) => Failure::plain(code),
            OptionError::Unimplemented => Failure::new(
                SRT_ERRNO::SRT_EINVOP,
                String::from_str("Operation not supported: this option is not implemented"),
            ),
        }
    }
}

/// The error channel of one calling thread: the code and the text of the
/// last failure that a boundary operation reported on it.
#[derive(Debug)]
pub struct LastError {
    code: SRT_ERRNO,
    message: String,
}

impl LastError {
    /// The code of the last failure.
    pub closed spec fn last_code(&self) -> SRT_ERRNO {
        self.code
    }

    /// The text of the last failure.
    pub closed spec fn last_message(&self) -> Seq<char> {
        self.message@
    }

    /// The channel of a thread on which nothing has failed yet.
    pub fn new() -> (r: LastError)
        ensures
            r.last_code() == SRT_ERRNO::SRT_SUCCESS,
            r.last_message() == "(no error set on this thread)"@,
    {
        LastError {
            code: SRT_ERRNO::SRT_SUCCESS,
            message: String::from_str("(no error set on this thread)"),
        }
    }

    /// Ends a boundary operation. One that failed overwrites the channel with
    /// its code and text, and the caller gets the failure status. One that
    /// succeeded hands its value on and leaves the channel as it is: an
    /// earlier failure stays on record.
    pub fn report(&mut self, outcome: Result<i32, Failure>) -> (r: i32)
        ensures
            match outcome {
                Ok(value) => r == value && *final(self) == *old(self),
                Err(f) => {
                    &&& r == SRT_ERROR
                    &&& final(self).last_code() == f.code
                    &&& final(self).last_message() == f.message@
                },
            },
    {
        match outcome {
            Ok(value) => value,
            Err(f) => set_error_fmt(self, f.code, f.message),
        }
    }
}

/// Records a failure with a text of its own. Gives the failure status.
pub fn set_error_fmt(last: &mut LastError, err: SRT_ERRNO, args: String) -> (r: i32)
    ensures
        r == SRT_ERROR,
        final(last).last_code() == err,
        final(last).last_message() == args@,
{
    last.message = args;
    last.code = err;
    SRT_ERROR
}

/// Records a failure that its code describes. Gives the failure status.
pub fn set_error(last: &mut LastError, err: SRT_ERRNO) -> (r: i32)
    ensures
        r == SRT_ERROR,
        final(last).last_code() == err,
        final(last).last_message() == err.message(),
{
    set_error_fmt(last, err, err.describe())
}

/// The number of the last failure's code.
pub fn srt_getlasterror(last: &LastError) -> (r: i32)
    ensures
        r == last.last_code().code_spec(),
{
    last.code.code()
}

/// The text of the last failure.
pub fn srt_getlasterror_str(last: &LastError) -> (r: &str)
    ensures
        r@ == last.last_message(),
{
    last.message.as_str()
}

} // verus!
