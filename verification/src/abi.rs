//! The enumerations and constants that the socket API shares with its
//! callers, each with the number that stands for it at the foreign boundary.
use vstd::prelude::*;
use crate::settings::SRTSOCKET;

verus! {

/// Log level: the system is unusable.
pub const LOG_EMERG: i32 = 0;

/// Log level: action must be taken at once.
pub const LOG_ALERT: i32 = 1;

/// Log level: critical conditions.
pub const LOG_CRIT: i32 = 2;

/// Log level: error conditions.
pub const LOG_ERR: i32 = 3;

/// Log level: warning conditions.
pub const LOG_WARNING: i32 = 4;

/// Log level: normal but significant conditions.
pub const LOG_NOTICE: i32 = 5;

/// Log level: informational.
pub const LOG_INFO: i32 = 6;

/// Log level: debug messages.
pub const LOG_DEBUG: i32 = 7;

/// The kinds of transmission that a socket can be set up for.
#[derive(Clone, Copy, Debug, PartialEq, Eq, Structural)]
pub enum SRT_TRANSTYPE {
    /// Live streaming.
    SRTT_LIVE,
    /// File transfer.
    SRTT_FILE,
    /// No valid kind.
    SRTT_INVALID,
}

impl SRT_TRANSTYPE {
    /// The number that stands for this value at the foreign boundary.
    pub open spec fn code_spec(self) -> int {
        match self {
            SRT_TRANSTYPE::SRTT_LIVE => 0,
            SRT_TRANSTYPE::SRTT_FILE => 1,
            SRT_TRANSTYPE::SRTT_INVALID => 2,
        }
    }

    pub fn code(self) -> (r: i32)
        ensures
            r == self.code_spec(),
    {
        match self {
            SRT_TRANSTYPE::SRTT_LIVE => 0,
            SRT_TRANSTYPE::SRTT_FILE => 1,
            SRT_TRANSTYPE::SRTT_INVALID => 2,
        }
    }

    /// The value that a number stands for, if any.
    pub fn from_code(code: i32) -> (r: Option<SRT_TRANSTYPE>)
        ensures
            match r {
                Some(v) => v.code_spec() == code,
                None => forall|v: SRT_TRANSTYPE| v.code_spec() != code,
            },
    {
        match code {
            0 => Some(SRT_TRANSTYPE::SRTT_LIVE),
            1 => Some(SRT_TRANSTYPE::SRTT_FILE),
            2 => Some(SRT_TRANSTYPE::SRTT_INVALID),
            _ => None,
        }
    }
}

/// The readiness events that a socket can be watched for; each is one bit of a mask.
#[derive(Clone, Copy, Debug, PartialEq, Eq, Structural)]
pub enum SRT_EPOLL_OPT {
    /// No event.
    SRT_EPOLL_OPT_NONE,
    /// Ready to receive; on a listener: a connection waits to be accepted.
    SRT_EPOLL_IN,
    /// Ready to send; on a connecting socket: the connection is established.
    SRT_EPOLL_OUT,
    /// The last operation failed, and the next one will.
    SRT_EPOLL_ERR,
    /// The socket's set of events was updated.
    SRT_EPOLL_UPDATE,
    /// Report each event once, when it arises.
    SRT_EPOLL_ET,
}

impl SRT_EPOLL_OPT {
    /// The number that stands for this value at the foreign boundary.
    pub open spec fn code_spec(self) -> int {
        match self {
            SRT_EPOLL_OPT::SRT_EPOLL_OPT_NONE => 0,
            SRT_EPOLL_OPT::SRT_EPOLL_IN => 1,
            SRT_EPOLL_OPT::SRT_EPOLL_OUT => 4,
            SRT_EPOLL_OPT::SRT_EPOLL_ERR => 8,
            SRT_EPOLL_OPT::SRT_EPOLL_UPDATE => 16,
            SRT_EPOLL_OPT::SRT_EPOLL_ET => 2147483648,
        }
    }

    pub fn code(self) -> (r: u32)
        ensures
            r == self.code_spec(),
    {
        match self {
            SRT_EPOLL_OPT::SRT_EPOLL_OPT_NONE => 0,
            SRT_EPOLL_OPT::SRT_EPOLL_IN => 1,
            SRT_EPOLL_OPT::SRT_EPOLL_OUT => 4,
            SRT_EPOLL_OPT::SRT_EPOLL_ERR => 8,
            SRT_EPOLL_OPT::SRT_EPOLL_UPDATE => 16,
            SRT_EPOLL_OPT::SRT_EPOLL_ET => 2147483648,
        }
    }

    /// The value that a number stands for, if any.
    pub fn from_code(code: u32) -> (r: Option<SRT_EPOLL_OPT>)
        ensures
            match r {
                Some(v) => v.code_spec() == code,
                None => forall|v: SRT_EPOLL_OPT| v.code_spec() != code,
            },
    {
        match code {
            0 => Some(SRT_EPOLL_OPT::SRT_EPOLL_OPT_NONE),
            1 => Some(SRT_EPOLL_OPT::SRT_EPOLL_IN),
            4 => Some(SRT_EPOLL_OPT::SRT_EPOLL_OUT),
            8 => Some(SRT_EPOLL_OPT::SRT_EPOLL_ERR),
            16 => Some(SRT_EPOLL_OPT::SRT_EPOLL_UPDATE),
            2147483648 => Some(SRT_EPOLL_OPT::SRT_EPOLL_ET),
            _ => None,
        }
    }
}

/// The states that a socket reports of itself.
#[derive(Clone, Copy, Debug, PartialEq, Eq, Structural)]
pub enum SRT_SOCKSTATUS {
    SRTS_INIT,
    SRTS_OPENED,
    SRTS_LISTENING,
    SRTS_CONNECTING,
    SRTS_CONNECTED,
    SRTS_BROKEN,
    SRTS_CLOSING,
    SRTS_CLOSED,
    SRTS_NONEXIST,
}

impl SRT_SOCKSTATUS {
    /// The number that stands for this value at the foreign boundary.
    pub open spec fn code_spec(self) -> int {
        match self {
            SRT_SOCKSTATUS::SRTS_INIT => 1,
            SRT_SOCKSTATUS::SRTS_OPENED => 2,
            SRT_SOCKSTATUS::SRTS_LISTENING => 3,
            SRT_SOCKSTATUS::SRTS_CONNECTING => 4,
            SRT_SOCKSTATUS::SRTS_CONNECTED => 5,
            SRT_SOCKSTATUS::SRTS_BROKEN => 6,
            SRT_SOCKSTATUS::SRTS_CLOSING => 7,
            SRT_SOCKSTATUS::SRTS_CLOSED => 8,
            SRT_SOCKSTATUS::SRTS_NONEXIST => 9,
        }
    }

    pub fn code(self) -> (r: i32)
        ensures
            r == self.code_spec(),
    {
        match self {
            SRT_SOCKSTATUS::SRTS_INIT => 1,
            SRT_SOCKSTATUS::SRTS_OPENED => 2,
            SRT_SOCKSTATUS::SRTS_LISTENING => 3,
            SRT_SOCKSTATUS::SRTS_CONNECTING => 4,
            SRT_SOCKSTATUS::SRTS_CONNECTED => 5,
            SRT_SOCKSTATUS::SRTS_BROKEN => 6,
            SRT_SOCKSTATUS::SRTS_CLOSING => 7,
            SRT_SOCKSTATUS::SRTS_CLOSED => 8,
            SRT_SOCKSTATUS::SRTS_NONEXIST => 9,
        }
    }

    /// The value that a number stands for, if any.
    pub fn from_code(code: i32) -> (r: Option<SRT_SOCKSTATUS>)
        ensures
            match r {
                Some(v) => v.code_spec() == code,
                None => forall|v: SRT_SOCKSTATUS| v.code_spec() != code,
            },
    {
        match code {
            1 => Some(SRT_SOCKSTATUS::SRTS_INIT),
            2 => Some(SRT_SOCKSTATUS::SRTS_OPENED),
            3 => Some(SRT_SOCKSTATUS::SRTS_LISTENING),
            4 => Some(SRT_SOCKSTATUS::SRTS_CONNECTING),
            5 => Some(SRT_SOCKSTATUS::SRTS_CONNECTED),
            6 => Some(SRT_SOCKSTATUS::SRTS_BROKEN),
            7 => Some(SRT_SOCKSTATUS::SRTS_CLOSING),
            8 => Some(SRT_SOCKSTATUS::SRTS_CLOSED),
            9 => Some(SRT_SOCKSTATUS::SRTS_NONEXIST),
            _ => None,
        }
    }
}

/// The states of the exchange of key material.
#[derive(Clone, Copy, Debug, PartialEq, Eq, Structural)]
pub enum SRT_KM_STATE {
    /// No encryption.
    SRT_KM_S_UNSECURED,
    /// The stream is encrypted, and key material is being exchanged.
    SRT_KM_S_SECURING,
    /// The stream is encrypted, and key material was exchanged.
    SRT_KM_S_SECURED,
    /// The stream is encrypted, and there is no secret to decrypt the key material with.
    SRT_KM_S_NOSECRET,
    /// The stream is encrypted, and the secret does not decrypt the key material.
    SRT_KM_S_BADSECRET,
}

impl SRT_KM_STATE {
    /// The number that stands for this value at the foreign boundary.
    pub open spec fn code_spec(self) -> int {
        match self {
            SRT_KM_STATE::SRT_KM_S_UNSECURED => 0,
            SRT_KM_STATE::SRT_KM_S_SECURING => 1,
            SRT_KM_STATE::SRT_KM_S_SECURED => 2,
            SRT_KM_STATE::SRT_KM_S_NOSECRET => 3,
            SRT_KM_STATE::SRT_KM_S_BADSECRET => 4,
        }
    }

    pub fn code(self) -> (r: i32)
        ensures
            r == self.code_spec(),
    {
        match self {
            SRT_KM_STATE::SRT_KM_S_UNSECURED => 0,
            SRT_KM_STATE::SRT_KM_S_SECURING => 1,
            SRT_KM_STATE::SRT_KM_S_SECURED => 2,
            SRT_KM_STATE::SRT_KM_S_NOSECRET => 3,
            SRT_KM_STATE::SRT_KM_S_BADSECRET => 4,
        }
    }

    /// The value that a number stands for, if any.
    pub fn from_code(code: i32) -> (r: Option<SRT_KM_STATE>)
        ensures
            match r {
                Some(v) => v.code_spec() == code,
                None => forall|v: SRT_KM_STATE| v.code_spec() != code,
            },
    {
        match code {
            0 => Some(SRT_KM_STATE::SRT_KM_S_UNSECURED),
            1 => Some(SRT_KM_STATE::SRT_KM_S_SECURING),
            2 => Some(SRT_KM_STATE::SRT_KM_S_SECURED),
            3 => Some(SRT_KM_STATE::SRT_KM_S_NOSECRET),
            4 => Some(SRT_KM_STATE::SRT_KM_S_BADSECRET),
            _ => None,
        }
    }
}

/// The event that tells of a connection that is established.
pub const SRT_EPOLL_CONNECT: SRT_EPOLL_OPT = SRT_EPOLL_OPT::SRT_EPOLL_OUT;

/// The event that tells of a connection that waits to be accepted.
pub const SRT_EPOLL_ACCEPT: SRT_EPOLL_OPT = SRT_EPOLL_OPT::SRT_EPOLL_IN;

/// One socket with the events that are ready on it, as a bit mask.
#[derive(Clone, Copy, Debug, PartialEq, Eq, Structural)]
pub struct SRT_EPOLL_EVENT {
    pub fd: SRTSOCKET,
    pub events: i32,
}

} // verus!
