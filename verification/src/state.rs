//! Ready states of a connection handle and the failures this layer reports.

use vstd::prelude::*;

verus! {

/// Code the host reports while the handshake is still running.
pub const CONNECTING: u16 = 0;

/// Code the host reports once messages can flow.
pub const OPEN: u16 = 1;

/// Code the host reports while the closing handshake is running.
pub const CLOSING: u16 = 2;

/// Code the host reports once the connection is gone.
pub const CLOSED: u16 = 3;

/// Where a connection handle stands in its life.
#[derive(Clone, Copy, Debug, PartialEq, Eq, Structural)]
pub enum ReadyState {
    Connecting,
    Open,
    Closing,
    Closed,
}

impl ReadyState {
    /// The state that a host code stands for, if it stands for one.
    pub open spec fn of_code(code: u16) -> Option<ReadyState> {
        if code == CONNECTING {
            Some(ReadyState::Connecting)
        } else if code == OPEN {
            Some(ReadyState::Open)
        } else if code == CLOSING {
            Some(ReadyState::Closing)
        } else if code == CLOSED {
            Some(ReadyState::Closed)
        } else {
            None
        }
    }

    /// The host code of a state.
    pub open spec fn code_of(self) -> u16 {
        match self {
            ReadyState::Connecting => CONNECTING,
            ReadyState::Open => OPEN,
            ReadyState::Closing => CLOSING,
            ReadyState::Closed => CLOSED,
        }
    }

    /// Reads a host code; codes other than the four known ones give `None`.
    pub fn from_code(code: u16) -> (r: Option<ReadyState>)
        ensures
            r == Self::of_code(code),
    {
        if code == CONNECTING {
            Some(ReadyState::Connecting)
        } else if code == OPEN {
            Some(ReadyState::Open)
        } else if code == CLOSING {
            Some(ReadyState::Closing)
        } else if code == CLOSED {
            Some(ReadyState::Closed)
        } else {
            None
        }
    }

    /// The host code of this state.
    pub fn code(self) -> (r: u16)
        ensures
            r == self.code_of(),
            Self::of_code(r) == Some(self),
    {
        match self {
            ReadyState::Connecting => CONNECTING,
            ReadyState::Open => OPEN,
            ReadyState::Closing => CLOSING,
            ReadyState::Closed => CLOSED,
        }
    }

    /// Whether messages can be sent in this state.
    pub fn is_open(self) -> (r: bool)
        ensures
            r == (self == ReadyState::Open),
    {
        match self {
            ReadyState::Open => true,
            _ => false,
        }
    }
}

/// What can go wrong on a connection.
#[derive(Clone, Debug, PartialEq, Eq)]
pub enum Error {
    /// A send or an establishment attempt found the handle not open.
    ConnectionClosed,
    /// The message transport reported a protocol violation or an I/O fault.
    Transport(String),
    /// The host refused to construct the connection object.
    HostBinding(String),
}

impl Error {
    /// A one-line description of the failure.
    pub fn message(&self) -> (r: String)
        ensures
            r@ == self.message_text(),
    {
        match self {
            Error::ConnectionClosed => {
                proof {
                    reveal_strlit("connection closed");
                }
                "connection closed".to_string()
            },
            Error::Transport(text) => text.clone(),
            Error::HostBinding(text) => text.clone(),
        }
    }

    /// The text that `message` returns.
    pub open spec fn message_text(&self) -> Seq<char> {
        match self {
            Error::ConnectionClosed => "connection closed"@,
            Error::Transport(text) => text@,
            Error::HostBinding(text) => text@,
        }
    }
}

} // verus!
