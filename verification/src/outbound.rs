//! The write side: one accepted write is one outgoing message.

use vstd::prelude::*;
use crate::inbound::Poll;
use crate::state::{Error, ReadyState};

verus! {

/// One frame of the message transport.
#[derive(Debug, PartialEq, Eq)]
pub enum Frame {
    Binary(Vec<u8>),
    Text(String),
    Ping(Vec<u8>),
    Pong(Vec<u8>),
    Close,
    Other,
}

impl Frame {
    /// Whether the frame carries payload bytes of this layer.
    pub open spec fn is_binary(&self) -> bool {
        self is Binary
    }

    /// Whether the frame carries payload bytes of this layer.
    pub fn is_binary_frame(&self) -> (r: bool)
        ensures
            r == self.is_binary(),
    {
        match self {
            Frame::Binary(_) => true,
            _ => false,
        }
    }

    /// The frame that carries `data`.
    pub fn binary(data: Vec<u8>) -> (r: Frame)
        ensures
            r == Frame::Binary(data),
    {
        Frame::Binary(data)
    }

    /// The bytes of an outgoing frame. Only binary frames are sent by this
    /// layer.
    pub fn into_payload(self) -> (r: Vec<u8>)
        requires
            self.is_binary(),
        ensures
            self == Frame::Binary(r),
    {
        match self {
            Frame::Binary(data) => data,
            _ => Vec::new(),
        }
    }

    /// The arrival that a frame from the peer stands for: its bytes where it is
    /// binary, a transport failure for any other kind.
    pub fn into_arrival(self) -> (r: Result<Vec<u8>, Error>)
        ensures
            match self {
                Frame::Binary(data) => r == Ok::<Vec<u8>, Error>(data),
                _ => r is Err && r->Err_0 is Transport
                    && r->Err_0->Transport_0@ == "unexpected frame kind"@,
            },
    {
        match self {
            Frame::Binary(data) => Ok(data),
            _ => {
                proof {
                    reveal_strlit("unexpected frame kind");
                }
                Err(Error::Transport("unexpected frame kind".to_string()))
            },
        }
    }
}

/// What leaves for the peer when `data` is written while the handle reports
/// `ready_state`: `data` as one message while it is open, and else nothing, with
/// the failure `ConnectionClosed`.
pub open spec fn outgoing(ready_state: ReadyState, data: Seq<u8>) -> Result<Seq<u8>, Error> {
    if ready_state == ReadyState::Open {
        Ok(data)
    } else {
        Err(Error::ConnectionClosed)
    }
}

/// A result of `start_send` as plain values.
pub open spec fn sent_view(r: Result<Vec<u8>, Error>) -> Result<Seq<u8>, Error> {
    match r {
        Ok(message) => Ok(message@),
        Err(e) => Err(e),
    }
}

/// The write half of a connection. It holds no buffer: what it accepts leaves
/// at once, as one message.
#[derive(Debug)]
pub struct WebClientSink {}

impl WebClientSink {
    /// A write half.
    pub fn new() -> (r: WebClientSink) {
        WebClientSink {  }
    }

    /// Whether a write would be accepted: exactly while the handle is open.
    /// The answer never waits.
    pub fn poll_ready(&self, ready_state: ReadyState) -> (r: Poll<Result<(), Error>>)
        ensures
            ready_state == ReadyState::Open ==> r == Poll::Ready(Ok::<(), Error>(())),
            ready_state != ReadyState::Open ==> r == Poll::Ready(
                Err::<(), Error>(Error::ConnectionClosed),
            ),
    {
        if ready_state.is_open() {
            Poll::Ready(Ok(()))
        } else {
            Poll::Ready(Err(Error::ConnectionClosed))
        }
    }

    /// Accepts `data` while the handle is open and hands back the one message
    /// to put on the wire, which is `data` itself, whole and alone. While the
    /// handle is not open the write fails with `ConnectionClosed`. The answer
    /// never waits, and nothing is kept of the write.
    pub fn start_send(&self, ready_state: ReadyState, data: Vec<u8>) -> (r: Result<Vec<u8>, Error>)
        ensures
            sent_view(r) == outgoing(ready_state, data@),
            r is Ok ==> r == Ok::<Vec<u8>, Error>(data),
    {
        if ready_state.is_open() {
            Ok(data)
        } else {
            Err(Error::ConnectionClosed)
        }
    }

    /// Nothing is ever held back, so there is nothing to flush.
    pub fn poll_flush(&self) -> (r: Poll<Result<(), Error>>)
        ensures
            r == Poll::Ready(Ok::<(), Error>(())),
    {
        Poll::Ready(Ok(()))
    }

    /// Closing the write half does nothing: the handle is closed when its last
    /// owner lets go.
    pub fn poll_close(&self) -> (r: Poll<Result<(), Error>>)
        ensures
            r == Poll::Ready(Ok::<(), Error>(())),
    {
        Poll::Ready(Ok(()))
    }
}

} // verus!
