//! The duplex connection: a write half and a byte-stream read half over one
//! client, and the one close of the handle when both halves are gone.

use vstd::prelude::*;
use crate::establish::{ClientView, WebClient};
use crate::inbound::{Poll, QueueView};
use crate::outbound::{outgoing, sent_view, Frame, WebClientSink};
use crate::reader::{
    bytes_ahead, lemma_reads_yield_all_bytes, queued_bytes, read_rounds, read_step, read_view,
    ByteStreamView, ReadAnswer,
};
use crate::registry::Ws;
use crate::state::{Error, ReadyState};

verus! {

/// A connection that reads and writes bytes in order.
#[derive(Debug)]
pub struct WsConnection {
    client: WebClient,
    sink: WebClientSink,
    reader: ByteStreamView,
    writer_alive: bool,
    reader_alive: bool,
    addr: Option<String>,
}

/// What a connection holds, as plain values.
pub struct ConnectionView {
    pub client: ClientView,
    pub chunk: Seq<u8>,
    pub writer_alive: bool,
    pub reader_alive: bool,
    pub addr: Option<Seq<char>>,
}

/// The number of halves among two that are still there.
pub open spec fn halves(writer_alive: bool, reader_alive: bool) -> nat {
    (if writer_alive { 1nat } else { 0nat }) + (if reader_alive { 1nat } else { 0nat })
}

impl ConnectionView {
    /// Each half that is there owns the registration once, and nothing else
    /// owns it.
    pub open spec fn wf(self) -> bool {
        self.client.owners == halves(self.writer_alive, self.reader_alive)
    }

    /// The connection made of `client`: a client that is held, and can be held
    /// once more, gets both halves, which share it; any other gets none.
    pub open spec fn of_client(client: ClientView, addr: Option<Seq<char>>) -> ConnectionView {
        let alive = 0 < client.owners < usize::MAX;
        ConnectionView {
            client: ClientView {
                owners: client.owners + if alive { 1nat } else { 0nat },
                ..client
            },
            chunk: Seq::empty(),
            writer_alive: alive,
            reader_alive: alive,
            addr,
        }
    }

    /// The connection after the write half went, and whether the handle is to
    /// be closed now.
    pub open spec fn drop_writer(self) -> (ConnectionView, bool) {
        if self.writer_alive {
            (
                ConnectionView { client: self.client.released(), writer_alive: false, ..self },
                self.client.owners == 1,
            )
        } else {
            (self, false)
        }
    }

    /// The connection after the read half went, and whether the handle is to
    /// be closed now.
    pub open spec fn drop_reader(self) -> (ConnectionView, bool) {
        if self.reader_alive {
            (
                ConnectionView { client: self.client.released(), reader_alive: false, ..self },
                self.client.owners == 1,
            )
        } else {
            (self, false)
        }
    }

    /// The answer to a read of up to `wanted` bytes.
    pub open spec fn read_answer(self, wanted: nat) -> ReadAnswer {
        if self.reader_alive {
            read_step(self.chunk, self.client.queue, wanted).0
        } else {
            Poll::Ready(Ok(Seq::empty()))
        }
    }

    /// The connection after a read of up to `wanted` bytes.
    pub open spec fn after_read(self, wanted: nat) -> ConnectionView {
        if self.reader_alive {
            ConnectionView {
                chunk: read_step(self.chunk, self.client.queue, wanted).1,
                client: ClientView {
                    queue: read_step(self.chunk, self.client.queue, wanted).2,
                    ..self.client
                },
                ..self
            }
        } else {
            self
        }
    }

    /// What leaves for the peer on a write of `data`.
    pub open spec fn write_answer(self, ready_state: ReadyState, data: Seq<u8>) -> Result<
        Seq<u8>,
        Error,
    > {
        if self.writer_alive {
            outgoing(ready_state, data)
        } else {
            Err(Error::ConnectionClosed)
        }
    }
}

impl View for WsConnection {
    type V = ConnectionView;

    closed spec fn view(&self) -> ConnectionView {
        ConnectionView {
            client: self.client@,
            chunk: self.reader@,
            writer_alive: self.writer_alive,
            reader_alive: self.reader_alive,
            addr: match self.addr {
                Some(a) => Some(a@),
                None => None,
            },
        }
    }
}

fn compose(client: WebClient, addr: Option<String>) -> (r: WsConnection)
    ensures
        r@.client == ConnectionView::of_client(client@, None).client,
        r@.chunk == Seq::<u8>::empty(),
        r@.writer_alive == (0 < client@.owners < usize::MAX),
        r@.reader_alive == r@.writer_alive,
        match addr {
            Some(a) => r@.addr == Some(a@),
            None => r@.addr.is_none(),
        },
{
    let mut client = client;
    let alive = client.share();
    WsConnection {
        client,
        sink: WebClientSink::new(),
        reader: ByteStreamView::new(),
        writer_alive: alive,
        reader_alive: alive,
        addr,
    }
}

/// Makes the connection of a settled establishment: both halves share the
/// client's registration, and there is no peer address. A client that was
/// already released gives a connection without halves.
pub fn connect(client: WebClient) -> (r: WsConnection)
    ensures
        r@ == ConnectionView::of_client(client@, None),
        client@.owners <= 1 ==> r@.wf(),
{
    compose(client, None)
}

/// Makes the connection of an accepted socket: as `connect` does, with the
/// peer's address.
pub fn accepted(client: WebClient, addr: String) -> (r: WsConnection)
    ensures
        r@ == ConnectionView::of_client(client@, Some(addr@)),
        client@.owners <= 1 ==> r@.wf(),
{
    compose(client, Some(addr))
}

impl WsConnection {
    /// The peer's address, where the connection carries one.
    pub fn peer_addr(&self) -> (r: Option<String>)
        ensures
            match r {
                Some(a) => self@.addr == Some(a@),
                None => self@.addr.is_none(),
            },
    {
        match &self.addr {
            Some(a) => Some(a.clone()),
            None => None,
        }
    }

    /// The callback slots of the handle as they stand.
    pub fn ws(&self) -> (r: Ws)
        ensures
            r == self@.client.ws,
    {
        self.client.ws()
    }

    /// Whether a write would be accepted: while the handle is open and the
    /// write half is there. The answer never waits.
    pub fn poll_ready(&self, ready_state: ReadyState) -> (r: Poll<Result<(), Error>>)
        ensures
            self@.writer_alive && ready_state == ReadyState::Open ==> r == Poll::Ready(
                Ok::<(), Error>(()),
            ),
            !(self@.writer_alive && ready_state == ReadyState::Open) ==> r == Poll::Ready(
                Err::<(), Error>(Error::ConnectionClosed),
            ),
    {
        if self.writer_alive {
            self.sink.poll_ready(ready_state)
        } else {
            Poll::Ready(Err(Error::ConnectionClosed))
        }
    }

    /// Nothing is ever held back, so there is nothing to flush.
    pub fn poll_flush(&self) -> (r: Poll<Result<(), Error>>)
        ensures
            r == Poll::Ready(Ok::<(), Error>(())),
    {
        self.sink.poll_flush()
    }

    /// Closing the write side changes nothing: the handle is closed when the
    /// last half goes.
    pub fn poll_close(&self) -> (r: Poll<Result<(), Error>>)
        ensures
            r == Poll::Ready(Ok::<(), Error>(())),
    {
        self.sink.poll_close()
    }

    /// Whether the write half is there.
    pub fn writer_alive(&self) -> (r: bool)
        ensures
            r == self@.writer_alive,
    {
        self.writer_alive
    }

    /// Whether the read half is there.
    pub fn reader_alive(&self) -> (r: bool)
        ensures
            r == self@.reader_alive,
    {
        self.reader_alive
    }

    /// Writes `data`: while the handle is open and the write half is there,
    /// the result is the one message to put on the wire, `data` itself. Else
    /// the write fails at once with `ConnectionClosed`. The connection goes on
    /// either way.
    pub fn write(&self, ready_state: ReadyState, data: Vec<u8>) -> (r: Result<Vec<u8>, Error>)
        ensures
            sent_view(r) == self@.write_answer(ready_state, data@),
            r is Ok ==> r == Ok::<Vec<u8>, Error>(data),
    {
        if self.writer_alive {
            self.sink.start_send(ready_state, data)
        } else {
            Err(Error::ConnectionClosed)
        }
    }

    /// Sends one frame: the write of its bytes. This layer sends binary frames
    /// only.
    pub fn send(&self, ready_state: ReadyState, frame: Frame) -> (r: Result<Vec<u8>, Error>)
        requires
            frame.is_binary(),
        ensures
            sent_view(r) == self@.write_answer(ready_state, frame->Binary_0@),
            r is Ok ==> r == Ok::<Vec<u8>, Error>(frame->Binary_0),
    {
        self.write(ready_state, frame.into_payload())
    }

    /// Reads up to `wanted` bytes, in arrival order. Without the read half the
    /// answer is the end of input.
    pub fn read(&mut self, wanted: usize) -> (r: Poll<Result<Vec<u8>, Error>>)
        ensures
            read_view(r) == old(self)@.read_answer(wanted as nat),
            final(self)@ == old(self)@.after_read(wanted as nat),
    {
        if self.reader_alive {
            self.reader.read(&mut self.client, wanted)
        } else {
            let none: Vec<u8> = Vec::new();
            assert(none@ =~= Seq::<u8>::empty());
            Poll::Ready(Ok(none))
        }
    }

    /// The message callback: `data` is queued for the read half.
    pub fn on_message(&mut self, data: Vec<u8>)
        ensures
            final(self)@ == (ConnectionView {
                client: old(self)@.client.on_message(data@),
                ..old(self)@
            }),
    {
        self.client.on_message(data);
    }

    /// The close callback: the read half will see the end of input behind what
    /// has arrived.
    pub fn on_close(&mut self)
        ensures
            final(self)@ == (ConnectionView { client: old(self)@.client.on_close(), ..old(self)@ }),
    {
        self.client.on_close();
    }

    /// The error callback: the read half will see `error` once, behind what has
    /// arrived, and then the end of input.
    pub fn on_error(&mut self, error: Error)
        ensures
            final(self)@ == (ConnectionView {
                client: old(self)@.client.on_error(error),
                ..old(self)@
            }),
    {
        self.client.on_error(error);
    }

    /// A frame arrived from the peer. A binary frame is a message; any other
    /// kind is a protocol violation, which the read half sees as a failure.
    pub fn on_frame(&mut self, frame: Frame)
        ensures
            match frame {
                Frame::Binary(data) => final(self)@ == (ConnectionView {
                    client: old(self)@.client.on_message(data@),
                    ..old(self)@
                }),
                _ => exists|text: String|
                    #[trigger] text@ == "unexpected frame kind"@ && final(self)@ == (ConnectionView {
                        client: old(self)@.client.on_error(Error::Transport(text)),
                        ..old(self)@
                    }),
            },
    {
        match frame.into_arrival() {
            Ok(data) => {
                self.client.on_message(data);
            },
            Err(e) => {
                self.client.on_error(e);
            },
        }
    }

    /// The write half goes. The result is true where it was the last half: the
    /// handle is to be closed now.
    pub fn drop_writer(&mut self) -> (close: bool)
        ensures
            final(self)@ == old(self)@.drop_writer().0,
            close == old(self)@.drop_writer().1,
    {
        if self.writer_alive {
            self.writer_alive = false;
            self.client.release()
        } else {
            false
        }
    }

    /// The read half goes. The result is true where it was the last half: the
    /// handle is to be closed now.
    pub fn drop_reader(&mut self) -> (close: bool)
        ensures
            final(self)@ == old(self)@.drop_reader().0,
            close == old(self)@.drop_reader().1,
    {
        if self.reader_alive {
            self.reader_alive = false;
            self.client.release()
        } else {
            false
        }
    }
}

/// The handle is closed exactly once: whichever half goes first, the close is
/// called for when the second one goes, and by nothing before or after. By
/// then the registration binds nothing and the queue takes nothing.
pub proof fn lemma_handle_closed_once(connection: ConnectionView)
    requires
        connection.wf(),
        connection.writer_alive,
        connection.reader_alive,
    ensures
        !connection.drop_writer().1,
        connection.drop_writer().0.drop_reader().1,
        !connection.drop_reader().1,
        connection.drop_reader().0.drop_writer().1,
        connection.drop_writer().0.drop_reader().0 == connection.drop_reader().0.drop_writer().0,
        !connection.drop_writer().0.drop_reader().0.drop_writer().1,
        !connection.drop_writer().0.drop_reader().0.drop_reader().1,
        connection.drop_writer().0.drop_reader().0.wf(),
        connection.drop_writer().0.drop_reader().0.client.message_fn.is_none(),
        connection.drop_writer().0.drop_reader().0.client.close_fn.is_none(),
        !connection.drop_writer().0.drop_reader().0.client.queue.producing,
{
}

/// Loopback: what one end writes while its handle is open is what the other
/// end reads. The write gives one message, which is the bytes written; once it
/// is delivered to a peer that has nothing waiting, that peer's reads yield
/// those bytes, all of them, in order and unchanged, however many bytes a read
/// asks for.
pub proof fn lemma_loopback_round_trip(data: Seq<u8>, peer: QueueView, wanted: nat, rounds: nat)
    requires
        peer.producing,
        peer.items.len() == 0,
        wanted > 0,
        rounds >= data.len(),
    ensures
        outgoing(ReadyState::Open, data) == Ok::<Seq<u8>, Error>(data),
        read_rounds(Seq::empty(), peer.push(outgoing(ReadyState::Open, data)), wanted, rounds).0
            == data,
{
    let filled = peer.push(Ok(data));
    assert(filled.items[0] == Ok::<Seq<u8>, Error>(data));
    assert(filled.items.skip(1).len() == 0);
    assert(queued_bytes(filled.items) == data + queued_bytes(filled.items.skip(1)));
    assert(bytes_ahead(Seq::empty(), filled) =~= data);
    lemma_reads_yield_all_bytes(Seq::empty(), filled, wanted, rounds);
}

} // verus!
