//! The read side as a byte stream: arrived messages, one behind the other, read
//! as one run of bytes.

use vstd::prelude::*;
use crate::establish::{ClientView, WebClient};
use crate::inbound::{Arrival, Poll, QueueView};
use crate::state::Error;

verus! {

/// `bytes::Bytes`, a buffer of bytes, taken as it is: nothing is known of a
/// value but what `bytes_content` names.
#[verifier::external_type_specification]
#[verifier::external_body]
pub struct ExBytes(bytes::Bytes);

/// The bytes that a `bytes::Bytes` holds, first to last.
pub uninterp spec fn bytes_content(buffer: bytes::Bytes) -> Seq<u8>;

/// `bytes::Bytes::new`: a buffer that holds no byte.
#[verifier::external_body]
fn bytes_new() -> (r: bytes::Bytes)
    ensures
        bytes_content(r) == Seq::<u8>::empty(),
{
    bytes::Bytes::new()
}

/// `From<Vec<u8>>` of `bytes::Bytes`: the buffer takes the vector over and
/// holds its bytes, in order.
#[verifier::external_body]
fn bytes_from_vec(data: Vec<u8>) -> (r: bytes::Bytes)
    ensures
        bytes_content(r) == data@,
{
    bytes::Bytes::from(data)
}

/// `bytes::Bytes::len`: the number of bytes held.
#[verifier::external_body]
fn bytes_len(buffer: &bytes::Bytes) -> (r: usize)
    ensures
        r == bytes_content(*buffer).len(),
{
    buffer.len()
}

/// `bytes::Bytes::split_to`: the first `at` bytes leave the buffer and are
/// returned, the others stay. The call panics where `at` is past the end, so
/// that is left out.
#[verifier::external_body]
fn bytes_split_to(buffer: &mut bytes::Bytes, at: usize) -> (r: bytes::Bytes)
    requires
        at <= bytes_content(*old(buffer)).len(),
    ensures
        bytes_content(r) == bytes_content(*old(buffer)).take(at as int),
        bytes_content(*final(buffer)) == bytes_content(*old(buffer)).skip(at as int),
{
    buffer.split_to(at)
}

/// `From<bytes::Bytes>` of `Vec<u8>`: a vector of the bytes held, in order.
#[verifier::external_body]
fn bytes_into_vec(buffer: bytes::Bytes) -> (r: Vec<u8>)
    ensures
        r@ == bytes_content(buffer),
{
    Vec::from(buffer)
}

/// The answer to a read, as plain values.
pub type ReadAnswer = Poll<Result<Seq<u8>, Error>>;

/// An answer of `read` as plain values.
pub open spec fn read_view(answer: Poll<Result<Vec<u8>, Error>>) -> ReadAnswer {
    match answer {
        Poll::Ready(Ok(data)) => Poll::Ready(Ok(data@)),
        Poll::Ready(Err(e)) => Poll::Ready(Err(e)),
        Poll::Pending => Poll::Pending,
    }
}

/// The smaller of a request and what is at hand.
pub open spec fn served(wanted: nat, at_hand: nat) -> nat {
    if wanted < at_hand {
        wanted
    } else {
        at_hand
    }
}

/// A read of up to `wanted` bytes, given the rest of the message in front
/// (`chunk`) and the queue behind it: the answer, the rest of the message in
/// front afterwards, and the queue afterwards.
///
/// Bytes come from the message in front. The next message is taken only when
/// that one is used up, and a message without bytes is passed over. A failure
/// in the queue is the answer at the point where the next message would be
/// taken. With nothing in front and nothing queued the read waits, or, once the
/// producing end is gone, answers with no bytes: the end of input.
pub open spec fn read_step(chunk: Seq<u8>, queue: QueueView, wanted: nat) -> (
    ReadAnswer,
    Seq<u8>,
    QueueView,
)
    decreases queue.items.len(),
{
    if wanted == 0 {
        (Poll::Ready(Ok(Seq::empty())), chunk, queue)
    } else if chunk.len() > 0 {
        let count = served(wanted, chunk.len());
        (Poll::Ready(Ok(chunk.take(count as int))), chunk.skip(count as int), queue)
    } else if queue.items.len() == 0 {
        if queue.producing {
            (Poll::Pending, chunk, queue)
        } else {
            (Poll::Ready(Ok(Seq::empty())), chunk, queue)
        }
    } else {
        match queue.items[0] {
            Ok(data) => read_step(data, queue.advance(), wanted),
            Err(e) => (Poll::Ready(Err(e)), chunk, queue.advance()),
        }
    }
}

/// The byte-stream view of the read side: it keeps what is left of the message
/// in front.
#[derive(Debug)]
pub struct ByteStreamView {
    chunk: bytes::Bytes,
}

impl View for ByteStreamView {
    type V = Seq<u8>;

    closed spec fn view(&self) -> Seq<u8> {
        bytes_content(self.chunk)
    }
}

impl ByteStreamView {
    /// A view with no message in front.
    pub fn new() -> (r: ByteStreamView)
        ensures
            r@ == Seq::<u8>::empty(),
    {
        ByteStreamView { chunk: bytes_new() }
    }

    /// How many bytes of the message in front are left.
    pub fn buffered(&self) -> (r: usize)
        ensures
            r == self@.len(),
    {
        bytes_len(&self.chunk)
    }

    /// Reads up to `wanted` bytes from the arrivals of `source`. An answer of
    /// no bytes to a request for some is the end of input.
    pub fn read(&mut self, source: &mut WebClient, wanted: usize) -> (r: Poll<Result<Vec<u8>, Error>>)
        ensures
            read_view(r) == read_step(old(self)@, old(source)@.queue, wanted as nat).0,
            final(self)@ == read_step(old(self)@, old(source)@.queue, wanted as nat).1,
            final(source)@ == (ClientView {
                queue: read_step(old(self)@, old(source)@.queue, wanted as nat).2,
                ..old(source)@
            }),
    {
        if wanted == 0 {
            let none: Vec<u8> = Vec::new();
            assert(none@ =~= Seq::<u8>::empty());
            return Poll::Ready(Ok(none));
        }
        loop
            invariant
                wanted > 0,
                read_step(self@, source@.queue, wanted as nat) == read_step(
                    old(self)@,
                    old(source)@.queue,
                    wanted as nat,
                ),
                source@ == (ClientView { queue: source@.queue, ..old(source)@ }),
            decreases source@.queue.items.len(),
        {
            let at_hand: usize = bytes_len(&self.chunk);
            if at_hand > 0 {
                let count: usize = if wanted < at_hand {
                    wanted
                } else {
                    at_hand
                };
                let head = bytes_split_to(&mut self.chunk, count);
                return Poll::Ready(Ok(bytes_into_vec(head)));
            }
            match source.poll_next() {
                Poll::Pending => {
                    return Poll::Pending;
                },
                Poll::Ready(None) => {
                    let none: Vec<u8> = Vec::new();
                    assert(none@ =~= Seq::<u8>::empty());
                    return Poll::Ready(Ok(none));
                },
                Poll::Ready(Some(Err(e))) => {
                    return Poll::Ready(Err(e));
                },
                Poll::Ready(Some(Ok(data))) => {
                    self.chunk = bytes_from_vec(data);
                },
            }
        }
    }
}

/// The bytes of the queued messages in front of the first failure, one
/// message behind the other.
pub open spec fn queued_bytes(items: Seq<Arrival>) -> Seq<u8>
    decreases items.len(),
{
    if items.len() == 0 {
        Seq::empty()
    } else {
        match items[0] {
            Ok(data) => data + queued_bytes(items.skip(1)),
            Err(_) => Seq::empty(),
        }
    }
}

/// The first failure that is queued, if any.
pub open spec fn queued_fault(items: Seq<Arrival>) -> Option<Error>
    decreases items.len(),
{
    if items.len() == 0 {
        None
    } else {
        match items[0] {
            Ok(_) => queued_fault(items.skip(1)),
            Err(e) => Some(e),
        }
    }
}

/// What is queued behind the first failure; nothing where none is queued.
pub open spec fn behind_fault(items: Seq<Arrival>) -> Seq<Arrival>
    decreases items.len(),
{
    if items.len() == 0 {
        items
    } else {
        match items[0] {
            Ok(_) => behind_fault(items.skip(1)),
            Err(_) => items.skip(1),
        }
    }
}

/// The bytes that the read side has still to yield before any failure: the
/// rest of the message in front, then the queued messages.
pub open spec fn bytes_ahead(chunk: Seq<u8>, queue: QueueView) -> Seq<u8> {
    chunk + queued_bytes(queue.items)
}

/// Reads yield the arrived bytes in arrival order, and nothing else.
///
/// While bytes are ahead, a read for some bytes yields a first part of them,
/// not empty and no longer than asked for, and exactly the others stay ahead.
/// With no bytes ahead, a queued failure is the answer. With neither, the read
/// waits while the producing end is there, and answers with the end of input
/// once it is gone. A read adds no failure and takes none away unless it
/// answers with it.
pub proof fn lemma_read_follows_arrival_order(chunk: Seq<u8>, queue: QueueView, wanted: nat)
    requires
        wanted > 0,
    ensures
        read_step(chunk, queue, wanted).2.producing == queue.producing,
        bytes_ahead(chunk, queue).len() > 0 ==> {
            let step = read_step(chunk, queue, wanted);
            &&& step.0 is Ready
            &&& step.0->Ready_0 is Ok
            &&& 0 < step.0->Ready_0->Ok_0.len() <= wanted
            &&& step.0->Ready_0->Ok_0.len() <= bytes_ahead(chunk, queue).len()
            &&& step.0->Ready_0->Ok_0 == bytes_ahead(chunk, queue).take(
                step.0->Ready_0->Ok_0.len() as int,
            )
            &&& bytes_ahead(step.1, step.2) == bytes_ahead(chunk, queue).skip(
                step.0->Ready_0->Ok_0.len() as int,
            )
            &&& queued_fault(step.2.items) == queued_fault(queue.items)
            &&& behind_fault(step.2.items) == behind_fault(queue.items)
        },
        bytes_ahead(chunk, queue).len() == 0 && queued_fault(queue.items).is_some() ==> {
            let step = read_step(chunk, queue, wanted);
            &&& step.0 == Poll::Ready(Err::<Seq<u8>, Error>(queued_fault(queue.items).unwrap()))
            &&& step.1.len() == 0
            &&& step.2.items == behind_fault(queue.items)
        },
        bytes_ahead(chunk, queue).len() == 0 && queued_fault(queue.items).is_none() ==> {
            let step = read_step(chunk, queue, wanted);
            &&& queue.producing ==> step.0 == Poll::<Result<Seq<u8>, Error>>::Pending
            &&& !queue.producing ==> step.0 == Poll::Ready(Ok::<Seq<u8>, Error>(Seq::empty()))
            &&& step.1.len() == 0
            &&& step.2.items.len() == 0
        },
    decreases queue.items.len(),
{
    let ahead = bytes_ahead(chunk, queue);
    if chunk.len() > 0 {
        let count = served(wanted, chunk.len()) as int;
        assert(chunk.take(count) =~= ahead.take(count));
        assert(chunk.skip(count) + queued_bytes(queue.items) =~= ahead.skip(count));
    } else if queue.items.len() == 0 {
    } else {
        match queue.items[0] {
            Ok(data) => {
                lemma_read_follows_arrival_order(data, queue.advance(), wanted);
                assert(bytes_ahead(data, queue.advance()) =~= ahead);
            },
            Err(e) => {
                assert(ahead =~= Seq::<u8>::empty());
            },
        }
    }
}

/// What up to `rounds` reads in a row yield, each for up to `wanted` bytes: the
/// bytes, one answer behind the other, then the rest of the message in front
/// and the queue. The run stops before the first answer that is not data.
pub open spec fn read_rounds(chunk: Seq<u8>, queue: QueueView, wanted: nat, rounds: nat) -> (
    Seq<u8>,
    Seq<u8>,
    QueueView,
)
    decreases rounds,
{
    let step = read_step(chunk, queue, wanted);
    if rounds > 0 && step.0 is Ready && step.0->Ready_0 is Ok && step.0->Ready_0->Ok_0.len() > 0 {
        let rest = read_rounds(step.1, step.2, wanted, (rounds - 1) as nat);
        (step.0->Ready_0->Ok_0 + rest.0, rest.1, rest.2)
    } else {
        (Seq::empty(), chunk, queue)
    }
}

/// Enough reads in a row yield all the bytes that are ahead, in order, and
/// leave none ahead; a queued failure stays queued behind them.
pub proof fn lemma_reads_yield_all_bytes(chunk: Seq<u8>, queue: QueueView, wanted: nat, rounds: nat)
    requires
        wanted > 0,
        rounds >= bytes_ahead(chunk, queue).len(),
    ensures
        read_rounds(chunk, queue, wanted, rounds).0 == bytes_ahead(chunk, queue),
        bytes_ahead(
            read_rounds(chunk, queue, wanted, rounds).1,
            read_rounds(chunk, queue, wanted, rounds).2,
        ).len() == 0,
        queued_fault(read_rounds(chunk, queue, wanted, rounds).2.items) == queued_fault(
            queue.items,
        ),
        behind_fault(read_rounds(chunk, queue, wanted, rounds).2.items) == behind_fault(
            queue.items,
        ),
        read_rounds(chunk, queue, wanted, rounds).2.producing == queue.producing,
    decreases rounds,
{
    let ahead = bytes_ahead(chunk, queue);
    let step = read_step(chunk, queue, wanted);
    lemma_read_follows_arrival_order(chunk, queue, wanted);
    if ahead.len() > 0 {
        let data = step.0->Ready_0->Ok_0;
        lemma_reads_yield_all_bytes(step.1, step.2, wanted, (rounds - 1) as nat);
        assert(data + ahead.skip(data.len() as int) =~= ahead);
    } else {
        assert(ahead =~= Seq::<u8>::empty());
    }
}

/// Whatever the peer sends before it closes is what the read side yields:
/// the bytes of its messages, in the order sent and unchanged, and then the
/// end of input, with no failure.
pub proof fn lemma_peer_messages_are_read_in_order(
    messages: Seq<Seq<u8>>,
    wanted: nat,
    rounds: nat,
)
    requires
        wanted > 0,
        rounds >= messages.flatten().len(),
    ensures
        read_rounds(
            Seq::empty(),
            QueueView::fresh().deliver(messages).close(),
            wanted,
            rounds,
        ).0 == messages.flatten(),
        ({
            let run = read_rounds(
                Seq::empty(),
                QueueView::fresh().deliver(messages).close(),
                wanted,
                rounds,
            );
            read_step(run.1, run.2, wanted).0 == Poll::Ready(Ok::<Seq<u8>, Error>(Seq::empty()))
        }),
{
    let queue = QueueView::fresh().deliver(messages).close();
    lemma_delivered_bytes_are_ahead(messages);
    lemma_reads_yield_all_bytes(Seq::empty(), queue, wanted, rounds);
    let run = read_rounds(Seq::empty(), queue, wanted, rounds);
    lemma_read_follows_arrival_order(run.1, run.2, wanted);
}

/// A failure that arrives behind messages is read behind their bytes, once,
/// and the end of input follows it. With `error` queued last and the producing
/// end gone, enough reads yield the bytes that were ahead; the next read
/// answers with `error`, and the one after it with the end of input.
pub proof fn lemma_failure_is_read_once(
    chunk: Seq<u8>,
    queue: QueueView,
    error: Error,
    wanted: nat,
    rounds: nat,
)
    requires
        queue.producing,
        queued_fault(queue.items).is_none(),
        wanted > 0,
        rounds >= bytes_ahead(chunk, queue).len(),
    ensures
        ({
            let run = read_rounds(chunk, queue.push(Err(error)).close(), wanted, rounds);
            let fault = read_step(run.1, run.2, wanted);
            &&& run.0 == bytes_ahead(chunk, queue)
            &&& fault.0 == Poll::Ready(Err::<Seq<u8>, Error>(error))
            &&& read_step(fault.1, fault.2, wanted).0 == Poll::Ready(
                Ok::<Seq<u8>, Error>(Seq::empty()),
            )
        }),
{
    let failed = queue.push(Err(error)).close();
    lemma_fault_queued_last(queue.items, error);
    lemma_reads_yield_all_bytes(chunk, failed, wanted, rounds);
    let run = read_rounds(chunk, failed, wanted, rounds);
    lemma_read_follows_arrival_order(run.1, run.2, wanted);
    let fault = read_step(run.1, run.2, wanted);
    lemma_read_follows_arrival_order(fault.1, fault.2, wanted);
    assert(bytes_ahead(fault.1, fault.2) =~= Seq::<u8>::empty());
}

proof fn lemma_fault_queued_last(items: Seq<Arrival>, error: Error)
    requires
        queued_fault(items).is_none(),
    ensures
        queued_bytes(items.push(Err(error))) == queued_bytes(items),
        queued_fault(items.push(Err(error))) == Some(error),
        behind_fault(items.push(Err(error))) == Seq::<Arrival>::empty(),
    decreases items.len(),
{
    let longer = items.push(Err(error));
    if items.len() == 0 {
        assert(longer.skip(1) =~= Seq::<Arrival>::empty());
    } else {
        lemma_fault_queued_last(items.skip(1), error);
        assert(longer.skip(1) =~= items.skip(1).push(Err(error)));
    }
}

/// What is ahead after the peer's messages were delivered to a fresh queue is
/// the messages' bytes, one message behind the other, and no failure.
pub proof fn lemma_delivered_bytes_are_ahead(messages: Seq<Seq<u8>>)
    ensures
        bytes_ahead(Seq::empty(), QueueView::fresh().deliver(messages)) == messages.flatten(),
        queued_fault(QueueView::fresh().deliver(messages).items).is_none(),
        bytes_ahead(Seq::empty(), QueueView::fresh().deliver(messages).close())
            == messages.flatten(),
{
    crate::inbound::lemma_deliver_appends(QueueView::fresh(), messages);
    let items = messages.map_values(|m: Seq<u8>| Ok::<Seq<u8>, Error>(m));
    assert(QueueView::fresh().deliver(messages).items =~= items);
    lemma_queued_messages(messages);
    assert(Seq::<u8>::empty() + messages.flatten() =~= messages.flatten());
}

proof fn lemma_queued_messages(messages: Seq<Seq<u8>>)
    ensures
        queued_bytes(messages.map_values(|m: Seq<u8>| Ok::<Seq<u8>, Error>(m)))
            == messages.flatten(),
        queued_fault(messages.map_values(|m: Seq<u8>| Ok::<Seq<u8>, Error>(m))).is_none(),
    decreases messages.len(),
{
    let wrap = |m: Seq<u8>| Ok::<Seq<u8>, Error>(m);
    if messages.len() > 0 {
        lemma_queued_messages(messages.drop_first());
        assert(messages.map_values(wrap).skip(1) =~= messages.drop_first().map_values(wrap));
    }
}

} // verus!
