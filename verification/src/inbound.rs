//! The queue between the message callback, which fills it, and the read side,
//! which drains it in arrival order.

use vstd::prelude::*;
use crate::state::Error;

verus! {

/// The answer of an operation that may have to wait.
#[derive(Debug, PartialEq, Eq)]
pub enum Poll<T> {
    Ready(T),
    Pending,
}

/// One arrived message, or the failure that arrived in its place.
pub type Arrival = Result<Seq<u8>, Error>;

/// What a queue holds: the arrivals not yet handed on, oldest first, and
/// whether the producing end is still there.
pub struct QueueView {
    pub items: Seq<Arrival>,
    pub producing: bool,
}

/// An arrival as plain values.
pub open spec fn arrival_view(item: Result<Vec<u8>, Error>) -> Arrival {
    match item {
        Ok(data) => Ok(data@),
        Err(e) => Err(e),
    }
}

/// An answer of `poll_next` as plain values.
pub open spec fn answer_view(answer: Poll<Option<Result<Vec<u8>, Error>>>) -> Poll<Option<Arrival>> {
    match answer {
        Poll::Ready(Some(item)) => Poll::Ready(Some(arrival_view(item))),
        Poll::Ready(None) => Poll::Ready(None),
        Poll::Pending => Poll::Pending,
    }
}

impl QueueView {
    /// An empty queue whose producing end is there.
    pub open spec fn fresh() -> QueueView {
        QueueView { items: Seq::empty(), producing: true }
    }

    /// The queue after the producer offered `item`: it is appended while the
    /// producing end is there, and lost afterwards.
    pub open spec fn push(self, item: Arrival) -> QueueView {
        if self.producing {
            QueueView { items: self.items.push(item), ..self }
        } else {
            self
        }
    }

    /// The queue after the producing end went away.
    pub open spec fn close(self) -> QueueView {
        QueueView { producing: false, ..self }
    }

    /// What the consumer gets next: the oldest arrival; with none left, the end
    /// of the sequence once the producing end is gone, and a wait before that.
    pub open spec fn answer(self) -> Poll<Option<Arrival>> {
        if self.items.len() > 0 {
            Poll::Ready(Some(self.items[0]))
        } else if self.producing {
            Poll::Pending
        } else {
            Poll::Ready(None)
        }
    }

    /// The queue after the consumer took its next answer.
    pub open spec fn advance(self) -> QueueView {
        if self.items.len() > 0 {
            QueueView { items: self.items.skip(1), ..self }
        } else {
            self
        }
    }

    /// The queue after the producer offered each of `messages` in turn.
    pub open spec fn deliver(self, messages: Seq<Seq<u8>>) -> QueueView
        decreases messages.len(),
    {
        if messages.len() == 0 {
            self
        } else {
            self.push(Ok(messages[0])).deliver(messages.skip(1))
        }
    }

    /// The queue after the consumer took `count` answers.
    pub open spec fn advance_by(self, count: nat) -> QueueView
        decreases count,
    {
        if count == 0 {
            self
        } else {
            self.advance().advance_by((count - 1) as nat)
        }
    }
}

/// The unbounded queue of arrivals of one connection: the two ends of one
/// channel of `tokio::sync::mpsc::unbounded_channel`, kept together. What Verus
/// knows of it is what `queue_items` and `queue_producing` name.
#[verifier::external_body]
#[derive(Debug)]
pub struct InboundQueue {
    tx: tokio::sync::mpsc::UnboundedSender<Result<Vec<u8>, Error>>,
    rx: tokio::sync::mpsc::UnboundedReceiver<Result<Vec<u8>, Error>>,
}

/// The arrivals that the channel holds, oldest first.
pub uninterp spec fn queue_items(queue: InboundQueue) -> Seq<Arrival>;

/// Whether the channel still takes messages: its receiving half has not been
/// closed.
pub uninterp spec fn queue_producing(queue: InboundQueue) -> bool;

/// `tokio::sync::mpsc::unbounded_channel`: a channel that holds nothing and
/// takes messages.
#[verifier::external_body]
fn channel_new() -> (r: InboundQueue)
    ensures
        queue_items(r) == Seq::<Arrival>::empty(),
        queue_producing(r),
{
    let (tx, rx) = tokio::sync::mpsc::unbounded_channel();
    InboundQueue { tx, rx }
}

/// `UnboundedSender::send`: the message is queued behind all earlier ones and
/// the call succeeds, unless the receiving half has been closed; then it fails
/// and nothing is queued. The call never waits. (It gives up only at a count of
/// queued messages that no memory holds.)
#[verifier::external_body]
fn channel_send(queue: &mut InboundQueue, item: Result<Vec<u8>, Error>) -> (taken: bool)
    ensures
        taken == queue_producing(*old(queue)),
        queue_producing(*final(queue)) == queue_producing(*old(queue)),
        queue_items(*final(queue)) == if taken {
            queue_items(*old(queue)).push(arrival_view(item))
        } else {
            queue_items(*old(queue))
        },
{
    queue.tx.send(item).is_ok()
}

/// `UnboundedReceiver::close`: the channel takes no further message; what it
/// holds stays, to be received.
#[verifier::external_body]
fn channel_close(queue: &mut InboundQueue)
    ensures
        !queue_producing(*final(queue)),
        queue_items(*final(queue)) == queue_items(*old(queue)),
{
    queue.rx.close()
}

/// `UnboundedReceiver::try_recv`: the oldest message leaves the channel and is
/// returned. A channel that holds none answers `Empty` while it takes messages
/// and `Disconnected` once it is closed, and stays as it is.
#[verifier::external_body]
fn channel_try_recv(queue: &mut InboundQueue) -> (r: Poll<Option<Result<Vec<u8>, Error>>>)
    ensures
        queue_producing(*final(queue)) == queue_producing(*old(queue)),
        queue_items(*final(queue)) == if queue_items(*old(queue)).len() > 0 {
            queue_items(*old(queue)).skip(1)
        } else {
            queue_items(*old(queue))
        },
        answer_view(r) == old(queue)@.answer(),
{
    match queue.rx.try_recv() {
        Ok(item) => Poll::Ready(Some(item)),
        Err(tokio::sync::mpsc::error::TryRecvError::Empty) => Poll::Pending,
        Err(tokio::sync::mpsc::error::TryRecvError::Disconnected) => Poll::Ready(None),
    }
}

/// `UnboundedReceiver::len`: the number of messages that the channel holds.
#[verifier::external_body]
fn channel_len(queue: &InboundQueue) -> (r: usize)
    ensures
        r == queue_items(*queue).len(),
{
    queue.rx.len()
}

/// `UnboundedReceiver::is_closed`: whether the receiving half has been closed.
#[verifier::external_body]
fn channel_is_closed(queue: &InboundQueue) -> (r: bool)
    ensures
        r == !queue_producing(*queue),
{
    queue.rx.is_closed()
}

impl View for InboundQueue {
    type V = QueueView;

    open spec fn view(&self) -> QueueView {
        QueueView { items: queue_items(*self), producing: queue_producing(*self) }
    }
}

impl InboundQueue {
    /// An empty queue with its producing end in place.
    pub fn new() -> (r: InboundQueue)
        ensures
            r@ == QueueView::fresh(),
    {
        channel_new()
    }

    /// The producer offers `item`. It is appended behind all earlier arrivals
    /// while the producing end is there; the result says whether it was taken.
    pub fn push(&mut self, item: Result<Vec<u8>, Error>) -> (taken: bool)
        ensures
            taken == old(self)@.producing,
            final(self)@ == old(self)@.push(arrival_view(item)),
    {
        channel_send(self, item)
    }

    /// The producing end goes away; what has arrived stays.
    pub fn close(&mut self)
        ensures
            final(self)@ == old(self)@.close(),
    {
        channel_close(self)
    }

    /// The consumer asks for the next arrival.
    pub fn poll_next(&mut self) -> (r: Poll<Option<Result<Vec<u8>, Error>>>)
        ensures
            answer_view(r) == old(self)@.answer(),
            final(self)@ == old(self)@.advance(),
    {
        channel_try_recv(self)
    }

    /// How many arrivals wait, as the lower bound, and the same number as the
    /// upper bound once the producing end is gone.
    pub fn size_hint(&self) -> (r: (usize, Option<usize>))
        ensures
            r.0 == self@.items.len(),
            r.1 == if self@.producing { None } else { Some(r.0) },
    {
        let waiting: usize = channel_len(self);
        if channel_is_closed(self) {
            (waiting, Some(waiting))
        } else {
            (waiting, None)
        }
    }
}

/// Delivering to a queue whose producing end is there appends the messages in
/// the order given.
pub proof fn lemma_deliver_appends(queue: QueueView, messages: Seq<Seq<u8>>)
    requires
        queue.producing,
    ensures
        queue.deliver(messages).producing,
        queue.deliver(messages).items == queue.items + messages.map_values(
            |m: Seq<u8>| Ok::<Seq<u8>, Error>(m),
        ),
    decreases messages.len(),
{
    let wrap = |m: Seq<u8>| Ok::<Seq<u8>, Error>(m);
    if messages.len() == 0 {
        assert(queue.items + messages.map_values(wrap) =~= queue.items);
    } else {
        lemma_deliver_appends(queue.push(Ok(messages[0])), messages.skip(1));
        assert(queue.push(Ok(messages[0])).items + messages.skip(1).map_values(wrap)
            =~= queue.items + messages.map_values(wrap));
    }
}

/// Taking `count` answers from a queue that holds at least as many removes the
/// oldest `count` arrivals and nothing else.
pub proof fn lemma_advance_by_skips(queue: QueueView, count: nat)
    requires
        count <= queue.items.len(),
    ensures
        queue.advance_by(count).items == queue.items.skip(count as int),
        queue.advance_by(count).producing == queue.producing,
    decreases count,
{
    if count == 0 {
        assert(queue.items.skip(0) =~= queue.items);
    } else {
        lemma_advance_by_skips(queue.advance(), (count - 1) as nat);
        assert(queue.items.skip(1).skip(count - 1) =~= queue.items.skip(count as int));
    }
}

/// Messages come out as they went in. After the peer's messages were delivered
/// to a fresh queue and the producing end went away, the consumer's answer
/// number `i` is message number `i`, unchanged, and the answer after the last
/// message is the end of the sequence, without a failure.
pub proof fn lemma_arrival_order_is_kept(messages: Seq<Seq<u8>>, i: nat)
    requires
        i <= messages.len(),
    ensures
        i < messages.len() ==> QueueView::fresh().deliver(messages).close().advance_by(i).answer()
            == Poll::Ready(Some(Ok::<Seq<u8>, Error>(messages[i as int]))),
        i == messages.len() ==> QueueView::fresh().deliver(messages).close().advance_by(i).answer()
            == Poll::<Option<Arrival>>::Ready(None),
        i == messages.len() ==> QueueView::fresh().deliver(messages).close().advance_by(
            i,
        ).advance() == QueueView::fresh().deliver(messages).close().advance_by(i),
{
    let filled = QueueView::fresh().deliver(messages);
    lemma_deliver_appends(QueueView::fresh(), messages);
    assert(filled.items =~= messages.map_values(|m: Seq<u8>| Ok::<Seq<u8>, Error>(m)));
    lemma_advance_by_skips(filled.close(), i);
}

/// While the producing end is there and nothing has arrived, the consumer
/// waits; once the producing end is gone, an empty queue answers with the end
/// of the sequence, again and again.
pub proof fn lemma_closed_empty_queue_ends(queue: QueueView)
    requires
        queue.items.len() == 0,
    ensures
        queue.producing ==> queue.answer() == Poll::<Option<Arrival>>::Pending,
        queue.close().answer() == Poll::<Option<Arrival>>::Ready(None),
        queue.close().advance() == queue.close(),
        queue.close().push(Ok(Seq::empty())) == queue.close(),
{
}

} // verus!
