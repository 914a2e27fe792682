//! Establishment of a connection: from the host's opened and errored events to
//! an answer that settles once, and the client that a settled attempt yields.

use vstd::prelude::*;
use crate::inbound::{InboundQueue, Poll, QueueView};
use crate::registry::{Event, Handlers, WakeFn, Ws};
use crate::state::{Error, ReadyState};

verus! {

/// An open connection before it is split into its halves: the handle's
/// callback slots, the queue of arrivals and the registration of the message
/// and close callbacks.
#[derive(Debug)]
pub struct WebClient {
    ws: Ws,
    rx: InboundQueue,
    handlers: Handlers,
}

/// What a client holds, as plain values.
pub struct ClientView {
    pub ws: Ws,
    pub queue: QueueView,
    pub message_fn: Option<u64>,
    pub close_fn: Option<u64>,
    pub owners: nat,
}

impl ClientView {
    /// The client that `WebClient::new` makes on the handle `ws`.
    pub open spec fn fresh(ws: Ws, message_fn: u64, close_fn: u64) -> ClientView {
        ClientView {
            ws: ws.with_handlers(Some(message_fn), Some(close_fn)),
            queue: QueueView::fresh(),
            message_fn: Some(message_fn),
            close_fn: Some(close_fn),
            owners: 1,
        }
    }

    /// The client after a message arrived.
    pub open spec fn on_message(self, data: Seq<u8>) -> ClientView {
        ClientView { queue: self.queue.push(Ok(data)), ..self }
    }

    /// The client after the callbacks were retired and the producing end of the
    /// queue went with them.
    pub open spec fn retired(self) -> ClientView {
        ClientView {
            ws: self.ws.without_handlers(self.message_fn, self.close_fn),
            queue: self.queue.close(),
            message_fn: None,
            close_fn: None,
            ..self
        }
    }

    /// The client after the peer closed.
    pub open spec fn on_close(self) -> ClientView {
        self.retired()
    }

    /// The client after the host reported `error`: the failure is queued behind
    /// what arrived before it, then the callbacks are retired.
    pub open spec fn on_error(self, error: Error) -> ClientView {
        ClientView { queue: self.queue.push(Err(error)), ..self }.retired()
    }

    /// The client after one owner let go.
    pub open spec fn released(self) -> ClientView {
        if self.owners == 0 {
            self
        } else if self.owners == 1 {
            ClientView { owners: 0, ..self.retired() }
        } else {
            ClientView { owners: (self.owners - 1) as nat, ..self }
        }
    }
}

impl View for WebClient {
    type V = ClientView;

    closed spec fn view(&self) -> ClientView {
        ClientView {
            ws: self.ws,
            queue: self.rx@,
            message_fn: self.handlers.message_callback(),
            close_fn: self.handlers.close_callback(),
            owners: self.handlers.owner_count(),
        }
    }
}

impl WebClient {
    /// Makes the client of an open handle: binds `message_fn` to the message
    /// event and `close_fn` to the errored and closed events, with an empty
    /// queue behind them.
    pub fn new(ws: Ws, message_fn: u64, close_fn: u64) -> (r: WebClient)
        ensures
            r@ == ClientView::fresh(ws, message_fn, close_fn),
    {
        let mut ws = ws;
        let rx = InboundQueue::new();
        let handlers = Handlers::register(&mut ws, Some(message_fn), Some(close_fn));
        WebClient { ws, rx, handlers }
    }

    /// The callback slots of the handle as they stand.
    pub fn ws(&self) -> (r: Ws)
        ensures
            r == self@.ws,
    {
        self.ws
    }

    /// How many owners hold the registration of the callbacks.
    pub fn owners(&self) -> (r: usize)
        ensures
            r == self@.owners,
    {
        self.handlers.owners()
    }

    /// The message callback: queues `data` behind all earlier arrivals. The
    /// result is false, and `data` is lost, once the producing end is gone.
    pub fn on_message(&mut self, data: Vec<u8>) -> (taken: bool)
        ensures
            taken == old(self)@.queue.producing,
            final(self)@ == old(self)@.on_message(data@),
    {
        self.rx.push(Ok(data))
    }

    /// The close callback: retires the message and close callbacks, and with
    /// them the producing end of the queue. The consumer sees the sequence end
    /// behind what has arrived; no item tells it of the close.
    pub fn on_close(&mut self)
        ensures
            final(self)@ == old(self)@.on_close(),
    {
        self.handlers.retire(&mut self.ws);
        self.rx.close();
    }

    /// The error callback: queues the failure, then does what the close
    /// callback does. The consumer sees the one failure and then the end.
    pub fn on_error(&mut self, error: Error)
        ensures
            final(self)@ == old(self)@.on_error(error),
    {
        self.rx.push(Err(error));
        self.handlers.retire(&mut self.ws);
        self.rx.close();
    }

    /// Adds an owner of the registration; false where none can be added.
    pub(crate) fn share(&mut self) -> (r: bool)
        ensures
            r == (0 < old(self)@.owners < usize::MAX),
            final(self)@ == (ClientView {
                owners: old(self)@.owners + if r { 1nat } else { 0nat },
                ..old(self)@
            }),
    {
        self.handlers.share()
    }

    /// One owner lets go. With the last one the callbacks are retired, the
    /// producing end of the queue goes, and the result is true: the handle is
    /// to be closed now, and a failure of that close is fatal.
    pub fn release(&mut self) -> (close: bool)
        ensures
            close == (old(self)@.owners == 1),
            final(self)@ == old(self)@.released(),
    {
        let close = self.handlers.release(&mut self.ws);
        if close {
            self.rx.close();
        }
        close
    }

    /// The consumer asks for the next arrival.
    pub fn poll_next(&mut self) -> (r: Poll<Option<Result<Vec<u8>, Error>>>)
        ensures
            crate::inbound::answer_view(r) == old(self)@.queue.answer(),
            final(self)@ == (ClientView { queue: old(self)@.queue.advance(), ..old(self)@ }),
    {
        self.rx.poll_next()
    }

    /// Bounds on the number of arrivals still to come.
    pub fn size_hint(&self) -> (r: (usize, Option<usize>))
        ensures
            r.0 == self@.queue.items.len(),
            r.1 == if self@.queue.producing { None } else { Some(r.0) },
    {
        self.rx.size_hint()
    }
}

/// A pending establishment: the handle's callback slots and the slot of the
/// latest resume token.
#[derive(Debug)]
pub struct WebConnection {
    ws: Ws,
    wake_fn: Option<WakeFn>,
}

/// What a pending establishment holds, as plain values.
pub struct AttemptView {
    pub ws: Ws,
    pub slot: Option<u64>,
}

impl AttemptView {
    /// The handle once the live registration, if any, is torn down.
    pub open spec fn settled_ws(self) -> Ws {
        self.ws.without_wake(self.slot)
    }

    /// The attempt after a suspension with `token`.
    pub open spec fn suspended(self, token: u64) -> AttemptView {
        AttemptView { ws: self.ws.with_wake(Some(token)), slot: Some(token) }
    }

    /// The attempt once it settled or was given up.
    pub open spec fn settled(self) -> AttemptView {
        AttemptView { ws: self.settled_ws(), slot: None }
    }

    /// The attempt after one suspension with each of `tokens`, in turn.
    pub open spec fn suspended_all(self, tokens: Seq<u64>) -> AttemptView
        decreases tokens.len(),
    {
        if tokens.len() == 0 {
            self
        } else {
            self.suspended(tokens[0]).suspended_all(tokens.skip(1))
        }
    }

    /// The attempt after the host invoked `callback`.
    pub open spec fn woken(self, callback: u64) -> AttemptView {
        if self.slot == Some(callback) {
            self.settled()
        } else {
            self
        }
    }
}

impl View for WebConnection {
    type V = AttemptView;

    closed spec fn view(&self) -> AttemptView {
        AttemptView {
            ws: self.ws,
            slot: match self.wake_fn {
                Some(w) => w.callback(),
                None => None,
            },
        }
    }
}

impl WebConnection {
    /// Starts an attempt on the handle `ws`; no token is live.
    pub fn new(ws: Ws) -> (r: WebConnection)
        ensures
            r@ == (AttemptView { ws, slot: None }),
    {
        WebConnection { ws, wake_fn: None }
    }

    /// The callback slots of the handle as they stand.
    pub fn ws(&self) -> (r: Ws)
        ensures
            r == self@.ws,
    {
        self.ws
    }

    fn settle(&mut self)
        ensures
            final(self)@ == old(self)@.settled(),
    {
        let taken = self.wake_fn.take();
        match taken {
            Some(w) => {
                w.release(&mut self.ws);
            },
            None => {},
        }
    }

    /// One suspension attempt, on the state that the handle reports now.
    ///
    /// Open: the attempt settles with the client of the handle, made with
    /// `message_fn` and `close_fn`. Closing or closed: it settles with
    /// `ConnectionClosed`. Connecting: it stays pending, and `token` takes the
    /// place of any earlier token, as the one callback bound to the opened and
    /// errored events. A settled attempt holds no registration.
    pub fn poll(&mut self, ready_state: ReadyState, token: u64, message_fn: u64, close_fn: u64) -> (r:
        Poll<Result<WebClient, Error>>)
        ensures
            ready_state == ReadyState::Connecting ==> r is Pending && final(self)@ == old(
                self,
            )@.suspended(token),
            ready_state == ReadyState::Open ==> r is Ready && r->Ready_0 is Ok && r->Ready_0->Ok_0@
                == ClientView::fresh(old(self)@.settled_ws(), message_fn, close_fn) && final(self)@
                == (AttemptView { ws: r->Ready_0->Ok_0@.ws, slot: None }),
            ready_state == ReadyState::Closing || ready_state == ReadyState::Closed ==> r
                == Poll::Ready(Err::<WebClient, Error>(Error::ConnectionClosed)) && final(self)@
                == old(self)@.settled(),
    {
        match ready_state {
            ReadyState::Open => {
                self.settle();
                let client = WebClient::new(self.ws, message_fn, close_fn);
                self.ws = client.ws();
                Poll::Ready(Ok(client))
            },
            ReadyState::Closing | ReadyState::Closed => {
                self.settle();
                Poll::Ready(Err(Error::ConnectionClosed))
            },
            ReadyState::Connecting => {
                self.settle();
                let wake_fn = WakeFn::register(&mut self.ws, Some(token));
                self.wake_fn = Some(wake_fn);
                Poll::Pending
            },
        }
    }

    /// The body of the wake callback `callback`, run when the host invokes it.
    /// Where `callback` is the live token, its registration is torn down first,
    /// so that it runs once, and the result is true: resume that token. A
    /// callback that is not the live token resumes nothing.
    pub fn wake(&mut self, callback: u64) -> (resume: bool)
        ensures
            resume == (old(self)@.slot == Some(callback)),
            final(self)@ == old(self)@.woken(callback),
    {
        let live = match &self.wake_fn {
            Some(w) => w.get(),
            None => None,
        };
        match live {
            Some(token) => {
                if token == callback {
                    self.settle();
                    true
                } else {
                    false
                }
            },
            None => false,
        }
    }

    /// Gives the attempt up: its registration is torn down, and the handle is
    /// handed back with no token bound to it.
    pub fn abandon(self) -> (ws: Ws)
        ensures
            ws == self@.settled_ws(),
    {
        let mut this = self;
        this.settle();
        this.ws
    }
}

/// Of overlapping suspensions only the last one counts. After any run of
/// suspensions the slot holds the last token, and the opened and errored events
/// are bound to it and to nothing else: a callback of an earlier token resumes
/// nothing and changes nothing, and the last one resumes once, after which
/// neither event is bound.
pub proof fn lemma_only_latest_token_resumes(attempt: AttemptView, tokens: Seq<u64>, earlier: u64)
    requires
        tokens.len() > 0,
        earlier != tokens.last(),
    ensures
        attempt.suspended_all(tokens).slot == Some(tokens.last()),
        attempt.suspended_all(tokens).ws.bound(Event::Opened) == Some(tokens.last()),
        attempt.suspended_all(tokens).ws.bound(Event::Errored) == Some(tokens.last()),
        attempt.suspended_all(tokens).woken(earlier) == attempt.suspended_all(tokens),
        attempt.suspended_all(tokens).woken(tokens.last()).slot.is_none(),
        attempt.suspended_all(tokens).woken(tokens.last()).ws.bound(Event::Opened).is_none(),
        attempt.suspended_all(tokens).woken(tokens.last()).ws.bound(Event::Errored).is_none(),
    decreases tokens.len(),
{
    if tokens.len() > 1 {
        assert(tokens.skip(1).last() == tokens.last());
        lemma_only_latest_token_resumes(attempt.suspended(tokens[0]), tokens.skip(1), earlier);
    } else {
        assert(tokens.skip(1).len() == 0);
        assert(attempt.suspended(tokens[0]).suspended_all(tokens.skip(1)) == attempt.suspended(
            tokens[0],
        ));
    }
}

/// An attempt that is given up while it is pending leaves nothing behind: the
/// handle that comes back has neither the opened nor the errored event bound,
/// so no later event invokes a callback of the attempt.
pub proof fn lemma_abandoned_attempt_is_silent(attempt: AttemptView, token: u64)
    ensures
        attempt.suspended(token).settled_ws().bound(Event::Opened).is_none(),
        attempt.suspended(token).settled_ws().bound(Event::Errored).is_none(),
        attempt.slot.is_some() ==> attempt.settled_ws().bound(Event::Opened) != attempt.slot
            && attempt.settled_ws().bound(Event::Errored) != attempt.slot,
{
}

} // verus!
