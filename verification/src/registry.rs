//! Which callback is bound to which event of a connection handle.
//!
//! A callback is known here by a number that its owner chose. A registration
//! binds callbacks, and its release unbinds exactly what it bound and what is
//! still bound: a binding that a later registration replaced is left alone.

use vstd::prelude::*;

verus! {

/// The events a connection handle reports.
#[derive(Clone, Copy, Debug, PartialEq, Eq, Structural)]
pub enum Event {
    Opened,
    Errored,
    Message,
    Closed,
}

/// The callback slots of one connection handle, one per event.
#[derive(Clone, Copy, Debug, PartialEq, Eq, Structural)]
pub struct Ws {
    pub on_open: Option<u64>,
    pub on_error: Option<u64>,
    pub on_message: Option<u64>,
    pub on_close: Option<u64>,
}

/// A slot after the release of a registration that had bound `own` to it.
pub open spec fn released_slot(slot: Option<u64>, own: Option<u64>) -> Option<u64> {
    if own.is_some() && slot == own {
        None
    } else {
        slot
    }
}

fn release_slot(slot: Option<u64>, own: Option<u64>) -> (r: Option<u64>)
    ensures
        r == released_slot(slot, own),
{
    match (slot, own) {
        (Some(bound), Some(mine)) => if bound == mine {
            None
        } else {
            slot
        },
        _ => slot,
    }
}

impl Ws {
    /// A handle with nothing bound.
    pub open spec fn unbound() -> Ws {
        Ws { on_open: None, on_error: None, on_message: None, on_close: None }
    }

    /// The callback that the host invokes when `event` occurs, if any.
    pub open spec fn bound(self, event: Event) -> Option<u64> {
        match event {
            Event::Opened => self.on_open,
            Event::Errored => self.on_error,
            Event::Message => self.on_message,
            Event::Closed => self.on_close,
        }
    }

    /// The handle after a wake registration of `wake_fn`.
    pub open spec fn with_wake(self, wake_fn: Option<u64>) -> Ws {
        Ws { on_open: wake_fn, on_error: wake_fn, ..self }
    }

    /// The handle after the release of a wake registration of `wake_fn`.
    pub open spec fn without_wake(self, wake_fn: Option<u64>) -> Ws {
        Ws {
            on_open: released_slot(self.on_open, wake_fn),
            on_error: released_slot(self.on_error, wake_fn),
            ..self
        }
    }

    /// The handle after a registration of message and close callbacks.
    pub open spec fn with_handlers(self, message_fn: Option<u64>, close_fn: Option<u64>) -> Ws {
        Ws { on_message: message_fn, on_error: close_fn, on_close: close_fn, ..self }
    }

    /// The handle after the release of a registration of message and close
    /// callbacks.
    pub open spec fn without_handlers(self, message_fn: Option<u64>, close_fn: Option<u64>) -> Ws {
        Ws {
            on_message: released_slot(self.on_message, message_fn),
            on_error: released_slot(self.on_error, close_fn),
            on_close: released_slot(self.on_close, close_fn),
            ..self
        }
    }

    /// A new handle: nothing is bound yet.
    pub fn new() -> (r: Ws)
        ensures
            r == Ws::unbound(),
    {
        Ws { on_open: None, on_error: None, on_message: None, on_close: None }
    }

    /// The callback to invoke for `event`: the one bound to it now, if any.
    pub fn dispatch(&self, event: Event) -> (r: Option<u64>)
        ensures
            r == self.bound(event),
    {
        match event {
            Event::Opened => self.on_open,
            Event::Errored => self.on_error,
            Event::Message => self.on_message,
            Event::Closed => self.on_close,
        }
    }
}

/// The registration of one wake callback for the opened and errored events.
#[derive(Debug)]
pub struct WakeFn {
    wake_fn: Option<u64>,
}

impl WakeFn {
    /// The callback that this registration bound.
    pub closed spec fn callback(&self) -> Option<u64> {
        self.wake_fn
    }

    /// Binds `wake_fn` to the opened and errored events, in place of whatever
    /// was bound to them; `None` unbinds both.
    pub fn register(ws: &mut Ws, wake_fn: Option<u64>) -> (r: WakeFn)
        ensures
            *final(ws) == old(ws).with_wake(wake_fn),
            r.callback() == wake_fn,
    {
        ws.on_open = wake_fn;
        ws.on_error = wake_fn;
        WakeFn { wake_fn }
    }

    /// The callback that this registration bound.
    pub fn get(&self) -> (r: Option<u64>)
        ensures
            r == self.callback(),
    {
        self.wake_fn
    }

    /// Ends the registration: the opened and errored events lose the callback
    /// where they still hold it.
    pub fn release(self, ws: &mut Ws)
        ensures
            *final(ws) == old(ws).without_wake(self.callback()),
    {
        ws.on_open = release_slot(ws.on_open, self.wake_fn);
        ws.on_error = release_slot(ws.on_error, self.wake_fn);
    }
}

/// The registration of the message callback and of the callback for close and
/// error, shared by the halves of a connection. The handle is closed when the
/// last of its owners lets go.
#[derive(Debug)]
pub struct Handlers {
    message_fn: Option<u64>,
    close_fn: Option<u64>,
    owners: usize,
}

impl Handlers {
    /// The message callback that this registration bound.
    pub closed spec fn message_callback(&self) -> Option<u64> {
        self.message_fn
    }

    /// The close and error callback that this registration bound.
    pub closed spec fn close_callback(&self) -> Option<u64> {
        self.close_fn
    }

    /// How many owners hold this registration.
    pub closed spec fn owner_count(&self) -> nat {
        self.owners as nat
    }

    /// Binds `message_fn` to the message event and `close_fn` to the errored and
    /// closed events, in place of whatever was bound to them. The registration
    /// starts with one owner.
    pub fn register(ws: &mut Ws, message_fn: Option<u64>, close_fn: Option<u64>) -> (r: Handlers)
        ensures
            *final(ws) == old(ws).with_handlers(message_fn, close_fn),
            r.message_callback() == message_fn,
            r.close_callback() == close_fn,
            r.owner_count() == 1,
    {
        ws.on_message = message_fn;
        ws.on_error = close_fn;
        ws.on_close = close_fn;
        Handlers { message_fn, close_fn, owners: 1 }
    }

    /// How many owners hold this registration.
    pub fn owners(&self) -> (r: usize)
        ensures
            r == self.owner_count(),
    {
        self.owners
    }

    /// Adds an owner. Returns false, and adds none, where the registration has
    /// been torn down or the count cannot grow.
    pub fn share(&mut self) -> (r: bool)
        ensures
            r == (0 < old(self).owner_count() < usize::MAX),
            final(self).owner_count() == old(self).owner_count() + if r { 1nat } else { 0nat },
            final(self).message_callback() == old(self).message_callback(),
            final(self).close_callback() == old(self).close_callback(),
    {
        if self.owners == 0 || self.owners == usize::MAX {
            false
        } else {
            self.owners = self.owners + 1;
            true
        }
    }

    /// Retires the callbacks without letting go of the registration: the
    /// events lose them where they still hold them, and the registration binds
    /// nothing from now on.
    pub fn retire(&mut self, ws: &mut Ws)
        ensures
            *final(ws) == old(ws).without_handlers(
                old(self).message_callback(),
                old(self).close_callback(),
            ),
            final(self).message_callback().is_none(),
            final(self).close_callback().is_none(),
            final(self).owner_count() == old(self).owner_count(),
    {
        ws.on_message = release_slot(ws.on_message, self.message_fn);
        ws.on_error = release_slot(ws.on_error, self.close_fn);
        ws.on_close = release_slot(ws.on_close, self.close_fn);
        self.message_fn = None;
        self.close_fn = None;
    }

    /// One owner lets go. The last one to do so retires the callbacks, and the
    /// result is true: the handle is to be closed now. With no owner left the
    /// call changes nothing and returns false.
    pub fn release(&mut self, ws: &mut Ws) -> (close: bool)
        ensures
            close == (old(self).owner_count() == 1),
            final(self).owner_count() == if old(self).owner_count() == 0 {
                0nat
            } else {
                (old(self).owner_count() - 1) as nat
            },
            close ==> *final(ws) == old(ws).without_handlers(
                old(self).message_callback(),
                old(self).close_callback(),
            ),
            close ==> final(self).message_callback().is_none() && final(self).close_callback().is_none(),
            !close ==> *final(ws) == *old(ws),
            !close ==> final(self).message_callback() == old(self).message_callback(),
            !close ==> final(self).close_callback() == old(self).close_callback(),
    {
        if self.owners == 0 {
            false
        } else if self.owners == 1 {
            self.retire(ws);
            self.owners = 0;
            true
        } else {
            self.owners = self.owners - 1;
            false
        }
    }
}

/// A callback that a later registration replaced is never invoked again: once
/// `second` is bound to the opened and errored events, the host finds `second`
/// there and nothing else, and the release of the replaced registration leaves
/// `second` bound.
pub proof fn lemma_superseded_wake_is_silent(ws: Ws, first: u64, second: u64)
    requires
        first != second,
    ensures
        ws.with_wake(Some(first)).with_wake(Some(second)).bound(Event::Opened) == Some(second),
        ws.with_wake(Some(first)).with_wake(Some(second)).bound(Event::Errored) == Some(second),
        ws.with_wake(Some(first)).with_wake(Some(second)).without_wake(Some(first))
            == ws.with_wake(Some(second)),
{
}

/// Once a registration is released, none of the events it had bound invokes
/// its callbacks, whatever else was bound in between.
pub proof fn lemma_released_is_silent(ws: Ws, message_fn: u64, close_fn: u64)
    ensures
        ws.without_handlers(Some(message_fn), Some(close_fn)).bound(Event::Message) != Some(
            message_fn,
        ),
        ws.without_handlers(Some(message_fn), Some(close_fn)).bound(Event::Errored) != Some(
            close_fn,
        ),
        ws.without_handlers(Some(message_fn), Some(close_fn)).bound(Event::Closed) != Some(
            close_fn,
        ),
        ws.without_wake(Some(close_fn)).bound(Event::Opened) != Some(close_fn),
        ws.without_wake(Some(close_fn)).bound(Event::Errored) != Some(close_fn),
{
}

} // verus!
