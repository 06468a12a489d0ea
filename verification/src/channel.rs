//! The two queues feeding the dispatcher.
//!
//! The update channel carries batches of `(subscription id, event)`
//! pairs from the network task to the dispatcher.  It is bounded with a
//! small capacity: when the host is slow the channel fills up and the
//! producer observes a full channel instead of dropping data or growing
//! without bound — this is the system's backpressure point.
//!
//! The command channel carries control operations from host threads
//! into the dispatcher.  Commands are low-frequency and must never be
//! dropped, so it is unbounded.
use vstd::prelude::*;
use crate::value::Event;

verus! {

/// One ordered group of `(subscription id, event)` pairs delivered
/// together by the network layer.
pub type Batch = Vec<(u64, Event)>;

/// What became of an attempt to enqueue a batch.  The failing variants
/// hand the batch back to the caller: nothing is ever dropped.
pub enum SendOutcome {
    /// The batch was enqueued.
    Sent,
    /// The channel is at capacity; the producer must block and retry.
    Full(Batch),
    /// The consumer side is gone.
    Disconnected(Batch),
}

/// What a consumer found when polling a queue.
pub enum RecvOutcome<T> {
    /// The oldest queued item.
    Item(T),
    /// Nothing queued right now; the producer side is still open.
    Empty,
    /// Nothing queued and the producer side is closed: no more items
    /// will ever arrive.
    Disconnected,
}

/// The bounded queue of event batches flowing from the network task to
/// the dispatcher.
pub struct UpdateChannel {
    queue: Vec<Batch>,
    cap: usize,
    closed: bool,
}

impl View for UpdateChannel {
    type V = Seq<Batch>;

    closed spec fn view(&self) -> Seq<Batch> {
        self.queue@
    }
}

impl UpdateChannel {
    /// The fixed capacity the channel was created with.
    pub closed spec fn cap(&self) -> usize {
        self.cap
    }

    /// Has the producer side been closed?
    pub closed spec fn is_closed(&self) -> bool {
        self.closed
    }

    /// The queue never exceeds its capacity.
    pub open spec fn wf(&self) -> bool {
        self@.len() <= self.cap() && self.cap() >= 1
    }

    /// A new channel bounded at `cap` batches.  Capacities are meant to
    /// be small (single digits) to keep backpressure latency low.
    pub fn new(cap: usize) -> (c: Self)
        requires
            cap >= 1,
        ensures
            c@ =~= Seq::<Batch>::empty(),
            c.cap() == cap,
            !c.is_closed(),
            c.wf(),
    {
        UpdateChannel { queue: Vec::new(), cap, closed: false }
    }

    /// How many batches are queued.
    pub fn len(&self) -> (n: usize)
        ensures
            n == self@.len(),
    {
        self.queue.len()
    }

    /// The fixed capacity.
    pub fn capacity(&self) -> (n: usize)
        ensures
            n == self.cap(),
    {
        self.cap
    }

    /// Enqueue a batch if there is room.  When the channel is full or
    /// closed the batch comes back to the caller unchanged, so a
    /// blocked producer can retry: no event is ever dropped here.
    pub fn try_send(&mut self, batch: Batch) -> (r: SendOutcome)
        requires
            old(self).wf(),
        ensures
            final(self).wf(),
            final(self).cap() == old(self).cap(),
            final(self).is_closed() == old(self).is_closed(),
            match r {
                SendOutcome::Sent => !old(self).is_closed()
                    && old(self)@.len() < old(self).cap()
                    && final(self)@ == old(self)@.push(batch),
                SendOutcome::Full(b) => !old(self).is_closed()
                    && old(self)@.len() == old(self).cap()
                    && b == batch
                    && final(self)@ == old(self)@,
                SendOutcome::Disconnected(b) => old(self).is_closed()
                    && b == batch
                    && final(self)@ == old(self)@,
            },
    {
        if self.closed {
            SendOutcome::Disconnected(batch)
        } else if self.queue.len() < self.cap {
            self.queue.push(batch);
            SendOutcome::Sent
        } else {
            SendOutcome::Full(batch)
        }
    }

    /// Dequeue the oldest batch, preserving the order the producer
    /// enqueued them in.
    pub fn recv(&mut self) -> (r: RecvOutcome<Batch>)
        requires
            old(self).wf(),
        ensures
            final(self).wf(),
            final(self).cap() == old(self).cap(),
            final(self).is_closed() == old(self).is_closed(),
            match r {
                RecvOutcome::Item(b) => old(self)@.len() > 0
                    && b == old(self)@[0]
                    && final(self)@ == old(self)@.remove(0),
                RecvOutcome::Empty => old(self)@.len() == 0
                    && !old(self).is_closed()
                    && final(self)@ == old(self)@,
                RecvOutcome::Disconnected => old(self)@.len() == 0
                    && old(self).is_closed()
                    && final(self)@ == old(self)@,
            },
    {
        if self.queue.len() > 0 {
            RecvOutcome::Item(self.queue.remove(0))
        } else if self.closed {
            RecvOutcome::Disconnected
        } else {
            RecvOutcome::Empty
        }
    }

    /// Close the producer side: already-queued batches stay readable,
    /// after which the consumer sees `Disconnected`.
    pub fn close(&mut self)
        requires
            old(self).wf(),
        ensures
            final(self).wf(),
            final(self)@ == old(self)@,
            final(self).cap() == old(self).cap(),
            final(self).is_closed(),
    {
        self.closed = true;
    }
}

/// A bounded queue never holds more than its capacity: backpressure
/// buffers at most `cap` batches, it does not grow without bound.
pub proof fn lemma_update_channel_bounded(c: &UpdateChannel)
    requires
        c.wf(),
    ensures
        c@.len() <= c.cap(),
{
}

/// A control operation issued by host code, applied by the dispatcher
/// in the order received.
pub enum Command {
    /// Ensure a live subscription for `path`.
    Subscribe { path: String },
    /// Drop the subscription `id`, releasing its external handle.
    Unsubscribe { id: u64 },
    /// Register the host callback token `callback` for subscription
    /// `id`.
    Register { id: u64, callback: u64 },
    /// Remove one callback registration.
    Unregister { id: u64, callback_id: u64 },
}

/// The unbounded queue of control operations flowing from host threads
/// to the dispatcher.
pub struct CommandChannel {
    queue: Vec<Command>,
    closed: bool,
}

impl View for CommandChannel {
    type V = Seq<Command>;

    closed spec fn view(&self) -> Seq<Command> {
        self.queue@
    }
}

impl CommandChannel {
    /// Has the producer side been closed?
    pub closed spec fn is_closed(&self) -> bool {
        self.closed
    }

    /// A new, open, empty command queue.
    pub fn new() -> (c: Self)
        ensures
            c@ =~= Seq::<Command>::empty(),
            !c.is_closed(),
    {
        CommandChannel { queue: Vec::new(), closed: false }
    }

    /// How many commands are queued.
    pub fn len(&self) -> (n: usize)
        ensures
            n == self@.len(),
    {
        self.queue.len()
    }

    /// Enqueue a command.  The queue is unbounded, so this only fails
    /// when the dispatcher side is gone, and then the command comes
    /// back to the caller.
    pub fn send(&mut self, cmd: Command) -> (r: Option<Command>)
        ensures
            final(self).is_closed() == old(self).is_closed(),
            match r {
                None => !old(self).is_closed() && final(self)@ == old(self)@.push(cmd),
                Some(c) => old(self).is_closed() && c == cmd && final(self)@ == old(self)@,
            },
    {
        if self.closed {
            Some(cmd)
        } else {
            self.queue.push(cmd);
            None
        }
    }

    /// Dequeue the oldest command.
    pub fn recv(&mut self) -> (r: RecvOutcome<Command>)
        ensures
            final(self).is_closed() == old(self).is_closed(),
            match r {
                RecvOutcome::Item(c) => old(self)@.len() > 0
                    && c == old(self)@[0]
                    && final(self)@ == old(self)@.remove(0),
                RecvOutcome::Empty => old(self)@.len() == 0
                    && !old(self).is_closed()
                    && final(self)@ == old(self)@,
                RecvOutcome::Disconnected => old(self)@.len() == 0
                    && old(self).is_closed()
                    && final(self)@ == old(self)@,
            },
    {
        if self.queue.len() > 0 {
            RecvOutcome::Item(self.queue.remove(0))
        } else if self.closed {
            RecvOutcome::Disconnected
        } else {
            RecvOutcome::Empty
        }
    }

    /// Close the producer side.
    pub fn close(&mut self)
        ensures
            final(self)@ == old(self)@,
            final(self).is_closed(),
    {
        self.closed = true;
    }
}

} // verus!
