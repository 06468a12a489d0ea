//! The callback bridge: the mailbox through which the dispatcher hands
//! event batches to the host environment's single execution thread.
//!
//! The mailbox is bounded.  When it is full the dispatcher's call does
//! not go through and the batch comes back, so the dispatcher blocks
//! instead of dropping events; the update channel then backs up, which
//! in turn throttles the network task — the system's end-to-end
//! backpressure chain.  A dedicated pump on the host side drains the
//! mailbox in order, in host-thread context.
//!
//! A failure raised inside a host callback never reaches the
//! dispatcher: [`error_disposition`] decides whether it is reported to
//! the configured error sink (and the loop continues) or is fatal to
//! the process.  The default call mode is `Recoverable`; `Fatal` is an
//! explicit opt-in for deployments that prefer crashing over losing an
//! error.
use vstd::prelude::*;
use crate::channel::Batch;

verus! {

/// One marshalled invocation: a batch of events destined for one host
/// callback token.
pub struct BridgeCall {
    pub callback: u64,
    pub events: Batch,
}

/// How a failure raised inside a host callback is treated.
#[derive(Clone, Copy, Debug, PartialEq, Eq, Structural)]
pub enum CallMode {
    /// A callback failure aborts the process.
    Fatal,
    /// A callback failure is reported to the error sink, if one is
    /// configured, and delivery continues with the next event.
    Recoverable,
}

/// What the dispatcher does about one callback failure.
#[derive(Clone, Copy, Debug, PartialEq, Eq, Structural)]
pub enum ErrorDisposition {
    /// Report to the error sink and continue the loop.
    Report,
    /// Fatal: stop the process.
    Abort,
}

/// The failure policy: a callback failure is survivable exactly when
/// the call mode is recoverable and an error sink is configured to
/// receive the report; otherwise it is fatal.  Failures are never
/// silently swallowed.
pub open spec fn disposition_spec(mode: CallMode, sink_configured: bool) -> ErrorDisposition {
    if mode == CallMode::Recoverable && sink_configured {
        ErrorDisposition::Report
    } else {
        ErrorDisposition::Abort
    }
}

/// Decide what one callback failure does, per [`disposition_spec`].
pub fn error_disposition(mode: CallMode, sink_configured: bool) -> (d: ErrorDisposition)
    ensures
        d == disposition_spec(mode, sink_configured),
{
    if matches!(mode, CallMode::Recoverable) && sink_configured {
        ErrorDisposition::Report
    } else {
        ErrorDisposition::Abort
    }
}

/// The bounded mailbox between the dispatcher and the host thread.
pub struct CallbackBridge {
    mailbox: Vec<BridgeCall>,
    cap: usize,
}

/// Whether the host accepted a call for execution.
pub enum CallOutcome {
    /// The call was queued for the host thread.
    Accepted,
    /// The host's inbound queue is full; the call comes back unchanged
    /// and the dispatcher must block and retry — nothing is dropped.
    WouldBlock(BridgeCall),
}

impl View for CallbackBridge {
    type V = Seq<BridgeCall>;

    closed spec fn view(&self) -> Seq<BridgeCall> {
        self.mailbox@
    }
}

impl CallbackBridge {
    /// The fixed capacity of the host's inbound call queue.
    pub closed spec fn cap(&self) -> usize {
        self.cap
    }

    /// The mailbox never exceeds its capacity.
    pub open spec fn wf(&self) -> bool {
        self@.len() <= self.cap() && self.cap() >= 1
    }

    /// A new bridge whose mailbox holds at most `cap` pending calls.
    pub fn new(cap: usize) -> (b: Self)
        requires
            cap >= 1,
        ensures
            b@ =~= Seq::<BridgeCall>::empty(),
            b.cap() == cap,
            b.wf(),
    {
        CallbackBridge { mailbox: Vec::new(), cap }
    }

    /// How many calls await the host thread.
    pub fn len(&self) -> (n: usize)
        ensures
            n == self@.len(),
    {
        self.mailbox.len()
    }

    /// Hand one call to the host thread.  The call is accepted exactly
    /// when the mailbox has room; a full mailbox hands the call back so
    /// the blocked dispatcher can retry without losing it.
    pub fn try_call(&mut self, call: BridgeCall) -> (r: CallOutcome)
        requires
            old(self).wf(),
        ensures
            final(self).wf(),
            final(self).cap() == old(self).cap(),
            match r {
                CallOutcome::Accepted => old(self)@.len() < old(self).cap() && final(self)@
                    == old(self)@.push(call),
                CallOutcome::WouldBlock(c) => old(self)@.len() == old(self).cap() && c == call
                    && final(self)@ == old(self)@,
            },
    {
        if self.mailbox.len() < self.cap {
            self.mailbox.push(call);
            CallOutcome::Accepted
        } else {
            CallOutcome::WouldBlock(call)
        }
    }

    /// The host-side pump: take the oldest pending call, if any.
    pub fn pump(&mut self) -> (r: Option<BridgeCall>)
        requires
            old(self).wf(),
        ensures
            final(self).wf(),
            final(self).cap() == old(self).cap(),
            match r {
                Some(c) => old(self)@.len() > 0 && c == old(self)@[0] && final(self)@ == old(
                    self,
                )@.remove(0),
                None => old(self)@.len() == 0 && final(self)@ == old(self)@,
            },
    {
        if self.mailbox.len() > 0 {
            Some(self.mailbox.remove(0))
        } else {
            None
        }
    }
}

} // verus!
