//! The decisions of the accept loop: what to do with each thing that
//! happens on the bound transport.
//!
//! The loop itself runs outside the verified core: it waits on the
//! transport and on the shutdown signal, hands each outcome to
//! [`Dispatcher::on_event`] and performs the action that comes back.

use vstd::prelude::*;

use crate::addr::PeerAddr;
use crate::context::{fresh_context, ContextView, InnerContext};
use crate::error::ServerError;

verus! {

/// Something that happened to the accept loop.
pub enum LoopEvent {
    /// A receive filled `buffer` up to `len` bytes with a datagram from
    /// `peer`.
    Received { buffer: Vec<u8>, len: usize, peer: PeerAddr },
    /// A receive failed with the transport's message.
    ReadFailed(String),
    /// The shutdown signal fired.
    ShutdownRequested,
}

/// What the accept loop does next.
pub enum LoopAction {
    /// Run the pipeline against this context, concurrently, and go back to
    /// receiving.
    Dispatch(InnerContext),
    /// Report this error to the read-error handler and go back to receiving.
    ReportReadError(ServerError),
    /// Stop receiving and fire the completion signal.
    Stop,
}

/// The mathematical content of a [`LoopEvent`].
pub enum EventView {
    Received { buffer: Seq<u8>, len: nat, peer: PeerAddr },
    ReadFailed(String),
    ShutdownRequested,
}

/// The mathematical content of a [`LoopAction`].
pub enum ActionView {
    Dispatch(ContextView),
    ReportReadError(ServerError),
    Stop,
}

impl View for LoopEvent {
    type V = EventView;

    open spec fn view(&self) -> EventView {
        match self {
            LoopEvent::Received { buffer, len, peer } => EventView::Received {
                buffer: buffer@,
                len: *len as nat,
                peer: *peer,
            },
            LoopEvent::ReadFailed(m) => EventView::ReadFailed(*m),
            LoopEvent::ShutdownRequested => EventView::ShutdownRequested,
        }
    }
}

impl View for LoopAction {
    type V = ActionView;

    open spec fn view(&self) -> ActionView {
        match self {
            LoopAction::Dispatch(c) => ActionView::Dispatch(c@),
            LoopAction::ReportReadError(e) => ActionView::ReportReadError(*e),
            LoopAction::Stop => ActionView::Stop,
        }
    }
}

/// The payload of a receive that filled `buffer` up to `len` bytes: a
/// report beyond the buffer is cut to the buffer, so an oversized datagram
/// arrives truncated.
pub open spec fn received_payload(buffer: Seq<u8>, len: nat) -> Seq<u8> {
    if len <= buffer.len() {
        buffer.take(len as int)
    } else {
        buffer
    }
}

/// The loop's next stopped flag and action, from its stopped flag and an
/// event. A stopped loop processes nothing more.
pub open spec fn loop_step(stopped: bool, e: EventView) -> (bool, ActionView) {
    if stopped {
        (true, ActionView::Stop)
    } else {
        match e {
            EventView::Received { buffer, len, peer } => (
                false,
                ActionView::Dispatch(fresh_context(received_payload(buffer, len), peer)),
            ),
            EventView::ReadFailed(m) => (false, ActionView::ReportReadError(ServerError::UdpRead(m))),
            EventView::ShutdownRequested => (true, ActionView::Stop),
        }
    }
}

/// The actions of a loop that starts with flag `stopped` and meets
/// `events` in order.
pub open spec fn run_loop(stopped: bool, events: Seq<EventView>) -> Seq<ActionView>
    decreases events.len(),
{
    if events.len() == 0 {
        Seq::empty()
    } else {
        let (next, a) = loop_step(stopped, events[0]);
        seq![a] + run_loop(next, events.drop_first())
    }
}

proof fn lemma_run_loop_len(stopped: bool, events: Seq<EventView>)
    ensures
        run_loop(stopped, events).len() == events.len(),
    decreases events.len(),
{
    if events.len() > 0 {
        lemma_run_loop_len(loop_step(stopped, events[0]).0, events.drop_first());
    }
}

proof fn lemma_stopped_loop_only_stops(events: Seq<EventView>)
    ensures
        forall|j: int| 0 <= j < events.len() ==> #[trigger] run_loop(true, events)[j] is Stop,
    decreases events.len(),
{
    if events.len() > 0 {
        lemma_stopped_loop_only_stops(events.drop_first());
        lemma_run_loop_len(true, events.drop_first());
        assert forall|j: int| 0 <= j < events.len() implies #[trigger] run_loop(true, events)[j] is Stop by {
            if j > 0 {
                assert(run_loop(true, events)[j] == run_loop(true, events.drop_first())[j - 1]);
            }
        }
    }
}

/// Once the shutdown signal has reached the loop, the loop stops and
/// dispatches no further datagram, whatever arrives afterwards.
pub proof fn lemma_no_dispatch_after_shutdown(stopped: bool, events: Seq<EventView>, i: int)
    requires
        0 <= i < events.len(),
        events[i] is ShutdownRequested,
    ensures
        run_loop(stopped, events).len() == events.len(),
        run_loop(stopped, events)[i] is Stop,
        forall|j: int| i <= j < events.len() ==> !(#[trigger] run_loop(stopped, events)[j] is Dispatch),
    decreases i,
{
    lemma_run_loop_len(stopped, events);
    let (next, a) = loop_step(stopped, events[0]);
    let rest = events.drop_first();
    lemma_run_loop_len(next, rest);
    if i == 0 {
        lemma_stopped_loop_only_stops(rest);
        assert forall|j: int| i <= j < events.len() implies !(#[trigger] run_loop(
            stopped,
            events,
        )[j] is Dispatch) by {
            if j > 0 {
                assert(run_loop(stopped, events)[j] == run_loop(true, rest)[j - 1]);
            }
        }
    } else {
        lemma_no_dispatch_after_shutdown(next, rest, i - 1);
        assert forall|j: int| i <= j < events.len() implies !(#[trigger] run_loop(
            stopped,
            events,
        )[j] is Dispatch) by {
            assert(run_loop(stopped, events)[j] == run_loop(next, rest)[j - 1]);
        }
        assert(run_loop(stopped, events)[i] == run_loop(next, rest)[i - 1]);
    }
}

/// Every context that the loop dispatches is built from its own datagram
/// alone: it holds that datagram's payload and sender, an empty response
/// and no attributes, whatever other datagrams came before or after.
pub proof fn lemma_dispatched_context_is_fresh(stopped: bool, events: Seq<EventView>, j: int)
    requires
        0 <= j < events.len(),
        run_loop(stopped, events).len() == events.len(),
        run_loop(stopped, events)[j] is Dispatch,
    ensures
        events[j] matches EventView::Received { buffer, len, peer } && run_loop(stopped, events)[j]
            == ActionView::Dispatch(fresh_context(received_payload(buffer, len), peer)),
        run_loop(stopped, events)[j]->Dispatch_0.attributes.is_empty(),
        run_loop(stopped, events)[j]->Dispatch_0.response.len() == 0,
    decreases j,
{
    let (next, a) = loop_step(stopped, events[0]);
    if j > 0 {
        lemma_run_loop_len(next, events.drop_first());
        assert(run_loop(stopped, events)[j] == run_loop(next, events.drop_first())[j - 1]);
        lemma_dispatched_context_is_fresh(next, events.drop_first(), j - 1);
    }
}

/// The accept loop's state: the size of its receive buffer, and whether it
/// has stopped.
pub struct Dispatcher {
    buffer_size: usize,
    stopped: bool,
}

impl Dispatcher {
    /// The size of the receive buffer.
    pub closed spec fn buffer_len(&self) -> nat {
        self.buffer_size as nat
    }

    /// Whether the loop has stopped.
    pub closed spec fn has_stopped(&self) -> bool {
        self.stopped
    }

    /// A running loop that receives into buffers of `buffer_size` bytes.
    pub fn new(buffer_size: usize) -> (r: Dispatcher)
        ensures
            r.buffer_len() == buffer_size,
            !r.has_stopped(),
    {
        Dispatcher { buffer_size, stopped: false }
    }

    /// A zeroed buffer of the configured size for the next receive.
    pub fn receive_buffer(&self) -> (r: Vec<u8>)
        ensures
            r@ == Seq::new(self.buffer_len(), |i: int| 0u8),
    {
        let mut r: Vec<u8> = Vec::with_capacity(self.buffer_size);
        let mut i: usize = 0;
        while i < self.buffer_size
            invariant
                i <= self.buffer_size,
                r@ == Seq::new(i as nat, |k: int| 0u8),
            decreases self.buffer_size - i,
        {
            r.push(0u8);
            i = i + 1;
            assert(r@ =~= Seq::new(i as nat, |k: int| 0u8));
        }
        r
    }

    /// Whether the loop has stopped.
    pub fn is_stopped(&self) -> (r: bool)
        ensures
            r == self.has_stopped(),
    {
        self.stopped
    }

    /// Decides what to do with `event`.
    pub fn on_event(&mut self, event: LoopEvent) -> (r: LoopAction)
        ensures
            final(self).buffer_len() == old(self).buffer_len(),
            (final(self).has_stopped(), r@) == loop_step(old(self).has_stopped(), event@),
            r matches LoopAction::Dispatch(c) ==> c.wf(),
    {
        if self.stopped {
            return LoopAction::Stop;
        }
        match event {
            LoopEvent::Received { buffer, len, peer } => {
                let mut payload = buffer;
                if len <= payload.len() {
                    payload.truncate(len);
                }
                LoopAction::Dispatch(InnerContext::from_datagram(payload, peer))
            },
            LoopEvent::ReadFailed(m) => LoopAction::ReportReadError(ServerError::UdpRead(m)),
            LoopEvent::ShutdownRequested => {
                self.stopped = true;
                LoopAction::Stop
            },
        }
    }
}

} // verus!
