//! The decisions of the queue consumer's processing loop, as a state machine:
//! the caller performs each action it asks for (a receive, the handling of
//! one message, a delete, a pause) and reports the outcome as an event.
use crate::attributes::{opt_view, AttributeSet};
use crate::carrier::MessageAttributesExtractor;
use crate::payload::{unwrap_envelope, unwrapped, Decoded};
use vstd::prelude::*;

verus! {

/// A message as the queue hands it out.
pub struct ReceivedMessage {
    pub body: Option<String>,
    pub attributes: AttributeSet,
    pub receipt_handle: Option<String>,
}

impl ReceivedMessage {
    /// A reader over the message's own attributes, whatever its body holds.
    pub fn extractor(&self) -> (r: MessageAttributesExtractor<'_>)
        ensures
            r.0 == &self.attributes,
    {
        MessageAttributesExtractor(&self.attributes)
    }

    /// The message's body, decoded; nothing when it has no body.
    pub fn decode(&self) -> (r: Option<Decoded>)
        ensures
            r is None <==> self.body is None,
            r matches Some(d) ==> d@ == unwrapped(self.body->Some_0@),
    {
        match &self.body {
            Some(b) => Some(unwrap_envelope(b.as_str())),
            None => None,
        }
    }
}

/// How the loop polls and backs off.
pub struct PollSettings {
    /// The most messages one receive asks for.
    pub max_messages: i32,
    /// How long one receive may wait for messages, in seconds.
    pub wait_seconds: i32,
    /// How long the loop pauses after a failed transport call, in seconds.
    pub backoff_seconds: u64,
}

impl PollSettings {
    /// Batches of up to ten, long polls of twenty seconds, and a five second
    /// pause after a failure.
    pub fn standard() -> (r: PollSettings)
        ensures
            r.max_messages == 10,
            r.wait_seconds == 20,
            r.backoff_seconds == 5,
    {
        PollSettings { max_messages: 10, wait_seconds: 20, backoff_seconds: 5 }
    }
}

/// What the loop waits for.
#[derive(PartialEq, Eq, Structural, Clone, Copy, Debug)]
pub enum Phase {
    /// The outcome of a receive.
    Receiving,
    /// The end of the handling of one message.
    Handling,
    /// The outcome of a delete.
    Deleting,
    /// The end of a pause.
    Pausing,
}

/// The outcome of the last action.
pub enum Event {
    /// A receive returned these messages, in delivery order.
    Received(Vec<ReceivedMessage>),
    /// A receive failed in the transport.
    ReceiveFailed,
    /// A message was handled.
    Handled,
    /// A delete succeeded.
    Deleted,
    /// A delete failed in the transport.
    DeleteFailed,
    /// A pause ended.
    Resumed,
}

/// What the caller does next.
pub enum Action {
    /// Receive a batch. `idle` is set when the last receive returned nothing.
    Receive { max_messages: i32, wait_seconds: i32, idle: bool },
    /// Extract the message's trace context from its attributes, start a
    /// consumer span under it, decode and hand on its body, and end the span.
    /// `number` counts the messages received so far, this one included.
    Handle { message: ReceivedMessage, number: u64 },
    /// Acknowledge a handled message by deleting it.
    Delete { receipt_handle: String },
    /// Wait this many seconds.
    Pause { seconds: u64 },
}

/// The model of an action.
pub enum ActionModel {
    Receive { idle: bool },
    Handle { message: ReceivedMessage, number: u64 },
    Delete { receipt_handle: Seq<char> },
    Pause { seconds: u64 },
}

impl Action {
    pub open spec fn view(&self) -> ActionModel {
        match self {
            Action::Receive { idle, .. } => ActionModel::Receive { idle: *idle },
            Action::Handle { message, number } => ActionModel::Handle {
                message: *message,
                number: *number,
            },
            Action::Delete { receipt_handle } => ActionModel::Delete {
                receipt_handle: receipt_handle@,
            },
            Action::Pause { seconds } => ActionModel::Pause { seconds: *seconds },
        }
    }
}

/// The model of the loop's state.
pub struct LoopModel {
    pub phase: Phase,
    /// The messages of the current batch not yet handed out.
    pub pending: Seq<ReceivedMessage>,
    /// The receipt handle of the message being handled.
    pub receipt: Option<Seq<char>>,
    /// How many messages have been handed out, saturating.
    pub received: u64,
}

impl LoopModel {
    /// A loop waiting for a receive holds no messages of an earlier batch,
    /// and only a loop handling a message holds a receipt handle.
    pub open spec fn wf(&self) -> bool {
        &&& self.phase == Phase::Receiving ==> self.pending.len() == 0
        &&& self.phase != Phase::Handling ==> self.receipt is None
    }
}

/// One more, unless already at the largest `u64`.
pub open spec fn bump(n: u64) -> u64 {
    if n < u64::MAX {
        (n + 1) as u64
    } else {
        n
    }
}

/// Hands out the next pending message, or asks for a new batch when none is
/// left.
pub open spec fn advance(s: LoopModel) -> (LoopModel, ActionModel) {
    if s.pending.len() > 0 {
        let m = s.pending[0];
        let n = bump(s.received);
        (
            LoopModel {
                phase: Phase::Handling,
                pending: s.pending.drop_first(),
                receipt: opt_view(m.receipt_handle),
                received: n,
            },
            ActionModel::Handle { message: m, number: n },
        )
    } else {
        (
            LoopModel { phase: Phase::Receiving, pending: s.pending, receipt: None, received: s.received },
            ActionModel::Receive { idle: false },
        )
    }
}

/// The loop's answer to `e` in state `s`, with `backoff` seconds of pause
/// after a failed transport call: the next state and action, or nothing when
/// `e` is not the outcome that the state waits for.
pub open spec fn next(s: LoopModel, e: Event, backoff: u64) -> Option<(LoopModel, ActionModel)> {
    match (s.phase, e) {
        (Phase::Receiving, Event::Received(batch)) => if batch@.len() == 0 {
            Some((s, ActionModel::Receive { idle: true }))
        } else {
            Some(advance(LoopModel { pending: batch@, ..s }))
        },
        (Phase::Receiving, Event::ReceiveFailed) => Some(
            (LoopModel { phase: Phase::Pausing, ..s }, ActionModel::Pause { seconds: backoff }),
        ),
        (Phase::Handling, Event::Handled) => match s.receipt {
            Some(h) => Some(
                (
                    LoopModel { phase: Phase::Deleting, receipt: None, ..s },
                    ActionModel::Delete { receipt_handle: h },
                ),
            ),
            None => Some(advance(s)),
        },
        (Phase::Deleting, Event::Deleted) => Some(advance(s)),
        (Phase::Deleting, Event::DeleteFailed) => Some(
            (LoopModel { phase: Phase::Pausing, ..s }, ActionModel::Pause { seconds: backoff }),
        ),
        (Phase::Pausing, Event::Resumed) => Some(advance(s)),
        _ => None,
    }
}

/// Every answer of the loop keeps its state well formed.
pub proof fn lemma_next_wf(s: LoopModel, e: Event, backoff: u64)
    requires
        s.wf(),
    ensures
        next(s, e, backoff) matches Some(t) ==> t.0.wf(),
{
}

/// A receive that returns no messages leaves the loop as it was and leads
/// straight to the next receive: no message is handled and nothing is
/// deleted.
pub proof fn lemma_idle_poll(s: LoopModel, batch: Vec<ReceivedMessage>, backoff: u64)
    requires
        s.wf(),
        s.phase == Phase::Receiving,
        batch@.len() == 0,
    ensures
        next(s, Event::Received(batch), backoff) == Some((s, ActionModel::Receive { idle: true })),
{
}

/// A failed receive hands out no message and leads to a pause of the
/// configured length; when the pause ends, the loop receives again, with
/// no message handed out in between.
pub proof fn lemma_backoff(s: LoopModel, backoff: u64)
    requires
        s.wf(),
        s.phase == Phase::Receiving,
    ensures
        next(s, Event::ReceiveFailed, backoff) matches Some(t) && t.1 == (ActionModel::Pause {
            seconds: backoff,
        }) && t.0.received == s.received && t.0.pending.len() == 0 && next(t.0, Event::Resumed, backoff)
            == Some((s, ActionModel::Receive { idle: false })),
{
    let t = next(s, Event::ReceiveFailed, backoff)->Some_0;
    assert(t.0.pending =~= s.pending);
}

/// Once a message with a receipt handle is handed out, the end of its
/// handling leads to exactly one delete, with that message's own receipt
/// handle; the outcome of that delete never leads to another delete.
pub proof fn lemma_delete_follows_handle(
    s: LoopModel,
    e: Event,
    backoff: u64,
    after_delete: Event,
)
    requires
        s.wf(),
        next(s, e, backoff) matches Some(t) && t.1 matches ActionModel::Handle { message, .. }
            && message.receipt_handle is Some,
        after_delete matches Event::Deleted || after_delete matches Event::DeleteFailed,
    ensures
        ({
            let t = next(s, e, backoff)->Some_0;
            let m = t.1->Handle_message;
            let u = next(t.0, Event::Handled, backoff);
            &&& u matches Some(v) && v.1 == (ActionModel::Delete {
                receipt_handle: m.receipt_handle->Some_0@,
            })
            &&& next(u->Some_0.0, after_delete, backoff) matches Some(w) && !(w.1 is Delete)
        }),
{
}

/// The messages of a batch are handed out one at a time, in delivery order:
/// a batch hands out its first message, and once a message is handled, and
/// deleted when it has a receipt handle, the next one handed out is the
/// first still pending.
pub proof fn lemma_batch_order(s: LoopModel, batch: Vec<ReceivedMessage>, backoff: u64)
    requires
        s.wf(),
    ensures
        s.phase == Phase::Receiving && batch@.len() > 0 ==> ({
            let t = next(s, Event::Received(batch), backoff)->Some_0;
            &&& next(s, Event::Received(batch), backoff) is Some
            &&& t.1 == (ActionModel::Handle { message: batch@[0], number: bump(s.received) })
            &&& t.0.pending == batch@.drop_first()
        }),
        s.phase == Phase::Handling && s.pending.len() > 0 ==> ({
            let after = next(s, Event::Handled, backoff)->Some_0;
            let t = if s.receipt is Some {
                next(after.0, Event::Deleted, backoff)->Some_0
            } else {
                after
            };
            &&& t.1 == (ActionModel::Handle { message: s.pending[0], number: bump(s.received) })
            &&& t.0.pending == s.pending.drop_first()
        }),
{
}

/// The consumer loop's state.
pub struct ConsumerLoop {
    settings: PollSettings,
    phase: Phase,
    pending: Vec<ReceivedMessage>,
    receipt: Option<String>,
    received: u64,
}

impl ConsumerLoop {
    pub closed spec fn view(&self) -> LoopModel {
        LoopModel {
            phase: self.phase,
            pending: self.pending@,
            receipt: opt_view(self.receipt),
            received: self.received,
        }
    }

    pub closed spec fn spec_settings(&self) -> PollSettings {
        self.settings
    }

    /// A loop that starts by receiving; its first action is `first_receive`.
    pub fn new(settings: PollSettings) -> (r: ConsumerLoop)
        ensures
            r@ == (LoopModel { phase: Phase::Receiving, pending: Seq::empty(), receipt: None, received: 0 }),
            r@.wf(),
            r.spec_settings() == settings,
    {
        let r = ConsumerLoop { settings, phase: Phase::Receiving, pending: Vec::new(), receipt: None, received: 0 };
        assert(r@.pending =~= Seq::<ReceivedMessage>::empty());
        r
    }

    pub fn settings(&self) -> (r: &PollSettings)
        ensures
            *r == self.spec_settings(),
    {
        &self.settings
    }

    pub fn phase(&self) -> (r: Phase)
        ensures
            r == self@.phase,
    {
        self.phase
    }

    /// How many messages have been handed out so far.
    pub fn received(&self) -> (r: u64)
        ensures
            r == self@.received,
    {
        self.received
    }

    fn receive(&self, idle: bool) -> (r: Action)
        ensures
            r@ == (ActionModel::Receive { idle }),
            r matches Action::Receive { max_messages, wait_seconds, .. } ==> max_messages
                == self.settings.max_messages && wait_seconds == self.settings.wait_seconds,
    {
        Action::Receive {
            max_messages: self.settings.max_messages,
            wait_seconds: self.settings.wait_seconds,
            idle,
        }
    }

    /// The first action: a receive.
    pub fn first_receive(&self) -> (r: Action)
        ensures
            r@ == (ActionModel::Receive { idle: false }),
            r matches Action::Receive { max_messages, wait_seconds, .. } ==> max_messages
                == self.spec_settings().max_messages && wait_seconds
                == self.spec_settings().wait_seconds,
    {
        self.receive(false)
    }

    fn advance(&mut self) -> (r: Action)
        ensures
            (final(self)@, r@) == advance(old(self)@),
            final(self).settings == old(self).settings,
            r matches Action::Receive { max_messages, wait_seconds, .. } ==> max_messages
                == old(self).settings.max_messages && wait_seconds
                == old(self).settings.wait_seconds,
    {
        if self.pending.len() > 0 {
            let message = self.pending.remove(0);
            let receipt = match &message.receipt_handle {
                Some(h) => Some(h.clone()),
                None => None,
            };
            if self.received < u64::MAX {
                self.received = self.received + 1;
            }
            self.receipt = receipt;
            self.phase = Phase::Handling;
            Action::Handle { message, number: self.received }
        } else {
            self.phase = Phase::Receiving;
            self.receipt = None;
            self.receive(false)
        }
    }

    fn pause(&mut self) -> (r: Action)
        ensures
            final(self)@ == (LoopModel { phase: Phase::Pausing, ..old(self)@ }),
            final(self).settings == old(self).settings,
            r@ == (ActionModel::Pause { seconds: old(self).settings.backoff_seconds }),
    {
        self.phase = Phase::Pausing;
        Action::Pause { seconds: self.settings.backoff_seconds }
    }

    /// Takes the outcome of the last action and decides the next one. An
    /// event that is not the outcome the loop waits for leaves it unchanged
    /// and yields nothing.
    pub fn step(&mut self, event: Event) -> (r: Option<Action>)
        requires
            old(self)@.wf(),
        ensures
            final(self)@.wf(),
            final(self).spec_settings() == old(self).spec_settings(),
            next(old(self)@, event, old(self).spec_settings().backoff_seconds) matches Some(t) ==> r
                matches Some(a) && (final(self)@, a@) == t,
            next(old(self)@, event, old(self).spec_settings().backoff_seconds) is None ==> r is None
                && final(self)@ == old(self)@,
            r matches Some(Action::Receive { max_messages, wait_seconds, .. }) ==> max_messages
                == old(self).spec_settings().max_messages && wait_seconds
                == old(self).spec_settings().wait_seconds,
    {
        proof {
            lemma_next_wf(self@, event, self.settings.backoff_seconds);
        }
        match (self.phase, event) {
            (Phase::Receiving, Event::Received(batch)) => {
                if batch.len() == 0 {
                    Some(self.receive(true))
                } else {
                    self.pending = batch;
                    Some(self.advance())
                }
            },
            (Phase::Receiving, Event::ReceiveFailed) => Some(self.pause()),
            (Phase::Handling, Event::Handled) => {
                match self.receipt.take() {
                    Some(h) => {
                        self.phase = Phase::Deleting;
                        Some(Action::Delete { receipt_handle: h })
                    },
                    None => Some(self.advance()),
                }
            },
            (Phase::Deleting, Event::Deleted) => Some(self.advance()),
            (Phase::Deleting, Event::DeleteFailed) => Some(self.pause()),
            (Phase::Pausing, Event::Resumed) => Some(self.advance()),
            _ => None,
        }
    }
}

} // verus!
