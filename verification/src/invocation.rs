//! One invocation, from its request to its outcome.
//!
//! An invocation starts `Idle`, becomes `Sent` when its request has been
//! written, may loop in `Replying` while a source streams, and ends in exactly
//! one of `Completed`, `Errored` or `Failed`. Once it has ended nothing moves
//! it again.

use vstd::prelude::*;
use crate::convention::CallKind;
use crate::envelope::{Event, Fault, ReplyEnvelope};

verus! {

/// Why an invocation failed below the protocol.
#[derive(Debug, PartialEq, Eq)]
pub enum Failure {
    /// The request could not be written.
    Send(String),
    /// Reply traffic was seen before the request had been written.
    EarlyReply,
    /// The peer closed the stream of a single-reply call without a reply.
    PrematureClose,
    /// A reply could not be had, for the fault and in the words given.
    Receive(Fault, String),
}

impl Failure {
    /// The class of the failure: only an unreadable reply is a decode fault.
    pub open spec fn fault(self) -> Fault {
        match self {
            Failure::Receive(fault, _) => fault,
            _ => Fault::Transport,
        }
    }

    /// The class of the failure.
    pub fn class(&self) -> (r: Fault)
        ensures
            r == self.fault(),
    {
        match self {
            Failure::Receive(fault, _) => *fault,
            _ => Fault::Transport,
        }
    }
}

impl Clone for Failure {
    fn clone(&self) -> (r: Self)
        ensures
            r == *self,
    {
        match self {
            Failure::Send(detail) => Failure::Send(detail.clone()),
            Failure::EarlyReply => Failure::EarlyReply,
            Failure::PrematureClose => Failure::PrematureClose,
            Failure::Receive(fault, detail) => Failure::Receive(*fault, detail.clone()),
        }
    }
}

/// The terminal result of an invocation.
#[derive(Debug, PartialEq, Eq)]
pub enum Outcome {
    /// The reply traffic was well-formed and ran to its natural end.
    Success,
    /// The peer answered with the error value given.
    ProtocolError(String),
    /// The exchange broke down.
    Failure(Failure),
}

/// Where an invocation stands.
#[derive(Debug, PartialEq, Eq)]
pub enum Phase {
    /// Nothing has been written yet.
    Idle,
    /// The request is written; no reply has been seen.
    Sent,
    /// A source has delivered at least one item and is still open.
    Replying,
    /// Ended well.
    Completed,
    /// Ended with the peer's error value.
    Errored(String),
    /// Ended with a failure.
    Failed(Failure),
}

impl Phase {
    /// Whether the invocation has ended.
    pub open spec fn terminal(self) -> bool {
        self is Completed || self is Errored || self is Failed
    }

    /// Whether replies are awaited.
    pub open spec fn receiving(self) -> bool {
        self is Sent || self is Replying
    }

    /// The outcome that an ended invocation has reached.
    pub open spec fn outcome(self) -> Option<Outcome> {
        match self {
            Phase::Completed => Some(Outcome::Success),
            Phase::Errored(value) => Some(Outcome::ProtocolError(value)),
            Phase::Failed(failure) => Some(Outcome::Failure(failure)),
            _ => None,
        }
    }

    /// Whether the invocation has ended.
    pub fn is_terminal(&self) -> (r: bool)
        ensures
            r == self.terminal(),
    {
        match self {
            Phase::Completed => true,
            Phase::Errored(_) => true,
            Phase::Failed(_) => true,
            _ => false,
        }
    }

    /// Whether replies are awaited.
    pub fn is_receiving(&self) -> (r: bool)
        ensures
            r == self.receiving(),
    {
        match self {
            Phase::Sent => true,
            Phase::Replying => true,
            _ => false,
        }
    }

    /// The outcome reached, if the invocation has ended.
    pub fn to_outcome(&self) -> (r: Option<Outcome>)
        ensures
            r == self.outcome(),
    {
        match self {
            Phase::Completed => Some(Outcome::Success),
            Phase::Errored(value) => Some(Outcome::ProtocolError(value.clone())),
            Phase::Failed(failure) => Some(Outcome::Failure(failure.clone())),
            _ => None,
        }
    }
}

impl Clone for Phase {
    fn clone(&self) -> (r: Self)
        ensures
            r == *self,
    {
        match self {
            Phase::Idle => Phase::Idle,
            Phase::Sent => Phase::Sent,
            Phase::Replying => Phase::Replying,
            Phase::Completed => Phase::Completed,
            Phase::Errored(value) => Phase::Errored(value.clone()),
            Phase::Failed(failure) => Phase::Failed(failure.clone()),
        }
    }
}

/// The mathematical state of an invocation.
pub struct InvocationView {
    /// The convention under which the request was made.
    pub kind: CallKind,
    /// Where the invocation stands.
    pub phase: Phase,
    /// The response values delivered so far, oldest first.
    pub delivered: Seq<String>,
}

impl InvocationView {
    /// A fresh invocation.
    pub open spec fn start(kind: CallKind) -> InvocationView {
        InvocationView { kind, phase: Phase::Idle, delivered: Seq::empty() }
    }

    /// The invocation in another phase.
    pub open spec fn at(self, phase: Phase) -> InvocationView {
        InvocationView { phase, ..self }
    }

    /// The state after one event.
    ///
    /// An ended invocation drops every event. A failed send ends any
    /// invocation that is still in flight. Before the request is written the
    /// only good news is that it has been; while replies are awaited, each
    /// envelope is taken for what it is, and the end of the stream completes a
    /// source and fails a single-reply call.
    pub open spec fn step(self, event: Event) -> InvocationView {
        if self.phase.terminal() {
            self
        } else {
            match event {
                Event::SendFailed(detail) => self.at(Phase::Failed(Failure::Send(detail))),
                Event::SendCompleted => if self.phase is Idle {
                    self.at(Phase::Sent)
                } else {
                    self
                },
                Event::Reply(envelope) => if self.phase is Idle {
                    self.at(Phase::Failed(Failure::EarlyReply))
                } else {
                    match envelope {
                        ReplyEnvelope::Payload(value) => InvocationView {
                            kind: self.kind,
                            phase: if self.kind.single_reply() {
                                Phase::Completed
                            } else {
                                Phase::Replying
                            },
                            delivered: self.delivered.push(value),
                        },
                        ReplyEnvelope::ProtocolError(value) => self.at(Phase::Errored(value)),
                        ReplyEnvelope::Failure(fault, detail) => self.at(
                            Phase::Failed(Failure::Receive(fault, detail)),
                        ),
                    }
                },
                Event::EndOfStream => if self.phase is Idle {
                    self.at(Phase::Failed(Failure::EarlyReply))
                } else if self.kind.single_reply() {
                    self.at(Phase::Failed(Failure::PrematureClose))
                } else {
                    self.at(Phase::Completed)
                },
            }
        }
    }

    /// The state after a run of events, taken in order.
    pub open spec fn run(self, events: Seq<Event>) -> InvocationView
        decreases events.len(),
    {
        if events.len() == 0 {
            self
        } else {
            self.run(events.drop_last()).step(events.last())
        }
    }

    /// What holds of every state that a fresh invocation can reach: nothing is
    /// delivered before a reply is awaited, only a source is ever `Replying`,
    /// and a single-reply call delivers one value if it completes and none
    /// otherwise.
    pub open spec fn wf(self) -> bool {
        match self.phase {
            Phase::Idle => self.delivered.len() == 0,
            Phase::Sent => self.delivered.len() == 0,
            Phase::Replying => !self.kind.single_reply() && self.delivered.len() > 0,
            Phase::Completed => self.kind.single_reply() ==> self.delivered.len() == 1,
            _ => self.kind.single_reply() ==> self.delivered.len() == 0,
        }
    }
}

/// One invocation of an RPC.
#[derive(Debug)]
pub struct Invocation {
    kind: CallKind,
    phase: Phase,
    delivered: Vec<String>,
}

impl View for Invocation {
    type V = InvocationView;

    closed spec fn view(&self) -> InvocationView {
        InvocationView { kind: self.kind, phase: self.phase, delivered: self.delivered@ }
    }
}

impl Invocation {
    /// An invocation whose request has not been written yet.
    pub fn new(kind: CallKind) -> (r: Invocation)
        ensures
            r@ == InvocationView::start(kind),
            r@.wf(),
    {
        Invocation { kind, phase: Phase::Idle, delivered: Vec::new() }
    }

    /// The convention under which the request was made.
    pub fn kind(&self) -> (r: CallKind)
        ensures
            r == self@.kind,
    {
        self.kind
    }

    /// Where the invocation stands.
    pub fn phase(&self) -> (r: &Phase)
        ensures
            *r == self@.phase,
    {
        &self.phase
    }

    /// The response values delivered so far, oldest first.
    pub fn delivered(&self) -> (r: &Vec<String>)
        ensures
            r@ == self@.delivered,
    {
        &self.delivered
    }

    /// The outcome, once the invocation has ended.
    pub fn outcome(&self) -> (r: Option<Outcome>)
        ensures
            r == self@.phase.outcome(),
    {
        self.phase.to_outcome()
    }

    /// Takes one event.
    pub fn step(&mut self, event: Event)
        ensures
            final(self)@ == old(self)@.step(event),
            old(self)@.wf() ==> final(self)@.wf(),
    {
        if self.phase.is_terminal() {
            return;
        }
        let idle = !self.phase.is_receiving();
        match event {
            Event::SendFailed(detail) => {
                self.phase = Phase::Failed(Failure::Send(detail));
            },
            Event::SendCompleted => {
                if idle {
                    self.phase = Phase::Sent;
                }
            },
            Event::Reply(envelope) => {
                if idle {
                    self.phase = Phase::Failed(Failure::EarlyReply);
                } else {
                    match envelope {
                        ReplyEnvelope::Payload(value) => {
                            self.delivered.push(value);
                            if self.kind.is_single_reply() {
                                self.phase = Phase::Completed;
                            } else {
                                self.phase = Phase::Replying;
                            }
                        },
                        ReplyEnvelope::ProtocolError(value) => {
                            self.phase = Phase::Errored(value);
                        },
                        ReplyEnvelope::Failure(fault, detail) => {
                            self.phase = Phase::Failed(Failure::Receive(fault, detail));
                        },
                    }
                }
            },
            Event::EndOfStream => {
                if idle {
                    self.phase = Phase::Failed(Failure::EarlyReply);
                } else if self.kind.is_single_reply() {
                    self.phase = Phase::Failed(Failure::PrematureClose);
                } else {
                    self.phase = Phase::Completed;
                }
            },
        }
    }
}

/// The events of a stream that delivers the given values, oldest first.
pub open spec fn payloads(values: Seq<String>) -> Seq<Event> {
    Seq::new(values.len(), |i: int| Event::Reply(ReplyEnvelope::Payload(values[i])))
}

/// Running one event more is running, then stepping.
pub proof fn lemma_run_push(state: InvocationView, events: Seq<Event>, event: Event)
    ensures
        state.run(events.push(event)) == state.run(events).step(event),
{
    assert(events.push(event).drop_last() =~= events);
}

/// Running a sequence of events in two parts is running it at once.
pub proof fn law_run_in_parts(state: InvocationView, first: Seq<Event>, second: Seq<Event>)
    ensures
        state.run(first + second) == state.run(first).run(second),
    decreases second.len(),
{
    if second.len() == 0 {
        assert(first + second =~= first);
    } else {
        law_run_in_parts(state, first, second.drop_last());
        assert((first + second).drop_last() =~= first + second.drop_last());
    }
}

/// Every step keeps a well-formed state well-formed.
pub proof fn law_step_keeps_well_formed(state: InvocationView, event: Event)
    requires
        state.wf(),
    ensures
        state.step(event).wf(),
{
}

/// Whatever happens to a fresh invocation, its state is well-formed.
pub proof fn law_reachable_states_are_well_formed(kind: CallKind, events: Seq<Event>)
    ensures
        InvocationView::start(kind).run(events).wf(),
    decreases events.len(),
{
    if events.len() > 0 {
        law_reachable_states_are_well_formed(kind, events.drop_last());
        law_step_keeps_well_formed(
            InvocationView::start(kind).run(events.drop_last()),
            events.last(),
        );
    }
}

/// An invocation that has ended is never changed again: its outcome stands,
/// and what arrives later is dropped.
pub proof fn law_ended_invocation_never_moves(state: InvocationView, events: Seq<Event>)
    requires
        state.phase.terminal(),
    ensures
        state.run(events) == state,
    decreases events.len(),
{
    if events.len() > 0 {
        law_ended_invocation_never_moves(state, events.drop_last());
    }
}

/// A sync or async call whose request is written and whose peer answers with
/// one response value completes, and delivers exactly that value.
pub proof fn law_single_reply_delivers_its_value(kind: CallKind, value: String)
    requires
        kind.single_reply(),
    ensures
        InvocationView::start(kind).run(
            seq![Event::SendCompleted, Event::Reply(ReplyEnvelope::Payload(value))],
        ) == (InvocationView { kind, phase: Phase::Completed, delivered: seq![value] }),
{
    let start = InvocationView::start(kind);
    let sent = seq![Event::SendCompleted];
    let reply = Event::Reply(ReplyEnvelope::Payload(value));
    lemma_run_push(start, Seq::empty(), Event::SendCompleted);
    assert(Seq::<Event>::empty().push(Event::SendCompleted) =~= sent);
    lemma_run_push(start, sent, reply);
    assert(sent.push(reply) =~= seq![Event::SendCompleted, reply]);
    assert(Seq::<String>::empty().push(value) =~= seq![value]);
}

/// No reply counts before the request is written: an invocation that awaits
/// replies, has delivered a value or has completed saw the completion of its
/// send leg as its first event. Any other first event fails it for good.
pub proof fn law_send_completes_before_replies(kind: CallKind, events: Seq<Event>)
    ensures
        ({
            let end = InvocationView::start(kind).run(events);
            &&& end.phase.receiving() || end.phase is Completed || end.phase is Errored
                || end.delivered.len() > 0 ==> events.len() > 0 && events[0] == Event::SendCompleted
            &&& events.len() > 0 && events[0] != Event::SendCompleted ==> end.phase is Failed
        }),
    decreases events.len(),
{
    if events.len() > 0 {
        let before = events.drop_last();
        law_send_completes_before_replies(kind, before);
        if before.len() > 0 {
            assert(before[0] == events[0]);
        }
    }
}

/// A source whose request is written delivers every value that the peer sends
/// before it closes the stream, in order, and then completes. With no value at
/// all it completes just the same.
pub proof fn law_source_delivers_every_item(values: Seq<String>)
    ensures
        InvocationView::start(CallKind::Source).run(
            seq![Event::SendCompleted] + payloads(values) + seq![Event::EndOfStream],
        ) == (InvocationView {
            kind: CallKind::Source,
            phase: Phase::Completed,
            delivered: values,
        }),
{
    let start = InvocationView::start(CallKind::Source);
    let open = seq![Event::SendCompleted] + payloads(values);
    lemma_source_stays_open(values);
    lemma_run_push(start, open, Event::EndOfStream);
    assert(open.push(Event::EndOfStream) =~= open + seq![Event::EndOfStream]);
}

/// While the peer only sends values, a source holds all of them and awaits more.
pub proof fn lemma_source_stays_open(values: Seq<String>)
    ensures
        InvocationView::start(CallKind::Source).run(
            seq![Event::SendCompleted] + payloads(values),
        ) == (InvocationView {
            kind: CallKind::Source,
            phase: if values.len() == 0 {
                Phase::Sent
            } else {
                Phase::Replying
            },
            delivered: values,
        }),
    decreases values.len(),
{
    let start = InvocationView::start(CallKind::Source);
    let sent = seq![Event::SendCompleted];
    if values.len() == 0 {
        lemma_run_push(start, Seq::empty(), Event::SendCompleted);
        assert(Seq::<Event>::empty().push(Event::SendCompleted) =~= sent);
        assert(sent + payloads(values) =~= sent);
        assert(values =~= Seq::<String>::empty());
    } else {
        let earlier = values.drop_last();
        let last = Event::Reply(ReplyEnvelope::Payload(values.last()));
        lemma_source_stays_open(earlier);
        lemma_run_push(start, sent + payloads(earlier), last);
        assert((sent + payloads(earlier)).push(last) =~= sent + payloads(values));
        assert(earlier.push(values.last()) =~= values);
    }
}

} // verus!
