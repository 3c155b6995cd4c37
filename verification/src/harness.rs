//! The harness that drives an invocation and judges where it stands.
//!
//! A harness asks the dispatcher for a stream, hands it the events of the
//! exchange in the order in which they were observed, and says what has to be
//! printed and what has to happen next. Under the verification policy every
//! failure and every protocol error aborts the run. Under the inspection
//! policy each response value and each protocol error is printed, and only a
//! failure aborts.

use vstd::prelude::*;
use crate::convention::CallKind;
use crate::dispatcher::{delivered_to, opened, Dispatcher, StreamHandle};
use crate::envelope::{Event, ReplyEnvelope};
use crate::invocation::{
    law_run_in_parts, law_single_reply_delivers_its_value, law_source_delivers_every_item,
    lemma_run_push, lemma_source_stays_open, payloads, Failure, Invocation, InvocationView, Phase,
};

verus! {

/// How a harness treats what it observes.
#[derive(Clone, Copy, Debug, PartialEq, Eq, Structural)]
pub enum Policy {
    /// Anything but success is fatal to the run; nothing is printed.
    Verification,
    /// Response values and protocol errors are printed; failures are fatal.
    Inspection,
}

/// What the driver of an invocation has to do next.
#[derive(Debug, PartialEq, Eq)]
pub enum Directive {
    /// Wait until the request is written.
    AwaitSend,
    /// Wait for the next reply.
    AwaitReply,
    /// The invocation is over and the run goes on.
    Finished,
    /// The run must stop with the message given.
    Abort(String),
}

/// A directive, with its message as mathematical text.
pub enum DirectiveView {
    AwaitSend,
    AwaitReply,
    Finished,
    Abort(Seq<char>),
}

impl View for Directive {
    type V = DirectiveView;

    open spec fn view(&self) -> DirectiveView {
        match self {
            Directive::AwaitSend => DirectiveView::AwaitSend,
            Directive::AwaitReply => DirectiveView::AwaitReply,
            Directive::Finished => DirectiveView::Finished,
            Directive::Abort(message) => DirectiveView::Abort(message@),
        }
    }
}

/// What a harness has to say about its invocation.
#[derive(Debug, PartialEq, Eq)]
pub struct Report {
    /// The lines to print, oldest first.
    pub printed: Vec<String>,
    /// What has to happen next.
    pub next: Directive,
}

/// The driver of one invocation: the policy under which the invocation is
/// judged, and the stream that the dispatcher opened for it.
#[derive(Clone, Copy, Debug, PartialEq, Eq, Structural)]
pub struct Harness {
    /// How outcomes are treated.
    pub policy: Policy,
    /// The stream of the invocation.
    pub handle: StreamHandle,
}

/// The message for a request that could not be written.
pub open spec fn send_failure_text(kind: CallKind, detail: Seq<char>) -> Seq<char> {
    "Failed to send "@ + kind.tag() + " request:\n\n"@ + detail
}

/// The message for a reply that could not be accepted.
pub open spec fn receive_failure_text(what: Seq<char>) -> Seq<char> {
    "Got error receiving: "@ + what
}

/// How an error value sent by the peer is written out.
pub open spec fn peer_error_text(value: Seq<char>) -> Seq<char> {
    "PeerError("@ + value + ")"@
}

/// The message with which a failed invocation aborts the run.
pub open spec fn failure_text(kind: CallKind, failure: Failure) -> Seq<char> {
    match failure {
        Failure::Send(detail) => send_failure_text(kind, detail@),
        Failure::EarlyReply => receive_failure_text("reply arrived before the request was sent"@),
        Failure::PrematureClose => receive_failure_text("stream closed before a reply arrived"@),
        Failure::Receive(_, detail) => receive_failure_text(detail@),
    }
}

/// What has to happen next, given where an invocation stands.
pub open spec fn directive(policy: Policy, state: InvocationView) -> DirectiveView {
    match state.phase {
        Phase::Idle => DirectiveView::AwaitSend,
        Phase::Sent => DirectiveView::AwaitReply,
        Phase::Replying => DirectiveView::AwaitReply,
        Phase::Completed => DirectiveView::Finished,
        Phase::Errored(value) => match policy {
            Policy::Verification => DirectiveView::Abort(
                receive_failure_text(peer_error_text(value@)),
            ),
            Policy::Inspection => DirectiveView::Finished,
        },
        Phase::Failed(failure) => DirectiveView::Abort(failure_text(state.kind, failure)),
    }
}

/// The line that an event makes the harness print, given the state in which
/// the event arrives: under the inspection policy, each response value and
/// each protocol error that an invocation awaiting replies receives.
pub open spec fn line(policy: Policy, before: InvocationView, event: Event) -> Option<Seq<char>> {
    if policy == Policy::Inspection && before.phase.receiving() {
        match event {
            Event::Reply(ReplyEnvelope::Payload(value)) => Some(value@),
            Event::Reply(ReplyEnvelope::ProtocolError(value)) => Some(peer_error_text(value@)),
            _ => None,
        }
    } else {
        None
    }
}

/// The lines that one event makes the harness print: one or none.
pub open spec fn shown(policy: Policy, before: InvocationView, event: Event) -> Seq<Seq<char>> {
    match line(policy, before, event) {
        Some(text) => seq![text],
        None => Seq::empty(),
    }
}

/// All lines that a run of events makes the harness print, oldest first.
pub open spec fn lines(policy: Policy, start: InvocationView, events: Seq<Event>) -> Seq<
    Seq<char>,
>
    decreases events.len(),
{
    if events.len() == 0 {
        Seq::empty()
    } else {
        let earlier = lines(policy, start, events.drop_last());
        match line(policy, start.run(events.drop_last()), events.last()) {
            Some(text) => earlier.push(text),
            None => earlier,
        }
    }
}

/// The texts of the given strings, in order.
pub open spec fn texts(values: Seq<String>) -> Seq<Seq<char>> {
    Seq::new(values.len(), |i: int| values[i]@)
}

/// Writes the message for a request that could not be written.
pub fn send_failure_message(kind: CallKind, detail: &str) -> (r: String)
    ensures
        r@ == send_failure_text(kind, detail@),
{
    let mut message = String::from_str("Failed to send ");
    message.append(kind.wire_tag());
    message.append(" request:\n\n");
    message.append(detail);
    message
}

/// Writes the message for a reply that could not be accepted.
pub fn receive_failure_message(what: &str) -> (r: String)
    ensures
        r@ == receive_failure_text(what@),
{
    let mut message = String::from_str("Got error receiving: ");
    message.append(what);
    message
}

/// Writes out an error value sent by the peer.
pub fn peer_error_message(value: &str) -> (r: String)
    ensures
        r@ == peer_error_text(value@),
{
    let mut message = String::from_str("PeerError(");
    message.append(value);
    message.append(")");
    message
}

/// Writes the message with which a failed invocation aborts the run.
pub fn failure_message(kind: CallKind, failure: &Failure) -> (r: String)
    ensures
        r@ == failure_text(kind, *failure),
{
    match failure {
        Failure::Send(detail) => send_failure_message(kind, detail.as_str()),
        Failure::EarlyReply => receive_failure_message("reply arrived before the request was sent"),
        Failure::PrematureClose => receive_failure_message("stream closed before a reply arrived"),
        Failure::Receive(_, detail) => receive_failure_message(detail.as_str()),
    }
}

/// Says what has to happen next for an invocation.
pub fn directive_for(policy: Policy, invocation: &Invocation) -> (r: Directive)
    ensures
        r@ == directive(policy, invocation@),
{
    match invocation.phase() {
        Phase::Idle => Directive::AwaitSend,
        Phase::Sent => Directive::AwaitReply,
        Phase::Replying => Directive::AwaitReply,
        Phase::Completed => Directive::Finished,
        Phase::Errored(value) => match policy {
            Policy::Verification => {
                let written = peer_error_message(value.as_str());
                Directive::Abort(receive_failure_message(written.as_str()))
            },
            Policy::Inspection => Directive::Finished,
        },
        Phase::Failed(failure) => Directive::Abort(failure_message(invocation.kind(), failure)),
    }
}

/// Says what an event makes the harness print when it reaches an invocation.
pub fn line_for(policy: Policy, before: &Invocation, event: &Event) -> (r: Option<String>)
    ensures
        r.deep_view() == line(policy, before@, *event),
{
    match policy {
        Policy::Verification => None,
        Policy::Inspection => {
            if before.phase().is_receiving() {
                match event {
                    Event::Reply(ReplyEnvelope::Payload(value)) => Some(value.clone()),
                    Event::Reply(ReplyEnvelope::ProtocolError(value)) => Some(
                        peer_error_message(value.as_str()),
                    ),
                    _ => None,
                }
            } else {
                None
            }
        },
    }
}

impl Harness {
    /// Says what has to happen next for the invocation of this harness, or
    /// nothing if the dispatcher never gave out its handle.
    pub fn directive(&self, dispatcher: &Dispatcher) -> (r: Option<Directive>)
        ensures
            match r {
                Some(next) => self.handle@ < dispatcher@.len() && next@ == directive(
                    self.policy,
                    dispatcher@[self.handle@ as int],
                ),
                None => self.handle@ >= dispatcher@.len(),
            },
    {
        match dispatcher.invocation(self.handle) {
            Some(invocation) => Some(directive_for(self.policy, invocation)),
            None => None,
        }
    }

    /// Takes one event of the exchange: hands it to the invocation of this
    /// harness and no other, and reports what the event makes the harness print
    /// and what has to happen next. If the dispatcher never gave out the
    /// handle of this harness, nothing happens and nothing is reported.
    pub fn observe(&self, dispatcher: &mut Dispatcher, event: Event) -> (r: Option<Report>)
        ensures
            final(dispatcher)@ == delivered_to(old(dispatcher)@, self.handle@ as int, event),
            match r {
                Some(report) => {
                    &&& self.handle@ < old(dispatcher)@.len()
                    &&& report.printed.deep_view() == shown(
                        self.policy,
                        old(dispatcher)@[self.handle@ as int],
                        event,
                    )
                    &&& report.next@ == directive(
                        self.policy,
                        final(dispatcher)@[self.handle@ as int],
                    )
                },
                None => self.handle@ >= old(dispatcher)@.len(),
            },
    {
        let mut printed: Vec<String> = Vec::new();
        assert(printed.deep_view() =~= Seq::<Seq<char>>::empty());
        match dispatcher.invocation(self.handle) {
            Some(before) => {
                match line_for(self.policy, before, &event) {
                    Some(text) => {
                        printed.push(text);
                        assert(printed.deep_view() =~= seq![text@]);
                    },
                    None => {},
                }
            },
            None => {
                return None;
            },
        }
        dispatcher.deliver(self.handle, event);
        let next = directive_for(self.policy, dispatcher.invocation(self.handle).unwrap());
        Some(Report { printed, next })
    }

    /// Drives the invocation of this harness through a run of events, taken in
    /// order, and reports everything that the run makes the harness print and
    /// what has to happen after it. No other invocation is touched. If the
    /// dispatcher never gave out the handle of this harness, nothing happens
    /// and nothing is reported.
    pub fn drive(&self, dispatcher: &mut Dispatcher, exchange: &Vec<Event>) -> (r: Option<Report>)
        ensures
            match r {
                Some(report) => {
                    &&& self.handle@ < old(dispatcher)@.len()
                    &&& final(dispatcher)@ == old(dispatcher)@.update(
                        self.handle@ as int,
                        old(dispatcher)@[self.handle@ as int].run(exchange@),
                    )
                    &&& report.printed.deep_view() == lines(
                        self.policy,
                        old(dispatcher)@[self.handle@ as int],
                        exchange@,
                    )
                    &&& report.next@ == directive(
                        self.policy,
                        final(dispatcher)@[self.handle@ as int],
                    )
                },
                None => {
                    &&& self.handle@ >= old(dispatcher)@.len()
                    &&& final(dispatcher)@ == old(dispatcher)@
                },
            },
    {
        if self.handle.index() >= dispatcher.issued() {
            return None;
        }
        let ghost table = old(dispatcher)@;
        let ghost start = table[self.handle@ as int];
        let mut printed: Vec<String> = Vec::new();
        assert(exchange@.take(0) =~= Seq::<Event>::empty());
        assert(printed.deep_view() =~= Seq::<Seq<char>>::empty());
        assert(dispatcher@ =~= table.update(self.handle@ as int, start));
        let mut i: usize = 0;
        while i < exchange.len()
            invariant
                i <= exchange.len(),
                self.handle@ < table.len(),
                start == table[self.handle@ as int],
                dispatcher@ == table.update(
                    self.handle@ as int,
                    start.run(exchange@.take(i as int)),
                ),
                printed.deep_view() == lines(self.policy, start, exchange@.take(i as int)),
            decreases exchange.len() - i,
        {
            let ghost seen = exchange@.take(i as int);
            let ghost earlier = printed.deep_view();
            proof {
                assert(exchange@.take(i + 1) =~= seen.push(exchange@[i as int]));
                assert(exchange@.take(i + 1).drop_last() =~= seen);
                lemma_run_push(start, seen, exchange@[i as int]);
            }
            let before = dispatcher.invocation(self.handle).unwrap();
            match line_for(self.policy, before, &exchange[i]) {
                Some(text) => {
                    printed.push(text);
                    assert(printed.deep_view() =~= earlier.push(text@));
                },
                None => {},
            }
            dispatcher.deliver(self.handle, exchange[i].clone());
            assert(dispatcher@ =~= table.update(
                self.handle@ as int,
                start.run(exchange@.take(i + 1)),
            ));
            i = i + 1;
        }
        assert(exchange@.take(i as int) =~= exchange@);
        let next = directive_for(self.policy, dispatcher.invocation(self.handle).unwrap());
        Some(Report { printed, next })
    }
}

/// Makes an invocation under the given convention: opens its stream, to be
/// driven under the given policy.
pub fn invoke(policy: Policy, kind: CallKind, dispatcher: &mut Dispatcher) -> (harness: Harness)
    ensures
        harness.policy == policy,
        harness.handle@ == old(dispatcher)@.len(),
        final(dispatcher)@ == opened(old(dispatcher)@, kind),
{
    Harness { policy, handle: dispatcher.open(kind) }
}

/// The harness for a sync request that must be answered with a response and
/// no error: opens a sync stream, to be driven under the verification policy.
pub fn test_sync(dispatcher: &mut Dispatcher) -> (harness: Harness)
    ensures
        harness.policy == Policy::Verification,
        harness.handle@ == old(dispatcher)@.len(),
        final(dispatcher)@ == opened(old(dispatcher)@, CallKind::Sync),
{
    invoke(Policy::Verification, CallKind::Sync, dispatcher)
}

/// The harness for an async request that must be answered with a response and
/// no error: opens an async stream, to be driven under the verification
/// policy.
pub fn test_async(dispatcher: &mut Dispatcher) -> (harness: Harness)
    ensures
        harness.policy == Policy::Verification,
        harness.handle@ == old(dispatcher)@.len(),
        final(dispatcher)@ == opened(old(dispatcher)@, CallKind::Async),
{
    invoke(Policy::Verification, CallKind::Async, dispatcher)
}

/// The harness for a source request whose stream must run to its end without
/// an error: opens a source stream, to be driven under the verification
/// policy.
pub fn test_source(dispatcher: &mut Dispatcher) -> (harness: Harness)
    ensures
        harness.policy == Policy::Verification,
        harness.handle@ == old(dispatcher)@.len(),
        final(dispatcher)@ == opened(old(dispatcher)@, CallKind::Source),
{
    invoke(Policy::Verification, CallKind::Source, dispatcher)
}

/// The harness for a sync request whose answer is to be printed: opens a sync
/// stream, to be driven under the inspection policy.
pub fn log_sync(dispatcher: &mut Dispatcher) -> (harness: Harness)
    ensures
        harness.policy == Policy::Inspection,
        harness.handle@ == old(dispatcher)@.len(),
        final(dispatcher)@ == opened(old(dispatcher)@, CallKind::Sync),
{
    invoke(Policy::Inspection, CallKind::Sync, dispatcher)
}

/// The harness for an async request whose answer is to be printed: opens an
/// async stream, to be driven under the inspection policy.
pub fn log_async(dispatcher: &mut Dispatcher) -> (harness: Harness)
    ensures
        harness.policy == Policy::Inspection,
        harness.handle@ == old(dispatcher)@.len(),
        final(dispatcher)@ == opened(old(dispatcher)@, CallKind::Async),
{
    invoke(Policy::Inspection, CallKind::Async, dispatcher)
}

/// The harness for a source request whose items, and whose error if one
/// comes, are to be printed: opens a source stream, to be driven under the
/// inspection policy.
pub fn log_source(dispatcher: &mut Dispatcher) -> (harness: Harness)
    ensures
        harness.policy == Policy::Inspection,
        harness.handle@ == old(dispatcher)@.len(),
        final(dispatcher)@ == opened(old(dispatcher)@, CallKind::Source),
{
    invoke(Policy::Inspection, CallKind::Source, dispatcher)
}

/// Under the verification policy nothing is ever printed.
pub proof fn law_verification_prints_nothing(start: InvocationView, events: Seq<Event>)
    ensures
        lines(Policy::Verification, start, events) == Seq::<Seq<char>>::empty(),
    decreases events.len(),
{
    if events.len() > 0 {
        law_verification_prints_nothing(start, events.drop_last());
    }
}

/// Driving an invocation through an exchange in two parts prints what driving
/// it through the whole exchange prints: the lines of the first part, then
/// those that the second part adds from where the first part ended.
pub proof fn law_lines_in_parts(
    policy: Policy,
    start: InvocationView,
    first: Seq<Event>,
    second: Seq<Event>,
)
    ensures
        lines(policy, start, first + second) == lines(policy, start, first) + lines(
            policy,
            start.run(first),
            second,
        ),
    decreases second.len(),
{
    if second.len() == 0 {
        assert(first + second =~= first);
        assert(lines(policy, start, first) + Seq::<Seq<char>>::empty() =~= lines(
            policy,
            start,
            first,
        ));
    } else {
        let earlier = second.drop_last();
        law_lines_in_parts(policy, start, first, earlier);
        law_run_in_parts(start, first, earlier);
        assert((first + second).drop_last() =~= first + earlier);
        assert((first + second).last() == second.last());
        let before = lines(policy, start, first);
        let middle = lines(policy, start.run(first), earlier);
        match line(policy, start.run(first).run(earlier), second.last()) {
            Some(text) => {
                assert((before + middle).push(text) =~= before + middle.push(text));
            },
            None => {},
        }
    }
}

/// Which outcomes are fatal. A failure aborts the run under either policy, a
/// protocol error under the verification policy only, and success never.
/// While an invocation is in flight the harness neither aborts nor finishes.
pub proof fn law_fatality(policy: Policy, state: InvocationView)
    ensures
        state.phase is Failed ==> directive(policy, state) is Abort,
        state.phase is Errored ==> (directive(policy, state) is Abort <==> policy
            == Policy::Verification),
        state.phase is Errored ==> (directive(policy, state) is Finished <==> policy
            == Policy::Inspection),
        state.phase is Completed ==> directive(policy, state) is Finished,
        state.phase is Idle ==> directive(policy, state) is AwaitSend,
        state.phase.receiving() ==> directive(policy, state) is AwaitReply,
{
}

/// A sync or async call that is answered with one response value passes under
/// either policy: the harness finishes and does not abort.
pub proof fn law_answered_call_passes(policy: Policy, kind: CallKind, value: String)
    requires
        kind.single_reply(),
    ensures
        directive(
            policy,
            InvocationView::start(kind).run(
                seq![Event::SendCompleted, Event::Reply(ReplyEnvelope::Payload(value))],
            ),
        ) == DirectiveView::Finished,
{
    law_single_reply_delivers_its_value(kind, value);
}

/// A source that runs to its end passes under either policy, however many
/// items it delivered, none included.
pub proof fn law_exhausted_source_passes(policy: Policy, values: Seq<String>)
    ensures
        directive(
            policy,
            InvocationView::start(CallKind::Source).run(
                seq![Event::SendCompleted] + payloads(values) + seq![Event::EndOfStream],
            ),
        ) == DirectiveView::Finished,
{
    law_source_delivers_every_item(values);
}

/// A failed send is fatal under either policy: whenever an invocation in
/// flight learns that its request could not be written, the run aborts, and
/// the message names the convention and quotes the reason.
pub proof fn law_failed_send_is_fatal(policy: Policy, state: InvocationView, detail: String)
    requires
        !state.phase.terminal(),
    ensures
        directive(policy, state.step(Event::SendFailed(detail))) == DirectiveView::Abort(
            send_failure_text(state.kind, detail@),
        ),
{
}

/// Under the inspection policy a source that runs to its end has every one of
/// its items printed, in order, and nothing else.
pub proof fn law_inspection_prints_every_item(values: Seq<String>)
    ensures
        lines(
            Policy::Inspection,
            InvocationView::start(CallKind::Source),
            seq![Event::SendCompleted] + payloads(values) + seq![Event::EndOfStream],
        ) == texts(values),
{
    let open = seq![Event::SendCompleted] + payloads(values);
    let all = open + seq![Event::EndOfStream];
    lemma_open_source_prints_its_items(values);
    lemma_source_stays_open(values);
    assert(all.drop_last() =~= open);
}

/// While the peer only sends values, exactly those values are printed.
proof fn lemma_open_source_prints_its_items(values: Seq<String>)
    ensures
        lines(
            Policy::Inspection,
            InvocationView::start(CallKind::Source),
            seq![Event::SendCompleted] + payloads(values),
        ) == texts(values),
    decreases values.len(),
{
    let start = InvocationView::start(CallKind::Source);
    let sent = seq![Event::SendCompleted];
    if values.len() == 0 {
        assert(sent + payloads(values) =~= sent);
        assert(sent.drop_last() =~= Seq::<Event>::empty());
        assert(lines(Policy::Inspection, start, Seq::empty()) =~= Seq::<Seq<char>>::empty());
        assert(start.run(Seq::empty()) == start);
        assert(texts(values) =~= Seq::<Seq<char>>::empty());
    } else {
        let earlier = values.drop_last();
        let open = sent + payloads(values);
        lemma_open_source_prints_its_items(earlier);
        lemma_source_stays_open(earlier);
        assert(open.drop_last() =~= sent + payloads(earlier));
        assert(open.last() == Event::Reply(ReplyEnvelope::Payload(values.last())));
        assert(texts(earlier).push(values.last()@) =~= texts(values));
    }
}

} // verus!
