//! The dispatcher of one multiplexed channel.
//!
//! Every invocation gets a stream handle of its own. The dispatcher keeps the
//! state of each invocation under its handle and routes every event to the one
//! invocation it is addressed to.

use vstd::prelude::*;
use crate::convention::CallKind;
use crate::envelope::Event;
use crate::invocation::{
    law_ended_invocation_never_moves, lemma_run_push, Invocation, InvocationView, Phase,
};

verus! {

/// Names one conversation on the channel. Handles are given out in rising
/// order and never twice, so none is ever reused.
#[derive(Clone, Copy, Debug, PartialEq, Eq, Structural)]
pub struct StreamHandle {
    index: usize,
}

impl View for StreamHandle {
    type V = nat;

    closed spec fn view(&self) -> nat {
        self.index as nat
    }
}

impl StreamHandle {
    /// The position of the handle among all handles of its dispatcher.
    pub fn index(&self) -> (r: usize)
        ensures
            r == self@,
    {
        self.index
    }
}

/// Whether every invocation of a table is in a state that a fresh invocation
/// can reach.
pub open spec fn well_formed(table: Seq<InvocationView>) -> bool {
    forall|i: int| 0 <= i < table.len() ==> (#[trigger] table[i]).wf()
}

/// Whether the conversation under a handle is still going on: the handle has
/// been given out and its invocation has not ended. A handle is released when
/// its invocation ends.
pub open spec fn active(table: Seq<InvocationView>, handle: int) -> bool {
    0 <= handle < table.len() && !table[handle].phase.terminal()
}

/// The table after a new invocation has been opened.
pub open spec fn opened(table: Seq<InvocationView>, kind: CallKind) -> Seq<InvocationView> {
    table.push(InvocationView::start(kind))
}

/// The table after an event has been delivered under a handle. An event under
/// a handle that was never given out changes nothing.
pub open spec fn delivered_to(table: Seq<InvocationView>, handle: int, event: Event) -> Seq<
    InvocationView,
> {
    if 0 <= handle < table.len() {
        table.update(handle, table[handle].step(event))
    } else {
        table
    }
}

/// The table after a run of addressed events, taken in order.
pub open spec fn routed(table: Seq<InvocationView>, traffic: Seq<(int, Event)>) -> Seq<
    InvocationView,
>
    decreases traffic.len(),
{
    if traffic.len() == 0 {
        table
    } else {
        delivered_to(routed(table, traffic.drop_last()), traffic.last().0, traffic.last().1)
    }
}

/// The events of a run that are addressed to one handle, in order.
pub open spec fn addressed_to(traffic: Seq<(int, Event)>, handle: int) -> Seq<Event>
    decreases traffic.len(),
{
    if traffic.len() == 0 {
        Seq::empty()
    } else if traffic.last().0 == handle {
        addressed_to(traffic.drop_last(), handle).push(traffic.last().1)
    } else {
        addressed_to(traffic.drop_last(), handle)
    }
}

/// All invocations made over one channel.
#[derive(Debug)]
pub struct Dispatcher {
    calls: Vec<Invocation>,
}

impl View for Dispatcher {
    type V = Seq<InvocationView>;

    closed spec fn view(&self) -> Seq<InvocationView> {
        Seq::new(self.calls@.len(), |i: int| self.calls@[i]@)
    }
}

impl Dispatcher {
    /// A dispatcher that has made no invocation yet.
    pub fn new() -> (r: Dispatcher)
        ensures
            r@ == Seq::<InvocationView>::empty(),
            well_formed(r@),
    {
        let r = Dispatcher { calls: Vec::new() };
        assert(r@ =~= Seq::<InvocationView>::empty());
        r
    }

    /// How many handles have been given out.
    pub fn issued(&self) -> (r: usize)
        ensures
            r == self@.len(),
    {
        self.calls.len()
    }

    /// Opens a stream for a request under the given convention. The handle is
    /// new, and no invocation made before is touched.
    pub fn open(&mut self, kind: CallKind) -> (handle: StreamHandle)
        ensures
            handle@ == old(self)@.len(),
            final(self)@ == opened(old(self)@, kind),
            well_formed(old(self)@) ==> well_formed(final(self)@),
    {
        let index = self.calls.len();
        self.calls.push(Invocation::new(kind));
        assert(self@ =~= opened(old(self)@, kind));
        StreamHandle { index }
    }

    /// Opens a stream for a sync request.
    pub fn sync(&mut self) -> (handle: StreamHandle)
        ensures
            handle@ == old(self)@.len(),
            final(self)@ == opened(old(self)@, CallKind::Sync),
    {
        self.open(CallKind::Sync)
    }

    /// Opens a stream for an async request.
    pub fn async_(&mut self) -> (handle: StreamHandle)
        ensures
            handle@ == old(self)@.len(),
            final(self)@ == opened(old(self)@, CallKind::Async),
    {
        self.open(CallKind::Async)
    }

    /// Opens a stream for a source request.
    pub fn source(&mut self) -> (handle: StreamHandle)
        ensures
            handle@ == old(self)@.len(),
            final(self)@ == opened(old(self)@, CallKind::Source),
    {
        self.open(CallKind::Source)
    }

    /// The invocation that owns the handle, if this dispatcher gave it out.
    pub fn invocation(&self, handle: StreamHandle) -> (r: Option<&Invocation>)
        ensures
            match r {
                Some(invocation) => handle@ < self@.len() && invocation@ == self@[handle@ as int],
                None => handle@ >= self@.len(),
            },
    {
        if handle.index < self.calls.len() {
            Some(&self.calls[handle.index])
        } else {
            None
        }
    }

    /// Whether the conversation under the handle is still going on.
    pub fn is_active(&self, handle: StreamHandle) -> (r: bool)
        ensures
            r == active(self@, handle@ as int),
    {
        handle.index < self.calls.len() && !self.calls[handle.index].phase().is_terminal()
    }

    /// Hands an event to the invocation that owns the handle and reports the
    /// phase it is in afterwards. Every other invocation stays as it was.
    /// Under a handle that this dispatcher never gave out, nothing happens.
    pub fn deliver(&mut self, handle: StreamHandle, event: Event) -> (r: Option<Phase>)
        ensures
            final(self)@ == delivered_to(old(self)@, handle@ as int, event),
            well_formed(old(self)@) ==> well_formed(final(self)@),
            match r {
                Some(phase) => {
                    &&& handle@ < old(self)@.len()
                    &&& phase == final(self)@[handle@ as int].phase
                },
                None => handle@ >= old(self)@.len(),
            },
    {
        if handle.index < self.calls.len() {
            self.calls[handle.index].step(event);
            assert(self@ =~= delivered_to(old(self)@, handle@ as int, event));
            Some(self.calls[handle.index].phase().clone())
        } else {
            None
        }
    }
}

/// Two invocations never share a handle: the handle of a new invocation is
/// none of those given out before, and the next one differs again.
pub proof fn law_handles_are_never_reused(
    table: Seq<InvocationView>,
    first: CallKind,
    second: CallKind,
)
    ensures
        opened(table, first).len() == table.len() + 1,
        opened(opened(table, first), second).len() == table.len() + 2,
        forall|h: int| 0 <= h < table.len() ==> opened(table, first)[h] == table[h],
        opened(opened(table, first), second)[table.len() as int] == InvocationView::start(first),
        opened(opened(table, first), second)[table.len() as int + 1] == InvocationView::start(
            second,
        ),
{
}

/// An event changes the invocation it is addressed to and no other.
pub proof fn law_delivery_touches_one_invocation(
    table: Seq<InvocationView>,
    handle: int,
    event: Event,
    other: int,
)
    requires
        0 <= other < table.len(),
        other != handle,
    ensures
        delivered_to(table, handle, event).len() == table.len(),
        delivered_to(table, handle, event)[other] == table[other],
{
}

/// Invocations do not interfere: however the traffic of a channel is
/// interleaved, each invocation ends up where its own events alone, in their
/// own order, would have brought it.
pub proof fn law_invocations_do_not_interfere(
    table: Seq<InvocationView>,
    traffic: Seq<(int, Event)>,
    handle: int,
)
    requires
        0 <= handle < table.len(),
    ensures
        routed(table, traffic).len() == table.len(),
        routed(table, traffic)[handle] == table[handle].run(addressed_to(traffic, handle)),
    decreases traffic.len(),
{
    if traffic.len() > 0 {
        let earlier = traffic.drop_last();
        law_invocations_do_not_interfere(table, earlier, handle);
        if traffic.last().0 == handle {
            lemma_run_push(table[handle], addressed_to(earlier, handle), traffic.last().1);
        }
    }
}

/// A handle that has been released stays released: whatever traffic follows,
/// its invocation is as it ended.
pub proof fn law_released_handles_stay_released(
    table: Seq<InvocationView>,
    traffic: Seq<(int, Event)>,
    handle: int,
)
    requires
        0 <= handle < table.len(),
        !active(table, handle),
    ensures
        routed(table, traffic)[handle] == table[handle],
        !active(routed(table, traffic), handle),
{
    law_invocations_do_not_interfere(table, traffic, handle);
    law_ended_invocation_never_moves(table[handle], addressed_to(traffic, handle));
}

/// Invoking the same request twice gives two invocations that end alike when
/// their peers answer alike, whatever else crosses the channel meanwhile.
pub proof fn law_repeated_invocations_agree(
    table: Seq<InvocationView>,
    kind: CallKind,
    traffic: Seq<(int, Event)>,
)
    requires
        addressed_to(traffic, table.len() as int) == addressed_to(traffic, table.len() as int + 1),
    ensures
        ({
            let end = routed(opened(opened(table, kind), kind), traffic);
            end[table.len() as int] == end[table.len() as int + 1]
        }),
{
    let twice = opened(opened(table, kind), kind);
    law_invocations_do_not_interfere(twice, traffic, table.len() as int);
    law_invocations_do_not_interfere(twice, traffic, table.len() as int + 1);
}

} // verus!
