//! The ordered buffer between the input source and a transport.

use vstd::prelude::*;
use crate::sdl_event::SdlEvent;

verus! {

/// Pending events in the order in which they were pushed.
///
/// One producer pushes, one consumer drains. A drain takes everything that
/// is pending at once, so each event leaves the buffer in exactly one drain
/// and in the position in which it arrived.
#[derive(Debug)]
pub struct EventBuffer {
    pending: Vec<SdlEvent>,
}

impl View for EventBuffer {
    type V = Seq<SdlEvent>;

    closed spec fn view(&self) -> Seq<SdlEvent> {
        self.pending@
    }
}

impl EventBuffer {
    /// A buffer with nothing pending.
    pub fn new() -> (buffer: EventBuffer)
        ensures
            buffer@ == Seq::<SdlEvent>::empty(),
    {
        EventBuffer { pending: Vec::new() }
    }

    /// Appends one event behind everything that is pending.
    pub fn push(&mut self, event: SdlEvent)
        ensures
            final(self)@ == old(self)@.push(event),
    {
        self.pending.push(event);
    }

    /// Removes everything that is pending and returns it, oldest first.
    /// On an empty buffer the result is empty.
    pub fn drain_all(&mut self) -> (drained: Vec<SdlEvent>)
        ensures
            drained@ == old(self)@,
            final(self)@ == Seq::<SdlEvent>::empty(),
            old(self)@.len() == 0 ==> drained@.len() == 0,
    {
        let mut drained: Vec<SdlEvent> = Vec::new();
        core::mem::swap(&mut self.pending, &mut drained);
        drained
    }

    /// The number of pending events.
    pub fn len(&self) -> (count: usize)
        ensures
            count == self@.len(),
    {
        self.pending.len()
    }

    /// Whether nothing is pending.
    pub fn is_empty(&self) -> (empty: bool)
        ensures
            empty == (self@.len() == 0),
    {
        self.pending.len() == 0
    }
}

/// One step of a buffer's history: the producer pushes an event, or the
/// consumer drains.
pub enum BufferOp {
    Push(SdlEvent),
    Drain,
}

/// What is pending after the steps `ops` on a buffer that started empty.
pub open spec fn pending_after(ops: Seq<BufferOp>) -> Seq<SdlEvent>
    decreases ops.len(),
{
    if ops.len() == 0 {
        Seq::empty()
    } else {
        match ops.last() {
            BufferOp::Push(event) => pending_after(ops.drop_last()).push(event),
            BufferOp::Drain => Seq::empty(),
        }
    }
}

/// Everything that the drains among `ops` returned, in the order in which
/// they returned it.
pub open spec fn delivered_after(ops: Seq<BufferOp>) -> Seq<SdlEvent>
    decreases ops.len(),
{
    if ops.len() == 0 {
        Seq::empty()
    } else {
        match ops.last() {
            BufferOp::Push(_) => delivered_after(ops.drop_last()),
            BufferOp::Drain => delivered_after(ops.drop_last()) + pending_after(ops.drop_last()),
        }
    }
}

/// The events that the pushes among `ops` brought, in push order.
pub open spec fn pushed_in(ops: Seq<BufferOp>) -> Seq<SdlEvent>
    decreases ops.len(),
{
    if ops.len() == 0 {
        Seq::empty()
    } else {
        match ops.last() {
            BufferOp::Push(event) => pushed_in(ops.drop_last()).push(event),
            BufferOp::Drain => pushed_in(ops.drop_last()),
        }
    }
}

/// The history in which `events` are pushed one after another and nothing
/// is drained.
pub open spec fn pushes_of(events: Seq<SdlEvent>) -> Seq<BufferOp> {
    Seq::new(events.len(), |i: int| BufferOp::Push(events[i]))
}

/// However pushes and drains interleave, what the drains returned followed
/// by what is still pending is exactly what was pushed, in push order: no
/// event is lost, none is returned twice, and none overtakes another.
pub proof fn lemma_no_loss_no_duplication(ops: Seq<BufferOp>)
    ensures
        delivered_after(ops) + pending_after(ops) == pushed_in(ops),
    decreases ops.len(),
{
    if ops.len() == 0 {
        assert(delivered_after(ops) + pending_after(ops) =~= pushed_in(ops));
    } else {
        let before = ops.drop_last();
        lemma_no_loss_no_duplication(before);
        match ops.last() {
            BufferOp::Push(event) => {
                assert(delivered_after(before) + pending_after(before).push(event) =~= (
                    delivered_after(before) + pending_after(before)).push(event));
            },
            BufferOp::Drain => {
                assert(delivered_after(before) + pending_after(before) + Seq::<SdlEvent>::empty()
                    =~= delivered_after(before) + pending_after(before));
            },
        }
    }
}

/// After pushes alone, on a buffer that started empty, exactly the pushed
/// events are pending, in push order; one drain therefore returns them all.
pub proof fn lemma_drain_returns_pushes(events: Seq<SdlEvent>)
    ensures
        pending_after(pushes_of(events)) == events,
        delivered_after(pushes_of(events).push(BufferOp::Drain)) == events,
        pending_after(pushes_of(events).push(BufferOp::Drain)) == Seq::<SdlEvent>::empty(),
    decreases events.len(),
{
    let ops = pushes_of(events);
    if events.len() == 0 {
        assert(pending_after(ops) =~= events);
    } else {
        let earlier = events.drop_last();
        lemma_drain_returns_pushes(earlier);
        assert(ops.drop_last() =~= pushes_of(earlier));
        assert(ops.last() == BufferOp::Push(events.last()));
        assert(pending_after(ops) =~= events);
    }
    lemma_only_pushes_deliver_nothing(events);
    let drained = ops.push(BufferOp::Drain);
    assert(drained.drop_last() =~= ops);
    assert(drained.last() == BufferOp::Drain);
    assert(delivered_after(drained) =~= events);
}

/// Pushes alone deliver nothing.
pub proof fn lemma_only_pushes_deliver_nothing(events: Seq<SdlEvent>)
    ensures
        delivered_after(pushes_of(events)) == Seq::<SdlEvent>::empty(),
    decreases events.len(),
{
    let ops = pushes_of(events);
    if events.len() > 0 {
        let earlier = events.drop_last();
        lemma_only_pushes_deliver_nothing(earlier);
        assert(ops.drop_last() =~= pushes_of(earlier));
        assert(ops.last() == BufferOp::Push(events.last()));
    }
}

/// A drain of a buffer on which nothing was pushed since it was new, or
/// since the drain before, returns nothing.
pub proof fn lemma_drain_of_empty(ops: Seq<BufferOp>)
    requires
        pending_after(ops).len() == 0,
    ensures
        delivered_after(ops.push(BufferOp::Drain)) == delivered_after(ops),
        pending_after(ops.push(BufferOp::Drain)) == Seq::<SdlEvent>::empty(),
{
    let drained = ops.push(BufferOp::Drain);
    assert(drained.drop_last() =~= ops);
    assert(drained.last() == BufferOp::Drain);
    assert(delivered_after(ops) + pending_after(ops) =~= delivered_after(ops));
}

} // verus!
