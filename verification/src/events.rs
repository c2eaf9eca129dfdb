//! The bounded queue of output events.

use std::collections::VecDeque;

use vstd::prelude::*;

use crate::gamepad::OutputEvent;
use crate::text;

verus! {

/// Events that nobody has taken yet, oldest first. When there is no more room,
/// the oldest is discarded, so that responses of the bridge keep flowing.
#[derive(Debug)]
pub struct EventBuffer {
    events: VecDeque<OutputEvent>,
    dropped: u64,
    capacity: usize,
}

/// What a buffer holds, and how many events it has discarded.
#[verifier::ext_equal]
pub struct BufferView {
    pub events: Seq<OutputEvent>,
    pub dropped: nat,
}

/// The buffer after one more event.
pub open spec fn pushed(buffer: BufferView, capacity: nat, event: OutputEvent) -> BufferView {
    if buffer.events.len() == capacity {
        BufferView {
            events: buffer.events.skip(1).push(event),
            dropped: buffer.dropped + 1,
        }
    } else {
        BufferView { events: buffer.events.push(event), dropped: buffer.dropped }
    }
}

/// There is room for an event, or the one that makes way for it can be counted.
pub open spec fn accepts(buffer: BufferView, capacity: nat) -> bool {
    buffer.events.len() < capacity || buffer.dropped < u64::MAX
}

/// The buffer after a number of events.
pub open spec fn pushed_all(
    buffer: BufferView,
    capacity: nat,
    events: Seq<OutputEvent>,
) -> BufferView
    decreases events.len(),
{
    if events.len() == 0 {
        buffer
    } else {
        pushed(pushed_all(buffer, capacity, events.drop_last()), capacity, events.last())
    }
}

/// True when a caller that waits for `controller`, or for any, wants the event.
pub open spec fn wanted(event: OutputEvent, controller: Option<Seq<char>>) -> bool {
    match controller {
        Some(key) => event.controller@ == key,
        None => true,
    }
}

/// The position of the first event that is wanted.
pub open spec fn first_wanted(
    events: Seq<OutputEvent>,
    controller: Option<Seq<char>>,
) -> Option<int>
    decreases events.len(),
{
    if events.len() == 0 {
        None
    } else if wanted(events[0], controller) {
        Some(0)
    } else {
        match first_wanted(events.skip(1), controller) {
            Some(at) => Some(at + 1),
            None => None,
        }
    }
}

/// What a caller that waits for an event does next.
#[derive(Debug, PartialEq)]
pub enum WaitStep {
    /// Return the event.
    Ready(OutputEvent),
    /// Return without one.
    Expired,
    /// Wait for a new event, this many nanoseconds at most.
    Wait(u128),
}

proof fn lemma_first_wanted(events: Seq<OutputEvent>, controller: Option<Seq<char>>, at: int)
    requires
        0 <= at <= events.len(),
        forall|k: int| 0 <= k < at ==> !wanted(#[trigger] events[k], controller),
    ensures
        at < events.len() && wanted(events[at], controller) ==> first_wanted(events, controller)
            == Some(at),
        at == events.len() ==> first_wanted(events, controller) is None,
    decreases at,
{
    if at > 0 {
        assert(!wanted(events[0], controller));
        let rest = events.skip(1);
        assert forall|k: int| 0 <= k < at - 1 implies !wanted(#[trigger] rest[k], controller) by {
            assert(rest[k] == events[k + 1]);
        }
        lemma_first_wanted(rest, controller, at - 1);
        if at < events.len() {
            assert(rest[at - 1] == events[at]);
        }
    }
}

impl EventBuffer {
    /// The events in the buffer, and the number discarded.
    pub closed spec fn view(self) -> BufferView {
        BufferView { events: self.events@, dropped: self.dropped as nat }
    }

    /// How many events there is room for.
    pub closed spec fn room(self) -> nat {
        self.capacity as nat
    }

    /// There is room for an event, and no more are held than there is room for.
    pub open spec fn wf(self) -> bool {
        self.room() > 0 && self@.events.len() <= self.room()
    }

    /// An empty buffer with room for `capacity` events.
    pub fn new(capacity: usize) -> (buffer: EventBuffer)
        requires
            capacity > 0,
        ensures
            buffer.wf(),
            buffer.room() == capacity,
            buffer@.events == Seq::<OutputEvent>::empty(),
            buffer@.dropped == 0,
    {
        EventBuffer { events: VecDeque::new(), dropped: 0, capacity }
    }

    /// Whether one more event can be taken: there is room, or the one that makes way
    /// can be counted.
    pub fn accepts(&self) -> (yes: bool)
        ensures
            yes == accepts(self@, self.room()),
    {
        self.events.len() < self.capacity || self.dropped < u64::MAX
    }

    /// Adds an event; if there is no room, the oldest makes way.
    pub fn push(&mut self, event: OutputEvent)
        requires
            old(self).wf(),
            accepts(old(self)@, old(self).room()),
        ensures
            final(self).wf(),
            final(self).room() == old(self).room(),
            final(self)@ == pushed(old(self)@, old(self).room(), event),
    {
        if self.events.len() == self.capacity {
            let _ = self.events.pop_front();
            assert(self.events@ =~= old(self).events@.skip(1));
            self.dropped = self.dropped + 1;
        }
        self.events.push_back(event);
    }

    /// Takes all events, oldest first.
    pub fn drain(&mut self) -> (events: Vec<OutputEvent>)
        requires
            old(self).wf(),
        ensures
            final(self).wf(),
            final(self).room() == old(self).room(),
            events@ == old(self)@.events,
            final(self)@.events == Seq::<OutputEvent>::empty(),
            final(self)@.dropped == old(self)@.dropped,
    {
        let ghost all = self.events@;
        let mut events: Vec<OutputEvent> = Vec::new();
        while self.events.len() > 0
            invariant
                self.capacity == old(self).capacity,
                self.dropped == old(self).dropped,
                events@ + self.events@ =~= all,
            decreases self.events@.len(),
        {
            let ghost before = self.events@;
            if let Some(event) = self.events.pop_front() {
                assert(before =~= seq![event] + self.events@);
                events.push(event);
            }
        }
        events
    }

    /// How many events were discarded because there was no room.
    pub fn dropped(&self) -> (count: u64)
        ensures
            count == self@.dropped,
    {
        self.dropped
    }

    /// Takes the first event that is wanted; the others stay, in their order.
    fn take_wanted(&mut self, controller: Option<&str>) -> (event: Option<OutputEvent>)
        requires
            old(self).wf(),
        ensures
            final(self).wf(),
            final(self).room() == old(self).room(),
            final(self)@.dropped == old(self)@.dropped,
            match first_wanted(old(self)@.events, text::maybe_str(controller)) {
                Some(at) => event == Some(old(self)@.events[at]) && final(self)@.events == old(
                    self,
                )@.events.remove(at),
                None => event is None && final(self)@.events == old(self)@.events,
            },
    {
        let ghost key = text::maybe_str(controller);
        let count: usize = self.events.len();
        for i in 0..count
            invariant
                *self == *old(self),
                old(self).wf(),
                count == self.events@.len(),
                key == text::maybe_str(controller),
                forall|k: int| 0 <= k < i ==> !wanted(#[trigger] self.events@[k], key),
        {
            let matches = match controller {
                Some(name) => text::same_text(self.events[i].controller.as_str(), name),
                None => true,
            };
            if matches {
                proof {
                    lemma_first_wanted(self.events@, key, i as int);
                }
                return self.events.remove(i);
            }
        }
        proof {
            lemma_first_wanted(self.events@, key, self.events@.len() as int);
        }
        None
    }

    /// One step of waiting, up to `limit` nanoseconds, for an event that is
    /// wanted: `elapsed` have passed, and `timed_out` tells that the last wait
    /// ended without a new event.
    fn wait_with(
        &mut self,
        controller: Option<&str>,
        elapsed: u128,
        limit: u128,
        timed_out: bool,
    ) -> (step: WaitStep)
        requires
            old(self).wf(),
        ensures
            final(self).wf(),
            final(self).room() == old(self).room(),
            waited(
                old(self)@,
                final(self)@,
                text::maybe_str(controller),
                elapsed,
                limit,
                timed_out,
                step,
            ),
    {
        match self.take_wanted(controller) {
            Some(event) => WaitStep::Ready(event),
            None => {
                if timed_out || elapsed >= limit {
                    WaitStep::Expired
                } else {
                    WaitStep::Wait(limit - elapsed)
                }
            },
        }
    }

    /// One step of waiting for the next event.
    pub fn wait(&mut self, elapsed: u128, limit: u128, timed_out: bool) -> (step: WaitStep)
        requires
            old(self).wf(),
        ensures
            final(self).wf(),
            final(self).room() == old(self).room(),
            waited(old(self)@, final(self)@, None, elapsed, limit, timed_out, step),
    {
        self.wait_with(None, elapsed, limit, timed_out)
    }

    /// One step of waiting for the next event of one controller. Events of
    /// others stay in the buffer.
    pub fn wait_for_controller(
        &mut self,
        controller: &str,
        elapsed: u128,
        limit: u128,
        timed_out: bool,
    ) -> (step: WaitStep)
        requires
            old(self).wf(),
        ensures
            final(self).wf(),
            final(self).room() == old(self).room(),
            waited(
                old(self)@,
                final(self)@,
                Some(controller@),
                elapsed,
                limit,
                timed_out,
                step,
            ),
    {
        self.wait_with(Some(controller), elapsed, limit, timed_out)
    }
}

/// What a step of waiting does: the first event that is wanted leaves the
/// buffer, and without one the caller waits for the rest of its time, unless
/// that is over.
pub open spec fn waited(
    before: BufferView,
    after: BufferView,
    controller: Option<Seq<char>>,
    elapsed: u128,
    limit: u128,
    timed_out: bool,
    step: WaitStep,
) -> bool {
    match first_wanted(before.events, controller) {
        Some(at) => {
            &&& step == WaitStep::Ready(before.events[at])
            &&& after == BufferView { events: before.events.remove(at), dropped: before.dropped }
        },
        None => {
            &&& after == before
            &&& step == (if timed_out || elapsed >= limit {
                WaitStep::Expired
            } else {
                WaitStep::Wait((limit - elapsed) as u128)
            })
        },
    }
}

/// However many events arrive, the buffer keeps the newest for which there is
/// room, in their order, and counts every other one as discarded.
pub proof fn law_newest_are_kept(capacity: nat, events: Seq<OutputEvent>)
    requires
        capacity > 0,
    ensures
        ({
            let empty = BufferView { events: Seq::empty(), dropped: 0 };
            let buffer = pushed_all(empty, capacity, events);
            let lost = if events.len() <= capacity {
                0
            } else {
                events.len() - capacity
            };
            &&& buffer.dropped == lost
            &&& buffer.events == events.skip(lost)
            &&& buffer.events.len() <= capacity
        }),
    decreases events.len(),
{
    let empty = BufferView { events: Seq::empty(), dropped: 0 };
    if events.len() > 0 {
        law_newest_are_kept(capacity, events.drop_last());
        let before = pushed_all(empty, capacity, events.drop_last());
        let after = pushed_all(empty, capacity, events);
        let lost = if events.len() <= capacity {
            0
        } else {
            events.len() - capacity
        };
        assert(after.events =~= events.skip(lost));
    } else {
        assert(events.skip(0) =~= Seq::empty());
    }
}

/// A wait that finds an event takes one that is wanted, and no event before it
/// was wanted; all others stay in their order.
pub proof fn law_wait_takes_the_first_wanted(
    events: Seq<OutputEvent>,
    controller: Option<Seq<char>>,
)
    ensures
        match first_wanted(events, controller) {
            Some(at) => {
                &&& 0 <= at < events.len()
                &&& wanted(events[at], controller)
                &&& forall|k: int| 0 <= k < at ==> !wanted(#[trigger] events[k], controller)
            },
            None => forall|k: int|
                0 <= k < events.len() ==> !wanted(#[trigger] events[k], controller),
        },
    decreases events.len(),
{
    if events.len() > 0 && !wanted(events[0], controller) {
        let rest = events.skip(1);
        law_wait_takes_the_first_wanted(rest, controller);
        let bound = match first_wanted(rest, controller) {
            Some(at) => at,
            None => rest.len() as int,
        };
        assert forall|k: int| 0 <= k < bound + 1 implies !wanted(
            #[trigger] events[k],
            controller,
        ) by {
            if k > 0 {
                assert(events[k] == rest[k - 1]);
            }
        }
    }
}

/// What is done with a buffer.
pub enum BufferStep {
    /// An event is added.
    Push(OutputEvent),
    /// All events are taken.
    Drain,
    /// The first event that is wanted is taken, if there is one.
    Take(Option<Seq<char>>),
}

/// The buffer after a step, and the events that the step hands out.
pub open spec fn stepped(buffer: BufferView, capacity: nat, step: BufferStep) -> (
    BufferView,
    Seq<OutputEvent>,
) {
    match step {
        BufferStep::Push(event) => (pushed(buffer, capacity, event), Seq::empty()),
        BufferStep::Drain => (
            BufferView { events: Seq::empty(), dropped: buffer.dropped },
            buffer.events,
        ),
        BufferStep::Take(controller) => match first_wanted(buffer.events, controller) {
            Some(at) => (
                BufferView { events: buffer.events.remove(at), dropped: buffer.dropped },
                seq![buffer.events[at]],
            ),
            None => (buffer, Seq::empty()),
        },
    }
}

/// An empty buffer after a number of steps, and the events that they hand out.
pub open spec fn stepped_all(capacity: nat, steps: Seq<BufferStep>) -> (
    BufferView,
    Seq<OutputEvent>,
)
    decreases steps.len(),
{
    if steps.len() == 0 {
        (BufferView { events: Seq::empty(), dropped: 0 }, Seq::empty())
    } else {
        let (before, handed) = stepped_all(capacity, steps.drop_last());
        let (after, more) = stepped(before, capacity, steps.last());
        (after, handed + more)
    }
}

/// How many steps add an event.
pub open spec fn pushes(steps: Seq<BufferStep>) -> nat
    decreases steps.len(),
{
    if steps.len() == 0 {
        0
    } else {
        pushes(steps.drop_last()) + if steps.last() is Push {
            1nat
        } else {
            0nat
        }
    }
}

/// No event is lost unseen and none appears from nowhere: however a buffer is used,
/// as many events were added as were handed out, are held, or were discarded.
pub proof fn law_events_balance(capacity: nat, steps: Seq<BufferStep>)
    requires
        capacity > 0,
    ensures
        ({
            let (buffer, handed) = stepped_all(capacity, steps);
            &&& pushes(steps) == handed.len() + buffer.events.len() + buffer.dropped
            &&& buffer.events.len() <= capacity
        }),
    decreases steps.len(),
{
    if steps.len() > 0 {
        law_events_balance(capacity, steps.drop_last());
        let (before, _) = stepped_all(capacity, steps.drop_last());
        if let BufferStep::Take(controller) = steps.last() {
            law_wait_takes_the_first_wanted(before.events, controller);
        }
    }
}

/// A wait hands out an event exactly if one is wanted, and then one event less is held;
/// otherwise nothing changes, and the wait goes on for what is left of its time, or ends
/// when that is over.
pub proof fn law_waits_end(
    before: BufferView,
    after: BufferView,
    controller: Option<Seq<char>>,
    elapsed: u128,
    limit: u128,
    timed_out: bool,
    step: WaitStep,
)
    requires
        waited(before, after, controller, elapsed, limit, timed_out, step),
    ensures
        step is Ready <==> exists|k: int|
            0 <= k < before.events.len() && (controller is None || (
            #[trigger] before.events[k]).controller@ == controller->0),
        step matches WaitStep::Ready(event) ==> {
            &&& controller matches Some(key) ==> event.controller@ == key
            &&& before.events.contains(event)
            &&& after.events.len() + 1 == before.events.len()
        },
        !(step is Ready) ==> after == before,
        step is Expired ==> timed_out || elapsed >= limit,
        step matches WaitStep::Wait(left) ==> !timed_out && left > 0 && elapsed + left == limit,
        after.dropped == before.dropped,
{
    law_wait_takes_the_first_wanted(before.events, controller);
}

} // verus!
