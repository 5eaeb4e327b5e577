//! The event bus: a bounded broadcast primitive carrying `MediaEvent`s.
//!
//! Publishing is non-blocking and always succeeds, with or without
//! subscribers. Each subscriber owns a cursor into the publish history; the
//! bus retains only the most recent `capacity` events, so a subscriber that
//! falls behind by more than the capacity loses the oldest unread events and
//! observes a gap rather than an error (liveness over completeness).

use vstd::prelude::*;

use crate::events::MediaEvent;

verus! {

/// The retention capacity the monitor wires its bus with.
pub const BUS_CAPACITY: usize = 1024;

/// Where the retained window of a publish history starts: everything before
/// this index has been evicted to keep at most `cap` events.
pub open spec fn retained_start(len: nat, cap: nat) -> nat {
    if len <= cap {
        0
    } else {
        (len - cap) as nat
    }
}

/// What one poll of a subscriber yields.
#[derive(Debug)]
pub enum RecvOutcome {
    /// The subscriber has already seen every published event.
    Empty,
    /// The subscriber fell behind the retained window; this many events were
    /// lost, and the cursor now points at the oldest retained event.
    Lagged(usize),
    /// The next event, in publish order.
    Event(MediaEvent),
}

/// A bounded broadcast channel of `MediaEvent`s.
pub struct EventBus {
    capacity: usize,
    dropped: usize,
    buffer: Vec<MediaEvent>,
    log: Ghost<Seq<MediaEvent>>,
}

/// A subscriber's private cursor into the bus's publish history.
pub struct Subscriber {
    next: usize,
}

impl EventBus {
    /// Every event ever published on this bus, in publish order.
    pub closed spec fn history(self) -> Seq<MediaEvent> {
        self.log@
    }

    /// The retention capacity the bus was created with.
    pub closed spec fn capacity(self) -> nat {
        self.capacity as nat
    }

    /// Index of the oldest event the bus still retains: everything earlier
    /// was evicted to keep at most `capacity` events.
    pub open spec fn first_retained(self) -> nat {
        retained_start(self.history().len(), self.capacity())
    }

    #[verifier::type_invariant]
    spec fn inv(self) -> bool {
        &&& self.capacity >= 1
        &&& self.log@.len() <= usize::MAX
        &&& self.log@.len() == self.dropped + self.buffer@.len()
        &&& self.buffer@.len() <= self.capacity
        &&& self.buffer@ == self.log@.skip(self.dropped as int)
        &&& self.dropped as nat == retained_start(self.log@.len(), self.capacity as nat)
    }

    /// Creates an empty bus retaining at most `capacity` events.
    pub fn new(capacity: usize) -> (bus: EventBus)
        requires
            capacity >= 1,
        ensures
            bus.history() == Seq::<MediaEvent>::empty(),
            bus.capacity() == capacity,
    {
        let buffer: Vec<MediaEvent> = Vec::new();
        proof {
            assert(buffer@ =~= Seq::<MediaEvent>::empty().skip(0));
        }
        EventBus { capacity, dropped: 0, buffer, log: Ghost(Seq::empty()) }
    }

    /// The retention capacity the bus was created with.
    pub fn get_capacity(&self) -> (c: usize)
        ensures
            c == self.capacity(),
    {
        proof {
            use_type_invariant(self);
        }
        self.capacity
    }

    /// How many events have been published on this bus so far.
    pub fn history_len(&self) -> (n: usize)
        ensures
            n == self.history().len(),
    {
        proof {
            use_type_invariant(self);
        }
        self.dropped + self.buffer.len()
    }

    /// Appends an event to the publish history. Never blocks and never
    /// fails, even with zero subscribers; when the bus is full the oldest
    /// retained event is evicted.
    pub fn publish(&mut self, event: MediaEvent)
        requires
            old(self).history().len() < usize::MAX,
        ensures
            final(self).history() == old(self).history().push(event),
            final(self).capacity() == old(self).capacity(),
    {
        proof {
            use_type_invariant(&*self);
        }
        let empty_buffer: Vec<MediaEvent> = Vec::new();
        proof {
            assert(empty_buffer@ =~= Seq::<MediaEvent>::empty().skip(0));
        }
        let mut taken = EventBus {
            capacity: 1,
            dropped: 0,
            buffer: empty_buffer,
            log: Ghost(Seq::empty()),
        };
        std::mem::swap(self, &mut taken);
        let EventBus { capacity, mut dropped, mut buffer, log } = taken;
        if buffer.len() == capacity {
            buffer.remove(0);
            dropped = dropped + 1;
        }
        buffer.push(event);
        let new_log: Ghost<Seq<MediaEvent>> = Ghost(log@.push(event));
        proof {
            assert(buffer@ =~= new_log@.skip(dropped as int));
        }
        *self = EventBus { capacity, dropped, buffer, log: new_log };
    }

    /// Hands out a fresh cursor positioned after everything published so
    /// far: the subscriber will see exactly the events published from now on,
    /// subject to retention.
    pub fn subscribe(&self) -> (s: Subscriber)
        ensures
            s.cursor() == self.history().len(),
    {
        proof {
            use_type_invariant(self);
        }
        Subscriber { next: self.dropped + self.buffer.len() }
    }
}

impl Subscriber {
    /// Index into the bus's publish history of the next event this
    /// subscriber will be offered.
    pub closed spec fn cursor(self) -> nat {
        self.next as nat
    }

    /// Polls the bus once. In publish order: if unread events remain and the
    /// oldest of them is still retained, it is returned and the cursor
    /// advances past it; if the subscriber stalled past the bus's capacity,
    /// the lost events are counted and skipped; otherwise there is nothing
    /// new.
    pub fn recv(&mut self, bus: &EventBus) -> (r: RecvOutcome)
        ensures
            ({
                let c = old(self).cursor();
                if c >= bus.history().len() {
                    &&& r is Empty
                    &&& final(self).cursor() == c
                } else if c < bus.first_retained() {
                    &&& r == RecvOutcome::Lagged((bus.first_retained() - c) as usize)
                    &&& final(self).cursor() == bus.first_retained()
                } else {
                    &&& r == RecvOutcome::Event(bus.history()[c as int])
                    &&& final(self).cursor() == c + 1
                }
            }),
    {
        proof {
            use_type_invariant(bus);
        }
        if self.next >= bus.dropped + bus.buffer.len() {
            RecvOutcome::Empty
        } else if self.next < bus.dropped {
            let missed = bus.dropped - self.next;
            self.next = bus.dropped;
            RecvOutcome::Lagged(missed)
        } else {
            let event = bus.buffer[self.next - bus.dropped].clone();
            self.next = self.next + 1;
            RecvOutcome::Event(event)
        }
    }
}

/// Law: a subscriber created before `n` further publishes loses none of them
/// while `n` stays within the bus capacity. Its cursor starts at `len0`, and
/// after the publishes the retained window still begins at or before `len0`,
/// so by `recv`'s contract each of the `n` events is handed back, in publish
/// order, one per poll.
pub proof fn lemma_no_loss_within_capacity(len0: nat, i: nat, n: nat, cap: nat)
    requires
        i < n,
        n <= cap,
    ensures
        retained_start(len0 + n, cap) <= len0 + i,
        len0 + i < len0 + n,
{
}

/// Law: a subscriber that stalled past the capacity observes a gap, never a
/// crash. When its cursor `c` is behind the retained window of a history of
/// length `len`, the window start lies between `c` (exclusive) and the end of
/// the history, so by `recv`'s contract the poll yields `Lagged` with the
/// exact count of lost events and the cursor lands back inside the window.
pub proof fn lemma_stalled_subscriber_gap(c: nat, len: nat, cap: nat)
    requires
        cap >= 1,
        c < retained_start(len, cap),
    ensures
        retained_start(len, cap) <= len,
        retained_start(len, cap) - c > 0,
{
}

} // verus!
