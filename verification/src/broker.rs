//! Run-scoped publish/subscribe channel announcing data-definition events.
//!
//! Events are numbered by the order they were published, starting at 0. A
//! subscription remembers the number of events published at its creation and
//! a cursor for the next event it will observe, so a subscriber sees exactly
//! the events published after it subscribed, in order and without replay.
//! Closing the broker lets every subscription observe a terminal signal once
//! it has drained the events published before the close.

use vstd::prelude::*;

verus! {

/// The broadcast side: how many events were published, and whether the
/// broker was closed for the rest of the run.
pub struct EventBroker {
    pub published: u64,
    pub closed: bool,
}

/// What a poll of a subscription observed.
#[derive(Clone, Copy, Debug, PartialEq, Eq, Structural)]
pub enum SubscriptionPoll {
    /// One event, carrying its publication number.
    Event(u64),
    /// No event is pending and the broker was closed: the terminal signal.
    Closed,
    /// No event is pending; the subscriber would block and poll again.
    Pending,
}

/// A subscriber's view of the broker: the next event number it will
/// observe, the publication count at creation time, and (for reasoning
/// only) every event number it has observed so far.
pub struct Subscription {
    pub cursor: u64,
    pub created_at: Ghost<u64>,
    pub observed: Ghost<Seq<u64>>,
}

impl Subscription {
    /// The subscription observes a contiguous range of event numbers that
    /// starts at its creation point.
    pub open spec fn wf(self) -> bool {
        &&& self.created_at@ <= self.cursor
        &&& self.observed@.len() == self.cursor - self.created_at@
        &&& forall|i: int|
            0 <= i < self.observed@.len() ==> self.observed@[i] == self.created_at@ + i
    }

    /// A subscription keeps pace with its broker: it never sits past the
    /// events published so far.
    pub open spec fn attached_to(self, b: EventBroker) -> bool {
        self.cursor <= b.published
    }
}

impl EventBroker {
    /// A fresh broker with no events published and the channel open.
    pub fn new() -> (b: EventBroker)
        ensures
            b.published == 0,
            !b.closed,
    {
        EventBroker { published: 0, closed: false }
    }

    /// Announce one event to all current and future polls of existing
    /// subscriptions.
    pub fn publish(&mut self)
        requires
            old(self).published < u64::MAX,
        ensures
            final(self).published == old(self).published + 1,
            final(self).closed == old(self).closed,
    {
        self.published = self.published + 1;
    }

    /// Close the broker: no further events will be announced, and every
    /// subscription observes the terminal signal once drained.
    pub fn close(&mut self)
        ensures
            final(self).published == old(self).published,
            final(self).closed,
    {
        self.closed = true;
    }

    /// A fresh subscription. It will observe only events published from
    /// this moment on.
    pub fn subscribe(&self) -> (s: Subscription)
        ensures
            s.wf(),
            s.attached_to(*self),
            s.cursor == self.published,
            s.created_at@ == self.published,
            s.observed@ == Seq::<u64>::empty(),
    {
        Subscription {
            cursor: self.published,
            created_at: Ghost(self.published),
            observed: Ghost(Seq::empty()),
        }
    }
}

impl Subscription {
    /// Poll for the next event. Observes each event published after the
    /// subscription was created exactly once, in publication order; after
    /// the broker closes and the pending events are drained, observes the
    /// terminal signal.
    pub fn next(&mut self, b: &EventBroker) -> (r: SubscriptionPoll)
        requires
            old(self).wf(),
            old(self).attached_to(*b),
        ensures
            final(self).wf(),
            final(self).attached_to(*b),
            final(self).created_at@ == old(self).created_at@,
            old(self).cursor < b.published ==> {
                &&& r == SubscriptionPoll::Event(old(self).cursor)
                &&& final(self).cursor == old(self).cursor + 1
                &&& final(self).observed@ == old(self).observed@.push(old(self).cursor)
            },
            old(self).cursor == b.published ==> {
                &&& final(self).cursor == old(self).cursor
                &&& final(self).observed@ == old(self).observed@
                &&& r == (if b.closed {
                    SubscriptionPoll::Closed
                } else {
                    SubscriptionPoll::Pending
                })
            },
    {
        if self.cursor < b.published {
            let number = self.cursor;
            proof {
                self.observed@ = self.observed@.push(number);
            }
            self.cursor = number + 1;
            SubscriptionPoll::Event(number)
        } else if b.closed {
            SubscriptionPoll::Closed
        } else {
            SubscriptionPoll::Pending
        }
    }

    /// Observe every event still pending and return how many there were.
    /// A burst of pending events can so be collapsed into one rebuild.
    pub fn drain_pending(&mut self, b: &EventBroker) -> (n: u64)
        requires
            old(self).wf(),
            old(self).attached_to(*b),
        ensures
            final(self).wf(),
            final(self).attached_to(*b),
            final(self).created_at@ == old(self).created_at@,
            final(self).cursor == b.published,
            n == b.published - old(self).cursor,
    {
        let n = b.published - self.cursor;
        while self.cursor < b.published
            invariant
                self.wf(),
                self.attached_to(*b),
                self.created_at@ == old(self).created_at@,
            decreases b.published - self.cursor,
        {
            proof {
                self.observed@ = self.observed@.push(self.cursor);
            }
            self.cursor = self.cursor + 1;
        }
        n
    }
}

/// A subscriber created after `created_at` events were published observes
/// exactly the events from that point onward: the `i`-th event it sees is
/// event number `created_at + i`, so events published before it subscribed
/// are never replayed and no later event is skipped or repeated.
pub proof fn lemma_subscription_no_replay(s: Subscription)
    requires
        s.wf(),
    ensures
        forall|i: int| 0 <= i < s.observed@.len() ==> s.observed@[i] == s.created_at@ + i,
        forall|i: int| 0 <= i < s.observed@.len() ==> s.observed@[i] >= s.created_at@,
{
}

} // verus!
